//! The filter that decides which log records are captured at all.

use tracing_subscriber::filter::ParseError;
use tracing_subscriber::EnvFilter;
use vstd::prelude::*;
use vstd::string::*;

verus! {

/// `tracing_subscriber::EnvFilter`, a filter made from textual directives.
#[verifier::external_type_specification]
#[verifier::external_body]
pub struct ExEnvFilter(EnvFilter);

/// `tracing_subscriber::filter::ParseError`, which says why directives were
/// refused.
#[verifier::external_type_specification]
#[verifier::external_body]
pub struct ExParseError(ParseError);

/// Whether `EnvFilter::try_new` accepts the directives.
pub uninterp spec fn is_valid_filter(directives: Seq<char>) -> bool;

/// Calls `EnvFilter::try_new`, which makes a filter from comma-separated
/// directives or refuses them. Whether it accepts depends on the text alone.
/// It cuts each directive at byte positions that it counts after trimming, and
/// panics where such a cut falls inside a character of several bytes. Where
/// every character takes one byte no cut can, so the text has to be ASCII.
#[verifier::external_body]
pub(crate) fn try_new(directives: &str) -> (parsed: Result<EnvFilter, ParseError>)
    requires
        is_ascii(directives),
    ensures
        parsed is Ok <==> is_valid_filter(directives@),
{
    EnvFilter::try_new(directives)
}

/// The directives used when the environment names none: every level, with the
/// two chattiest targets turned down.
pub const DEFAULT_FILTER: &'static str = "TRACE,wgpu=warn,naga=debug";

/// Every character of the default directives is ASCII.
pub proof fn lemma_default_filter_is_ascii()
    ensures
        is_ascii(DEFAULT_FILTER),
{
    reveal_strlit("TRACE,wgpu=warn,naga=debug");
}

/// Why no filter could be made from directives.
#[derive(Debug)]
pub enum FilterError {
    /// The directives hold a character outside ASCII
    NotAscii,
    /// The directives are not valid; the cause says why
    Invalid(ParseError),
}

/// Makes a filter from directives. Text that is not ASCII is refused outright,
/// since the parser cannot be trusted with it; ASCII text gives a filter
/// exactly when the directives are valid.
pub fn parse_filter(directives: &str) -> (filter: Result<EnvFilter, FilterError>)
    ensures
        !is_ascii(directives) ==> filter matches Err(FilterError::NotAscii),
        is_ascii(directives) && is_valid_filter(directives@) ==> filter is Ok,
        is_ascii(directives) && !is_valid_filter(directives@) ==> filter matches Err(
            FilterError::Invalid(_),
        ),
{
    if !directives.is_ascii() {
        return Err(FilterError::NotAscii);
    }
    match try_new(directives) {
        Ok(filter) => Ok(filter),
        Err(cause) => Err(FilterError::Invalid(cause)),
    }
}

/// Picks the filter for log capturing: the one read from the environment where
/// there is one, else the one that the default directives give.
pub fn filter_or_default(from_env: Option<EnvFilter>) -> (filter: Result<EnvFilter, FilterError>)
    ensures
        from_env matches Some(given) ==> filter == Ok::<EnvFilter, FilterError>(given),
        from_env is None ==> (filter is Ok <==> is_valid_filter(DEFAULT_FILTER@)),
        from_env is None ==> (filter is Err ==> filter matches Err(FilterError::Invalid(_))),
{
    proof {
        lemma_default_filter_is_ascii();
    }
    match from_env {
        Some(given) => Ok(given),
        None => parse_filter(DEFAULT_FILTER),
    }
}

} // verus!
