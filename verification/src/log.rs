//! Provides the `AllLogs` store of captured log messages and the per-frame steps
//! that fill it.

use crate::channel;
use std::sync::mpsc::{Receiver, Sender};
use vstd::prelude::*;
use vstd::seq_lib::lemma_flatten_concat;
use vstd::string::*;

verus! {

/// The two characters that separate messages in the text of a store.
pub open spec fn line_break() -> Seq<char> {
    seq!['\r', '\n']
}

/// The messages joined into one text, a line break between neighbours and none
/// at either end.
pub open spec fn joined(messages: Seq<Seq<char>>) -> Seq<char>
    decreases messages.len(),
{
    if messages.len() == 0 {
        Seq::empty()
    } else if messages.len() == 1 {
        messages[0]
    } else {
        joined(messages.drop_last()) + line_break() + messages.last()
    }
}

/// One captured log message on its way from the capture layer to the store.
#[derive(Debug)]
pub struct LogEvent {
    message: String,
}

impl View for LogEvent {
    type V = Seq<char>;

    /// The text of the message.
    closed spec fn view(&self) -> Seq<char> {
        self.message@
    }
}

impl LogEvent {
    /// Wraps the rendered text of one log record.
    pub fn new(message: String) -> (event: Self)
        ensures
            event@ == message@,
    {
        LogEvent { message }
    }

    /// The text of the message.
    pub fn message(&self) -> (text: &str)
        ensures
            text@ == self@,
    {
        self.message.as_str()
    }

    /// Gives up the event for the text it carries.
    pub fn into_message(self) -> (text: String)
        ensures
            text@ == self@,
    {
        self.message
    }
}

/// Holds received log messages
#[derive(Debug)]
pub struct AllLogs {
    logs: Vec<String>,
}

impl View for AllLogs {
    type V = Seq<Seq<char>>;

    /// The messages received so far, oldest first.
    closed spec fn view(&self) -> Seq<Seq<char>> {
        self.logs@.map_values(|message: String| message@)
    }
}

impl Default for AllLogs {
    fn default() -> (logs: Self)
        ensures
            logs@ == Seq::<Seq<char>>::empty(),
    {
        AllLogs::new()
    }
}

impl AllLogs {
    /// A store that has received nothing yet.
    pub fn new() -> (logs: Self)
        ensures
            logs@ == Seq::<Seq<char>>::empty(),
    {
        AllLogs { logs: Vec::new() }
    }

    /// Add a log to the record
    pub fn add_log(&mut self, message: String)
        ensures
            final(self)@ == old(self)@.push(message@),
    {
        self.logs.push(message);
    }

    /// Gets all logs so far
    #[must_use]
    pub fn get(&self) -> (text: String)
        ensures
            text@ == joined(self@),
    {
        let mut text = String::new();
        let mut i: usize = 0;
        while i < self.logs.len()
            invariant
                i <= self.logs.len(),
                text@ == joined(self@.take(i as int)),
            decreases self.logs.len() - i,
        {
            if i > 0 {
                proof {
                    reveal_strlit("\r\n");
                }
                text.append("\r\n");
            }
            text.append(self.logs[i].as_str());
            assert(self@.take(i + 1).drop_last() =~= self@.take(i as int));
            i += 1;
        }
        assert(self@.take(i as int) =~= self@);
        text
    }

    /// Gets the log count
    #[must_use]
    pub fn count(&self) -> (count: usize)
        ensures
            count == self@.len(),
    {
        self.logs.len()
    }
}

/// The texts of the events, in their order.
pub open spec fn messages_of(events: Seq<LogEvent>) -> Seq<Seq<char>> {
    events.map_values(|event: LogEvent| event@)
}

/// The receiving end of the capture channel. It holds the [`LogEvent`]s that the
/// capture layers have sent until [`transfer_log_events`] takes them out.
#[derive(Debug)]
pub struct CapturedLogEvents(pub Receiver<LogEvent>);

/// Deals with what one poll of the channel gave. An event goes to the end of
/// the batch, which leaves the rest of the batch as it was, and the drain goes
/// on. Nothing ready ends the drain and leaves the batch as it is.
pub fn take_polled(events: &mut Vec<LogEvent>, polled: Option<LogEvent>) -> (more: bool)
    ensures
        polled matches Some(event) ==> more && final(events)@ == old(events)@.push(event),
        polled is None ==> !more && final(events)@ == old(events)@,
{
    match polled {
        Some(event) => {
            events.push(event);
            true
        },
        None => false,
    }
}

/// Takes out of the channel every event that is ready, in the order of arrival,
/// without ever waiting: with nothing ready the batch is empty. There is no
/// limit on a batch but the one that a `Vec` has anyway.
///
/// The drain polls the channel and hands each answer to [`take_polled`], until
/// that says to stop. What a poll answers depends on the threads that send, so
/// this contract is silent on the batch; [`take_polled`] says what the drain
/// makes of each answer, and [`consume_log_events`] what becomes of the batch.
pub fn transfer_log_events(receiver: &CapturedLogEvents) -> (events: Vec<LogEvent>) {
    let mut events: Vec<LogEvent> = Vec::new();
    while events.len() < usize::MAX
        decreases usize::MAX - events.len(),
    {
        let polled = channel::try_recv(&receiver.0);
        if !take_polled(&mut events, polled) {
            break ;
        }
    }
    events
}

/// Appends the text of each event to the end of the store, in the order of the
/// batch. An empty batch leaves the store as it was.
pub fn consume_log_events(events: Vec<LogEvent>, logs: &mut AllLogs)
    ensures
        final(logs)@ == old(logs)@ + messages_of(events@),
        events@.len() == 0 ==> final(logs)@ == old(logs)@,
{
    let ghost batch = events@;
    for event in it: events
        invariant
            it.seq() == batch,
            logs@ == old(logs)@ + messages_of(batch.take(it.index() as int)),
    {
        logs.add_log(event.into_message());
    }
}

/// The name of the field that holds a record's human-readable message.
pub const MESSAGE_FIELD: &'static str = "message";

/// Whether a field of this name holds the record's message. A front-end asks
/// this before it renders a value, so that only the message is rendered.
pub fn is_message_field(field_name: &str) -> (wanted: bool)
    ensures
        wanted == (field_name@ == MESSAGE_FIELD@),
{
    if field_name.len() != MESSAGE_FIELD.len() {
        false
    } else {
        field_name.to_owned() == MESSAGE_FIELD.to_owned()
    }
}

/// Collects the message of one log record while its fields are visited.
#[derive(Debug)]
pub struct CaptureLayerVisitor {
    message: Option<String>,
}

impl View for CaptureLayerVisitor {
    type V = Option<Seq<char>>;

    /// The message found so far, if any.
    closed spec fn view(&self) -> Option<Seq<char>> {
        match self.message {
            Some(text) => Some(text@),
            None => None,
        }
    }
}

impl CaptureLayerVisitor {
    /// A visitor that has seen no field yet.
    pub fn new() -> (visitor: Self)
        ensures
            visitor@ is None,
    {
        CaptureLayerVisitor { message: None }
    }

    /// Visits one field whose value is rendered as text. The message field
    /// replaces what was found before; every other field is passed over.
    pub fn record_text(&mut self, field_name: &str, text: String)
        ensures
            final(self)@ == if field_name@ == MESSAGE_FIELD@ {
                Some(text@)
            } else {
                old(self)@
            },
    {
        if is_message_field(field_name) {
            self.message = Some(text);
        }
    }

    /// Ends the visit: the message of the record, or `None` if it had none.
    pub fn into_message(self) -> (message: Option<String>)
        ensures
            match message {
                Some(text) => self@ == Some(text@),
                None => self@ is None,
            },
    {
        self.message
    }
}

/// The sending end of the capture channel: what a logging front-end holds to
/// hand over the message of each record it observes. It may be used from any
/// number of threads at once.
#[derive(Debug)]
pub struct CaptureLayer {
    /// The way into the channel that ends in [`CapturedLogEvents`]
    pub sender: Sender<LogEvent>,
}

impl CaptureLayer {
    /// Ends the visit of one record. A record that had a message is sent on as
    /// a [`LogEvent`], without waiting; one that had none is passed over, which
    /// always succeeds. Sending fails only when the receiving end is gone, and
    /// the error then holds the event that was not sent.
    pub fn on_event(&self, visitor: CaptureLayerVisitor) -> (sent: Result<(), LogEvent>)
        ensures
            visitor@ is None ==> sent is Ok,
            sent matches Err(event) ==> visitor@ == Some(event@),
    {
        match visitor.into_message() {
            Some(message) => channel::send(&self.sender, LogEvent::new(message)),
            None => Ok(()),
        }
    }
}

/// Sets up log capturing: a new channel, as the layer that feeds it and the
/// resource that drains it, and the store, which starts out empty.
pub fn setup_logging() -> (parts: (CaptureLayer, CapturedLogEvents, AllLogs))
    ensures
        parts.2@ == Seq::<Seq<char>>::empty(),
{
    let (sender, receiver) = channel::open();
    let layer = CaptureLayer { sender };
    let resource = CapturedLogEvents(receiver);
    (layer, resource, AllLogs::default())
}

/// The store after messages were added one by one, in their order, as
/// [`AllLogs::add_log`] adds them.
pub open spec fn after_adds(store: Seq<Seq<char>>, messages: Seq<Seq<char>>) -> Seq<Seq<char>>
    decreases messages.len(),
{
    if messages.len() == 0 {
        store
    } else {
        after_adds(store, messages.drop_last()).push(messages.last())
    }
}

/// The store after a run of frames, each of which appended its batch, as
/// [`consume_log_events`] appends it.
pub open spec fn after_frames(store: Seq<Seq<char>>, frames: Seq<Seq<Seq<char>>>) -> Seq<
    Seq<char>,
>
    decreases frames.len(),
{
    if frames.len() == 0 {
        store
    } else {
        after_frames(store, frames.drop_last()) + frames.last()
    }
}

/// `stream` lies within `within` at the given positions, which rise strictly:
/// its messages are there, in their own order, whatever stands between them.
pub open spec fn lies_within(stream: Seq<Seq<char>>, positions: Seq<int>, within: Seq<Seq<char>>) -> bool {
    &&& positions.len() == stream.len()
    &&& forall|k: int|
        0 <= k < stream.len() ==> 0 <= #[trigger] positions[k] < within.len() && within[positions[k]]
            == stream[k]
    &&& forall|k: int, l: int|
        0 <= k < l < stream.len() ==> #[trigger] positions[k] < #[trigger] positions[l]
}

/// Adding one message to a store lengthens its text by that message, after a
/// line break unless the store was empty.
pub proof fn lemma_joined_push(messages: Seq<Seq<char>>, message: Seq<char>)
    ensures
        joined(messages.push(message)) == if messages.len() == 0 {
            message
        } else {
            joined(messages) + line_break() + message
        },
{
    assert(messages.push(message).drop_last() =~= messages);
}

/// The text of a store has room for every message and for the line breaks
/// between them, and for nothing else.
pub proof fn lemma_joined_len(messages: Seq<Seq<char>>)
    ensures
        joined(messages).len() == messages.flatten().len() + if messages.len() == 0 {
            0
        } else {
            2 * (messages.len() - 1)
        },
    decreases messages.len(),
{
    if messages.len() == 0 {
    } else if messages.len() == 1 {
        messages.lemma_flatten_one_element();
    } else {
        let front = messages.drop_last();
        lemma_joined_len(front);
        lemma_flatten_concat(front, seq![messages.last()]);
        seq![messages.last()].lemma_flatten_one_element();
        assert(front + seq![messages.last()] =~= messages);
    }
}

/// Adding messages one by one only appends: the store is what it was, followed
/// by the messages in the order in which they were added.
pub proof fn lemma_adds_append_messages(store: Seq<Seq<char>>, messages: Seq<Seq<char>>)
    ensures
        after_adds(store, messages) == store + messages,
        store.is_prefix_of(after_adds(store, messages)),
    decreases messages.len(),
{
    if messages.len() != 0 {
        lemma_adds_append_messages(store, messages.drop_last());
    }
}

/// A store holds exactly the messages that were added to it, in the order in
/// which they were added: starting empty, its count is their number and its
/// text is their join.
pub proof fn lemma_store_holds_what_was_added(messages: Seq<Seq<char>>)
    ensures
        after_adds(Seq::empty(), messages) == messages,
        after_adds(Seq::empty(), messages).len() == messages.len(),
        joined(after_adds(Seq::empty(), messages)) == joined(messages),
{
    lemma_adds_append_messages(Seq::empty(), messages);
}

/// Frames only append: after any run of frames the store is what it was,
/// followed by the batches in the order of the frames.
pub proof fn lemma_frames_append_batches(store: Seq<Seq<char>>, frames: Seq<Seq<Seq<char>>>)
    ensures
        after_frames(store, frames) == store + frames.flatten(),
        store.is_prefix_of(after_frames(store, frames)),
    decreases frames.len(),
{
    if frames.len() != 0 {
        let front = frames.drop_last();
        let last = seq![frames.last()];
        lemma_frames_append_batches(store, front);
        lemma_flatten_concat(front, last);
        last.lemma_flatten_one_element();
        assert(front + last =~= frames);
    }
}

/// What one producer sent reaches the store whole and in the order sent. The
/// channel hands the messages over in that order, cut into the batches of
/// however many frames it takes; a store that started empty then holds exactly
/// those messages, in that order, and counts as many.
pub proof fn lemma_store_holds_what_was_sent(sent: Seq<Seq<char>>, frames: Seq<Seq<Seq<char>>>)
    requires
        frames.flatten() == sent,
    ensures
        after_frames(Seq::empty(), frames) == sent,
        after_frames(Seq::empty(), frames).len() == sent.len(),
        joined(after_frames(Seq::empty(), frames)) == joined(sent),
{
    lemma_frames_append_batches(Seq::empty(), frames);
}

/// A frame with nothing to take leaves the store as it was, wherever in a run
/// of frames it falls.
pub proof fn lemma_empty_frame_changes_nothing(
    store: Seq<Seq<char>>,
    before: Seq<Seq<Seq<char>>>,
    after: Seq<Seq<Seq<char>>>,
)
    ensures
        after_frames(store, before.push(Seq::empty())) == after_frames(store, before),
        after_frames(store, before.push(Seq::empty()) + after) == after_frames(
            store,
            before + after,
        ),
{
    let idle = seq![Seq::<Seq<char>>::empty()];
    assert(before.push(Seq::empty()) =~= before + idle);
    lemma_frames_append_batches(store, before);
    lemma_frames_append_batches(store, before + idle);
    lemma_frames_append_batches(store, before + idle + after);
    lemma_frames_append_batches(store, before + after);
    lemma_flatten_concat(before, idle);
    lemma_flatten_concat(before + idle, after);
    lemma_flatten_concat(before, after);
    idle.lemma_flatten_one_element();
}

/// Appending a batch reorders nothing. However the messages of several
/// producers are mixed in the batch, the stream of any one of them, which lies
/// within the batch in its own order, lies within the store in that order too,
/// and what the store held before stays where it was.
pub proof fn lemma_append_keeps_stream_order(
    store: Seq<Seq<char>>,
    batch: Seq<Seq<char>>,
    stream: Seq<Seq<char>>,
    positions: Seq<int>,
)
    requires
        lies_within(stream, positions, batch),
    ensures
        lies_within(stream, positions.map_values(|at: int| store.len() + at), store + batch),
        forall|i: int| 0 <= i < store.len() ==> (store + batch)[i] == store[i],
{
}

} // verus!
