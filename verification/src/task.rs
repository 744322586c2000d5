//! The decisions of the listener task's polling loop.
//!
//! The task looks at the cancellation channel, then tries to receive one
//! datagram without blocking, and repeats. Whoever owns the socket runs the
//! loop; what to do after each look and each receive attempt is decided here.

use crate::channel::{poll_signal, CancelPoll};
use crate::message::{payload_text, text_from_utf8, UdpMessage, UdpMessageView};
use tokio::sync::oneshot::Receiver;
use vstd::prelude::*;
use vstd::utf8::*;

verus! {

/// How long the task sleeps when no datagram is waiting.
pub const IDLE_POLL_MILLIS: u64 = 10;

/// How long the task sleeps after a socket error other than "would block".
pub const ERROR_BACKOFF_MILLIS: u64 = 100;

/// The size of the buffer one datagram is received into.
pub const RECEIVE_BUFFER_LEN: usize = 1024;

/// The name under which decoded messages are emitted to the subscriber.
pub const MESSAGE_EVENT: &'static str = "udp_message_received";

/// How one non-blocking receive attempt on the socket ended.
#[derive(Clone, Debug, PartialEq, Eq)]
pub enum Received {
    /// One datagram arrived.
    Datagram { payload: Vec<u8>, source_address: String },
    /// Nothing is waiting.
    WouldBlock,
    /// The socket reported any other error.
    Failed,
}

pub enum ReceivedView {
    Datagram { payload: Seq<u8>, source_address: Seq<char> },
    WouldBlock,
    Failed,
}

impl View for Received {
    type V = ReceivedView;

    open spec fn view(&self) -> ReceivedView {
        match *self {
            Received::Datagram { payload, source_address } => ReceivedView::Datagram {
                payload: payload@,
                source_address: source_address@,
            },
            Received::WouldBlock => ReceivedView::WouldBlock,
            Received::Failed => ReceivedView::Failed,
        }
    }
}

/// What the task does after a receive attempt. None of these ends the task.
#[derive(Clone, Debug, PartialEq, Eq)]
pub enum TaskAction {
    /// Forward the message to the subscriber; a failure to do so is not fatal.
    Emit(UdpMessage),
    /// The payload was not text: drop it, naming where it came from.
    Discard { source_address: String },
    /// Sleep before polling again, so that an idle socket costs no CPU.
    Idle { millis: u64 },
    /// Sleep longer before polling again, so that a failing socket is not hammered.
    BackOff { millis: u64 },
}

pub enum TaskActionView {
    Emit(UdpMessageView),
    Discard { source_address: Seq<char> },
    Idle { millis: u64 },
    BackOff { millis: u64 },
}

impl View for TaskAction {
    type V = TaskActionView;

    open spec fn view(&self) -> TaskActionView {
        match *self {
            TaskAction::Emit(message) => TaskActionView::Emit(message@),
            TaskAction::Discard { source_address } => TaskActionView::Discard {
                source_address: source_address@,
            },
            TaskAction::Idle { millis } => TaskActionView::Idle { millis },
            TaskAction::BackOff { millis } => TaskActionView::BackOff { millis },
        }
    }
}

/// Whether a look at the cancellation channel ends the task: a delivered
/// signal does, and so does a channel whose sending half is gone.
pub open spec fn ends_task(poll: CancelPoll) -> bool {
    poll != CancelPoll::Empty
}

/// The action that follows a receive attempt.
pub open spec fn react(received: ReceivedView) -> TaskActionView {
    match received {
        ReceivedView::Datagram { payload, source_address } => match payload_text(payload) {
            Some(data) => TaskActionView::Emit(UdpMessageView { data, source_address }),
            None => TaskActionView::Discard { source_address },
        },
        ReceivedView::WouldBlock => TaskActionView::Idle { millis: IDLE_POLL_MILLIS },
        ReceivedView::Failed => TaskActionView::BackOff { millis: ERROR_BACKOFF_MILLIS },
    }
}

pub fn should_exit(poll: CancelPoll) -> (exit: bool)
    ensures
        exit == ends_task(poll),
{
    match poll {
        CancelPoll::Signalled => true,
        CancelPoll::Empty => false,
        CancelPoll::Closed => true,
    }
}

/// Looks at the cancellation channel without blocking. Returns what was found
/// and whether the task has to end on it.
pub fn check_cancellation(stop_receiver: &mut Receiver<()>) -> (checked: (CancelPoll, bool))
    ensures
        checked.1 == ends_task(checked.0),
{
    let poll = poll_signal(stop_receiver);
    (poll, should_exit(poll))
}

/// Decides what follows a receive attempt: a datagram that is text is
/// emitted with its sender's address, any other datagram is dropped, an idle
/// socket is left alone for a short while, a failing one for a longer while.
pub fn on_receive(received: Received) -> (action: TaskAction)
    ensures
        action@ == react(received@),
{
    match received {
        Received::Datagram { payload, source_address } => match text_from_utf8(payload) {
            Some(data) => TaskAction::Emit(UdpMessage::new(data, source_address)),
            None => TaskAction::Discard { source_address },
        },
        Received::WouldBlock => TaskAction::Idle { millis: IDLE_POLL_MILLIS },
        Received::Failed => TaskAction::BackOff { millis: ERROR_BACKOFF_MILLIS },
    }
}

/// The messages that an action hands to the subscriber: one for `Emit`, none otherwise.
pub open spec fn events_of(action: TaskActionView) -> Seq<UdpMessageView> {
    match action {
        TaskActionView::Emit(message) => seq![message],
        _ => Seq::empty(),
    }
}

/// The messages emitted over a run of receive attempts, oldest first.
pub open spec fn emitted(run: Seq<ReceivedView>) -> Seq<UdpMessageView>
    decreases run.len(),
{
    if run.len() == 0 {
        Seq::empty()
    } else {
        emitted(run.drop_last()) + events_of(react(run.last()))
    }
}

/// A datagram that carries the UTF-8 encoding of a text is emitted as that
/// text, with the sender's address unchanged.
pub proof fn text_datagram_is_emitted(text: Seq<char>, source_address: Seq<char>)
    ensures
        react(ReceivedView::Datagram { payload: encode_utf8(text), source_address })
            == TaskActionView::Emit(UdpMessageView { data: text, source_address }),
{
    encode_utf8_valid_utf8(text);
    encode_utf8_decode_utf8(text);
}

/// A datagram that is not well-formed UTF-8 is dropped.
pub proof fn undecodable_datagram_is_dropped(payload: Seq<u8>, source_address: Seq<char>)
    requires
        !valid_utf8(payload),
    ensures
        react(ReceivedView::Datagram { payload, source_address }) == (TaskActionView::Discard {
            source_address,
        }),
{
}

/// What two runs emit one after the other is what their concatenation emits.
pub proof fn emitted_of_concatenation(first: Seq<ReceivedView>, second: Seq<ReceivedView>)
    ensures
        emitted(first + second) == emitted(first) + emitted(second),
    decreases second.len(),
{
    if second.len() == 0 {
        assert(first + second =~= first);
        assert(emitted(first) + emitted(second) =~= emitted(first));
    } else {
        emitted_of_concatenation(first, second.drop_last());
        assert((first + second).drop_last() =~= first + second.drop_last());
        assert((first + second).last() == second.last());
        assert(emitted(first + second) =~= emitted(first) + emitted(second));
    }
}

/// Wherever it arrives in a run, a text datagram adds exactly one message,
/// at its place among the others.
pub proof fn text_datagram_emits_once(
    before: Seq<ReceivedView>,
    after: Seq<ReceivedView>,
    text: Seq<char>,
    source_address: Seq<char>,
)
    ensures
        emitted(
            before.push(ReceivedView::Datagram { payload: encode_utf8(text), source_address })
                + after,
        ) == emitted(before).push(UdpMessageView { data: text, source_address }) + emitted(after),
{
    let datagram = ReceivedView::Datagram { payload: encode_utf8(text), source_address };
    text_datagram_is_emitted(text, source_address);
    emitted_of_concatenation(before.push(datagram), after);
    assert(before.push(datagram).drop_last() =~= before);
    assert(emitted(before.push(datagram)) =~= emitted(before).push(
        UdpMessageView { data: text, source_address },
    ));
}

/// Wherever it arrives in a run, a datagram that is not well-formed UTF-8
/// adds no message and takes none away: the run emits what it would have
/// emitted without it.
pub proof fn undecodable_datagram_emits_nothing(
    before: Seq<ReceivedView>,
    after: Seq<ReceivedView>,
    payload: Seq<u8>,
    source_address: Seq<char>,
)
    requires
        !valid_utf8(payload),
    ensures
        emitted(before.push(ReceivedView::Datagram { payload, source_address }) + after)
            == emitted(before + after),
{
    let datagram = ReceivedView::Datagram { payload, source_address };
    emitted_of_concatenation(before.push(datagram), after);
    emitted_of_concatenation(before, after);
    assert(before.push(datagram).drop_last() =~= before);
    assert(emitted(before.push(datagram)) =~= emitted(before));
}

} // verus!
