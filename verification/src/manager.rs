//! The manager of the single listener: what a start or stop request does to it.
//!
//! The manager holds at most one cancellation handle. Starting stores a fresh
//! one before the socket is opened, so that a second start is refused at once;
//! whoever opens the socket reports back through `finish_start`, which takes
//! the handle out again when the socket could not be set up.

use crate::address::{bind_address, bind_address_text};
use crate::channel::{open_channel, send_signal};
use crate::error::ListenerError;
use tokio::sync::oneshot::{Receiver, Sender};
use vstd::prelude::*;

verus! {

/// The manager's state: the sending half of the running listener's
/// cancellation channel, if a listener is believed to be running.
pub struct UdpListenerState {
    stop_sender: Option<Sender<()>>,
}

/// What the manager's state stands for.
pub struct Lifecycle {
    /// A cancellation handle is stored.
    pub running: bool,
}

/// How opening and configuring the socket went.
#[derive(Clone, Debug, PartialEq, Eq)]
pub enum SocketSetup {
    /// The socket is bound and non-blocking.
    Ready,
    /// Binding failed; holds the system's description.
    BindFailed(String),
    /// Switching to non-blocking mode failed; holds the system's description.
    ConfigFailed(String),
}

/// What an accepted start hands out: where to bind, and the receiving half
/// of the cancellation channel for the task that will poll the socket.
pub struct PendingStart {
    pub bind_address: String,
    pub stop_receiver: Receiver<()>,
}

impl Lifecycle {
    pub open spec fn idle() -> Lifecycle {
        Lifecycle { running: false }
    }

    pub open spec fn armed() -> Lifecycle {
        Lifecycle { running: true }
    }

    /// A start request: refused while running, otherwise the handle is stored.
    pub open spec fn start(self) -> (Lifecycle, Result<(), ListenerError>) {
        if self.running {
            (self, Err(ListenerError::AlreadyRunning))
        } else {
            (Lifecycle::armed(), Ok(()))
        }
    }

    /// The report on the socket: a failure takes the handle out again.
    pub open spec fn finish_start(self, setup: SocketSetup) -> (
        Lifecycle,
        Result<(), ListenerError>,
    ) {
        match setup {
            SocketSetup::Ready => (self, Ok(())),
            SocketSetup::BindFailed(detail) => (
                Lifecycle::idle(),
                Err(ListenerError::BindFailed(detail)),
            ),
            SocketSetup::ConfigFailed(detail) => (
                Lifecycle::idle(),
                Err(ListenerError::ConfigFailed(detail)),
            ),
        }
    }

    /// A stop request; `delivered` says whether the signal found its receiver.
    pub open spec fn stop(self, delivered: bool) -> (Lifecycle, Result<(), ListenerError>) {
        if !self.running {
            (self, Err(ListenerError::NotRunning))
        } else if delivered {
            (Lifecycle::idle(), Ok(()))
        } else {
            (Lifecycle::idle(), Err(ListenerError::SignalDeliveryFailed))
        }
    }

    /// The task's own clean-up when its loop has ended.
    pub open spec fn task_exited(self) -> Lifecycle {
        Lifecycle::idle()
    }
}

impl View for UdpListenerState {
    type V = Lifecycle;

    closed spec fn view(&self) -> Lifecycle {
        Lifecycle { running: self.stop_sender is Some }
    }
}

impl UdpListenerState {
    /// A manager with no listener running.
    pub fn new() -> (state: UdpListenerState)
        ensures
            state@ == Lifecycle::idle(),
    {
        UdpListenerState { stop_sender: None }
    }

    pub fn is_running(&self) -> (running: bool)
        ensures
            running == self@.running,
    {
        self.stop_sender.is_some()
    }
}

/// Asks for a listener on `port`. While one is running the request is refused
/// and nothing changes. Otherwise the manager counts as running from now on,
/// and the caller gets the address to bind and the task's end of the
/// cancellation channel; it reports the socket's fate to `finish_start`.
pub fn start_udp_listener(state: &mut UdpListenerState, port: u16) -> (started: Result<
    PendingStart,
    ListenerError,
>)
    ensures
        final(state)@ == old(state)@.start().0,
        match started {
            Ok(pending) => old(state)@.start().1 is Ok && pending.bind_address@
                == bind_address_text(port),
            Err(error) => old(state)@.start().1 == Err::<(), ListenerError>(error),
        },
{
    if state.stop_sender.is_some() {
        return Err(ListenerError::AlreadyRunning);
    }
    let (sender, receiver) = open_channel();
    state.stop_sender = Some(sender);
    Ok(PendingStart { bind_address: bind_address(port), stop_receiver: receiver })
}

/// Completes a start with the report on the socket. With the socket ready
/// nothing changes; with a failure the stored handle is dropped, so that the
/// manager is startable again, and the failure is returned.
pub fn finish_start(state: &mut UdpListenerState, setup: SocketSetup) -> (finished: Result<
    (),
    ListenerError,
>)
    ensures
        (final(state)@, finished) == old(state)@.finish_start(setup),
{
    match setup {
        SocketSetup::Ready => Ok(()),
        SocketSetup::BindFailed(detail) => {
            state.stop_sender = None;
            Err(ListenerError::BindFailed(detail))
        },
        SocketSetup::ConfigFailed(detail) => {
            state.stop_sender = None;
            Err(ListenerError::ConfigFailed(detail))
        },
    }
}

/// The answer to a stop request whose signal was sent: success when it was
/// delivered, `SignalDeliveryFailed` when the task had already ended.
pub fn signal_reply(sent: Result<(), ()>) -> (reply: Result<(), ListenerError>)
    ensures
        reply == Lifecycle::armed().stop(sent is Ok).1,
{
    match sent {
        Ok(_) => Ok(()),
        Err(_) => Err(ListenerError::SignalDeliveryFailed),
    }
}

/// Asks the running listener to stop. The handle is taken out in any case, so
/// the manager is idle afterwards. With no handle stored the answer is
/// `NotRunning`; otherwise the signal is sent and the answer says whether it
/// was delivered. The call does not wait for the task to end.
pub fn stop_udp_listener(state: &mut UdpListenerState) -> (stopped: Result<(), ListenerError>)
    ensures
        exists|delivered: bool| (final(state)@, stopped) == old(state)@.stop(delivered),
        final(state)@ == Lifecycle::idle(),
        !old(state)@.running ==> stopped == Err::<(), ListenerError>(ListenerError::NotRunning),
{
    match state.stop_sender.take() {
        None => {
            assert((state@, Err::<(), ListenerError>(ListenerError::NotRunning)) == old(state)@.stop(
                true,
            ));
            Err(ListenerError::NotRunning)
        },
        Some(sender) => {
            let sent = send_signal(sender);
            let reply = signal_reply(sent);
            assert((state@, reply) == old(state)@.stop(sent is Ok));
            reply
        },
    }
}

/// Called by the listener task when its loop has ended, for whatever reason:
/// the manager is idle again.
pub fn task_finished(state: &mut UdpListenerState)
    ensures
        final(state)@ == old(state)@.task_exited(),
{
    state.stop_sender = None;
}

/// Two starts with no stop in between: the first is accepted, the second is
/// refused as already running, before and after the first one's socket is ready.
pub proof fn second_start_is_refused(before: Lifecycle)
    requires
        !before.running,
    ensures
        before.start().1 is Ok,
        before.start().0.start().1 == Err::<(), ListenerError>(ListenerError::AlreadyRunning),
        before.start().0.finish_start(SocketSetup::Ready).1 is Ok,
        before.start().0.finish_start(SocketSetup::Ready).0.start().1 == Err::<(), ListenerError>(
            ListenerError::AlreadyRunning,
        ),
{
}

/// A refused start changes nothing.
pub proof fn refused_start_changes_nothing(before: Lifecycle)
    requires
        before.start().1 is Err,
    ensures
        before.start().0 == before,
{
}

/// After a start that went through and a stop, a start is accepted again,
/// whether or not the stop's signal still found the task; and the stop
/// succeeds where it did.
pub proof fn restart_after_stop(before: Lifecycle, delivered: bool)
    requires
        !before.running,
    ensures
        ({
            let running = before.start().0.finish_start(SocketSetup::Ready).0;
            &&& delivered ==> running.stop(delivered).1 is Ok
            &&& running.stop(delivered).0.start().1 is Ok
        }),
{
}

/// A start whose socket could not be set up leaves the manager as it was
/// before the start, reports the failure, and the next start is accepted.
pub proof fn failed_setup_leaves_no_trace(before: Lifecycle, setup: SocketSetup)
    requires
        !before.running,
        !(setup is Ready),
    ensures
        before.start().0.finish_start(setup).0 == before,
        before.start().0.finish_start(setup).1 is Err,
        before.start().0.finish_start(setup).0.start().1 is Ok,
{
}

/// A stop that follows a stop finds no listener, whatever the first one answered.
pub proof fn second_stop_finds_nothing(before: Lifecycle, first: bool, second: bool)
    ensures
        before.stop(first).0.stop(second).1 == Err::<(), ListenerError>(
            ListenerError::NotRunning,
        ),
{
}

/// Once the task has cleaned up after itself a start is accepted, whether the
/// task ended on a stop request or by itself.
pub proof fn startable_after_task_exit(before: Lifecycle)
    ensures
        before.task_exited().start().1 is Ok,
{
}

} // verus!
