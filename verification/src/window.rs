//! What a hidden window that listens for power management messages decides
//! on each message. The window itself, its thread and the channel that
//! carries the events belong to the caller.

use vstd::prelude::*;

verus! {

/// The message that tells of a power management event.
pub const WM_POWERBROADCAST: u32 = 0x0218;

/// The message that tells a window that it is being destroyed.
pub const WM_DESTROY: u32 = 0x0002;

/// The first message number that is free for private use.
pub const WM_USER: u32 = 0x0400;

/// The private message that asks the window's thread to shut down.
pub const REQUEST_THREAD_SHUTDOWN: u32 = 0x0401;

/// The power event: resuming without the user.
pub const PBT_APMRESUMEAUTOMATIC: u32 = 0x0012;

/// The power event: resuming because of the user.
pub const PBT_APMRESUMESUSPEND: u32 = 0x0007;

/// The power event: about to suspend.
pub const PBT_APMSUSPEND: u32 = 0x0004;

/// Power management events
#[non_exhaustive]
#[derive(Clone, Copy, Debug, PartialEq, Eq, Structural)]
pub enum PowerManagementEvent {
    /// The system is resuming from sleep or hibernation
    /// irrespective of user activity.
    ResumeAutomatic,
    /// The system is resuming from sleep or hibernation
    /// due to user activity.
    ResumeSuspend,
    /// The computer is about to enter a suspended state.
    Suspend,
}

impl PowerManagementEvent {
    /// The event that a power broadcast with this code tells of.
    pub open spec fn of_code(code: u32) -> Option<PowerManagementEvent> {
        if code == PBT_APMRESUMEAUTOMATIC {
            Some(PowerManagementEvent::ResumeAutomatic)
        } else if code == PBT_APMRESUMESUSPEND {
            Some(PowerManagementEvent::ResumeSuspend)
        } else if code == PBT_APMSUSPEND {
            Some(PowerManagementEvent::Suspend)
        } else {
            None
        }
    }

    /// The event that the low 32 bits of a power broadcast's first
    /// parameter tell of, if they tell of one.
    pub fn try_from_winevent(wparam: usize) -> (r: Option<PowerManagementEvent>)
        ensures
            r == PowerManagementEvent::of_code(wparam as u32),
    {
        let code: u32 = #[verifier::truncate]
        (wparam as u32);
        if code == PBT_APMRESUMEAUTOMATIC {
            Some(PowerManagementEvent::ResumeAutomatic)
        } else if code == PBT_APMRESUMESUSPEND {
            Some(PowerManagementEvent::ResumeSuspend)
        } else if code == PBT_APMSUSPEND {
            Some(PowerManagementEvent::Suspend)
        } else {
            None
        }
    }
}

/// What the window's thread does with what it got from its message queue.
#[derive(Clone, Copy, Debug, PartialEq, Eq, Structural)]
pub enum MessageAction {
    /// The queue failed: get the next message.
    Retry,
    /// The queue has ended: leave the loop.
    Quit,
    /// The thread is asked to shut down: destroy the window.
    DestroyWindow,
    /// A message to the thread that asks for nothing.
    Skip,
    /// A message to a window: translate and dispatch it.
    Dispatch,
}

/// What the window's thread does after its message queue has answered
/// `status` with a message `message` for the window `hwnd`.
pub fn message_action(status: i32, hwnd: isize, message: u32) -> (r: MessageAction)
    ensures
        r == if status < 0 {
            MessageAction::Retry
        } else if status == 0 {
            MessageAction::Quit
        } else if hwnd != 0 {
            MessageAction::Dispatch
        } else if message == REQUEST_THREAD_SHUTDOWN {
            MessageAction::DestroyWindow
        } else {
            MessageAction::Skip
        },
{
    if status < 0 {
        return MessageAction::Retry;
    }
    if status == 0 {
        return MessageAction::Quit;
    }
    if hwnd == 0 {
        if message == REQUEST_THREAD_SHUTDOWN {
            MessageAction::DestroyWindow
        } else {
            MessageAction::Skip
        }
    } else {
        MessageAction::Dispatch
    }
}

/// What the window procedure does with a message.
#[derive(Clone, Copy, Debug, PartialEq, Eq, Structural)]
pub enum ProcedureAction {
    /// The window is being destroyed: end the message queue and answer 0.
    PostQuit,
    /// Hand the message to the callback that the window carries.
    Callback,
    /// Hand the message to the system's default procedure.
    Default,
}

/// What the window procedure does with `message`, where `callback` is the
/// value that the window carries for its callback, 0 for none.
pub fn window_procedure(message: u32, callback: isize) -> (r: ProcedureAction)
    ensures
        r == if message == WM_DESTROY {
            ProcedureAction::PostQuit
        } else if callback != 0 {
            ProcedureAction::Callback
        } else {
            ProcedureAction::Default
        },
{
    if message == WM_DESTROY {
        return ProcedureAction::PostQuit;
    }
    if callback != 0 {
        return ProcedureAction::Callback;
    }
    ProcedureAction::Default
}

/// The power management event that a message to the window tells of, if it
/// tells of one: the message is a power broadcast and its first parameter
/// holds the code of an event.
pub fn power_broadcast_event(message: u32, wparam: usize) -> (r: Option<PowerManagementEvent>)
    ensures
        r == if message == WM_POWERBROADCAST {
            PowerManagementEvent::of_code(wparam as u32)
        } else {
            None
        },
{
    if message == WM_POWERBROADCAST {
        PowerManagementEvent::try_from_winevent(wparam)
    } else {
        None
    }
}

/// What a listener got when it waited for the next event.
#[derive(Clone, Copy, Debug, PartialEq, Eq, Structural)]
pub enum Received {
    /// An event.
    Event(PowerManagementEvent),
    /// The sender is gone.
    Closed,
    /// The listener was too slow, and this many events were dropped.
    Lagged(u64),
}

/// What a listener does with what it got.
#[derive(Clone, Copy, Debug, PartialEq, Eq, Structural)]
pub enum ListenerStep {
    /// Hand the event out, or `None` for the end of all events.
    Yield(Option<PowerManagementEvent>),
    /// Wait again.
    WaitAgain,
}

/// What a listener does with what it got: an event is handed out, the end
/// of the sender ends the events, and dropped events are passed over.
pub fn next(received: Received) -> (r: ListenerStep)
    ensures
        r == match received {
            Received::Event(event) => ListenerStep::Yield(Some(event)),
            Received::Closed => ListenerStep::Yield(None),
            Received::Lagged(_) => ListenerStep::WaitAgain,
        },
{
    match received {
        Received::Event(event) => ListenerStep::Yield(Some(event)),
        Received::Closed => ListenerStep::Yield(None),
        Received::Lagged(_) => ListenerStep::WaitAgain,
    }
}

} // verus!
