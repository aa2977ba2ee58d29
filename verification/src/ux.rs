//! Requests to the supervisor's UX task and the decisions of the waits
//! around them.
//!
//! Nothing here talks to the supervisor. Each function says what to do next
//! for what was observed; the caller performs it and reports back.

use vstd::prelude::*;
use crate::apdu::{decode, ApduHeader, Instruction};
use crate::event::Event;
use crate::status::AppSW;

verus! {

/// A request to the supervisor's UX task.
#[derive(Clone, Copy, Debug, PartialEq, Eq, Structural)]
pub enum UxEvent {
    Event,
    Keyboard,
    WakeUp,
    ValidatePIN,
    LastID,
}

/// How a request ends once it has been sent.
#[derive(Clone, Copy, Debug, PartialEq, Eq, Structural)]
pub enum Completion {
    /// Read the supervisor's last status once and return it.
    LastStatus,
    /// Wait until the supervisor reports a terminal status and return that.
    Block,
}

/// The ordered steps of one request: send `wake` if there is one, then send
/// `id`, then end as `completion` says.
#[derive(Clone, Copy, Debug, PartialEq, Eq, Structural)]
pub struct RequestPlan {
    /// The request to send ahead of `id`, if any.
    pub wake: Option<UxEvent>,
    /// The request itself.
    pub id: UxEvent,
    /// What gives the request's result.
    pub completion: Completion,
}

/// The two supervisor statuses that do not end a wait, as the device's
/// system interface numbers them.
#[derive(Clone, Copy, Debug, PartialEq, Eq, Structural)]
pub struct UxCodes {
    /// The supervisor has not looked at the request yet.
    pub ignore: u32,
    /// The supervisor is still working on the request.
    pub continuing: u32,
}

/// What the caller of `UxEvent::block` observed.
#[derive(Clone, Copy, Debug, PartialEq, Eq, Structural)]
pub enum BlockSignal {
    /// The supervisor's last reported status.
    Status(u32),
    /// Whether a subordinate task is running.
    Subtask(bool),
}

/// What the caller of `UxEvent::block` does next.
#[derive(Clone, Copy, Debug, PartialEq, Eq, Structural)]
pub enum BlockAction {
    /// The wait is over, with this status.
    Return(u32),
    /// Find out whether a subordinate task is running and report it.
    QuerySubtask,
    /// Announce the device's status, receive once on the physical channel
    /// and send an `Event` request, then report the supervisor's status
    /// again. What is received here is handed to nobody: a tick that arrives
    /// while draining counts toward no wait.
    DrainChannel,
    /// Give up the scheduler slot, then report the supervisor's status again.
    Yield,
}

impl UxCodes {
    /// A status that leaves the wait going.
    pub open spec fn pending(self, status: u32) -> bool {
        status == self.ignore || status == self.continuing
    }
}

/// What one turn of the wait hands to its caller for what the channel gave:
/// the same event, a command with its header decoded.
pub open spec fn delivered(received: Option<Event<ApduHeader>>) -> Option<
    Event<Result<Instruction, AppSW>>,
> {
    match received {
        Some(Event::Command(header)) => Some(Event::Command(decode(header))),
        Some(Event::Ticker) => Some(Event::Ticker),
        Some(Event::Other) => Some(Event::Other),
        None => None,
    }
}

impl UxEvent {
    /// The plan of a request, as a value.
    pub open spec fn plan(self) -> RequestPlan {
        if self == UxEvent::ValidatePIN {
            RequestPlan {
                wake: Some(UxEvent::WakeUp),
                id: UxEvent::ValidatePIN,
                completion: Completion::Block,
            }
        } else {
            RequestPlan { wake: None, id: self, completion: Completion::LastStatus }
        }
    }

    /// The next action of a blocking wait, as a value.
    pub open spec fn block_action(codes: UxCodes, signal: BlockSignal) -> BlockAction {
        match signal {
            BlockSignal::Status(status) => if codes.pending(status) {
                BlockAction::QuerySubtask
            } else {
                BlockAction::Return(status)
            },
            BlockSignal::Subtask(running) => if running {
                BlockAction::Yield
            } else {
                BlockAction::DrainChannel
            },
        }
    }

    /// Lays out this request as the steps the caller sends to the supervisor.
    ///
    /// `ValidatePIN` is a handshake in two phases: a `WakeUp` goes first, the
    /// request follows, and the result is awaited with `block`. Every other
    /// request is sent alone and ends with the supervisor's last status.
    pub fn request(&self) -> (plan: RequestPlan)
        ensures
            plan == self.plan(),
    {
        match self {
            UxEvent::ValidatePIN => RequestPlan {
                wake: Some(UxEvent::WakeUp),
                id: UxEvent::ValidatePIN,
                completion: Completion::Block,
            },
            _ => RequestPlan { wake: None, id: *self, completion: Completion::LastStatus },
        }
    }

    /// One decision of the wait for the supervisor's answer.
    ///
    /// The caller starts by reporting the supervisor's last status. A status
    /// other than the two in `codes` ends the wait. Otherwise the caller is
    /// asked whether a subordinate task is running: if one is, it yields its
    /// slot; if none is, it drains the physical channel. Either way it then
    /// reports the status again.
    pub fn block(codes: &UxCodes, signal: BlockSignal) -> (action: BlockAction)
        ensures
            action == Self::block_action(*codes, signal),
    {
        match signal {
            BlockSignal::Status(status) => {
                if status == codes.ignore || status == codes.continuing {
                    BlockAction::QuerySubtask
                } else {
                    BlockAction::Return(status)
                }
            },
            BlockSignal::Subtask(running) => {
                if running {
                    BlockAction::Yield
                } else {
                    BlockAction::DrainChannel
                }
            },
        }
    }

    /// The result of one turn of the wait on the channel. Before it, the
    /// caller has announced the device's status, received once without
    /// blocking, and sent an `Event` request; `received` is what that one
    /// receive gave, if anything.
    ///
    /// The turn makes one attempt and hands back one event at most. A tick
    /// passes through untouched, and so does any other system event. A
    /// command has its header decoded here, and stays a command whether or
    /// not that succeeds: the failure travels with it to be answered.
    pub fn block_and_get_event(received: Option<Event<ApduHeader>>) -> (event: Option<
        Event<Result<Instruction, AppSW>>,
    >)
        ensures
            event == delivered(received),
    {
        match received {
            Some(Event::Command(header)) => Some(Event::Command(Instruction::try_from(header))),
            Some(Event::Ticker) => Some(Event::Ticker),
            Some(Event::Other) => Some(Event::Other),
            None => None,
        }
    }
}

/// Only a `ValidatePIN` request is preceded by a `WakeUp` and awaited by
/// blocking; no request is sent under another name than its own.
pub proof fn lemma_pin_handshake(ux: UxEvent)
    ensures
        ux.plan().id == ux,
        ux.plan().wake == Some(UxEvent::WakeUp) <==> ux == UxEvent::ValidatePIN,
        ux.plan().wake is None <==> ux != UxEvent::ValidatePIN,
        ux.plan().completion == Completion::Block <==> ux == UxEvent::ValidatePIN,
{
}

/// A blocking wait returns nothing but a reported status, and only one that
/// is neither of the two pending codes.
pub proof fn lemma_block_returns_terminal(codes: UxCodes, signal: BlockSignal, status: u32)
    ensures
        UxEvent::block_action(codes, signal) == BlockAction::Return(status) <==> signal
            == BlockSignal::Status(status) && !codes.pending(status),
{
}

/// A turn of the wait drops nothing and makes nothing up: it hands back an
/// event exactly when one was received, a tick exactly for a tick, and a
/// command exactly for a command, with the decoding of its own header even
/// where that is a failure.
pub proof fn lemma_wait_passes_events(received: Option<Event<ApduHeader>>)
    ensures
        delivered(received) is Some <==> received is Some,
        delivered(received) == Some(Event::<Result<Instruction, AppSW>>::Ticker) <==> received
            == Some(Event::<ApduHeader>::Ticker),
        received matches Some(Event::Command(header)) ==> delivered(received) == Some(
            Event::Command(decode(header)),
        ),
        delivered(received) matches Some(Event::Command(_)) ==> received matches Some(
            Event::Command(_),
        ),
{
}

} // verus!
