//! The run loop of the keyboard module, one turn at a time: what the loop
//! does with whatever became ready first.

use vstd::prelude::*;
use crate::battery::Fetched;
use crate::error::ModuleError;
use crate::event::MouseEvent;
use crate::keyboard::{Dispatch, KeyboardModule, Outcome, RemoteCall, RemoteReply};

verus! {

/// What became ready. A source that has closed hands out `None`.
#[derive(Debug, PartialEq)]
pub enum Input {
    /// The module's own stream: a brightness signal.
    Signal(Option<Fetched>),
    /// The command channel: an input event.
    Command(Option<MouseEvent>),
    /// The reply to the call that the previous turn asked for.
    Reply(RemoteReply),
}

/// What the loop does in one turn.
#[derive(Debug, PartialEq)]
pub enum Action {
    /// Emit this brightness, then wait for the next input.
    Emit(i32),
    /// Wait for the next input.
    Continue,
    /// Make this call, and hand its reply to the next turn.
    Call(RemoteCall),
    /// Report this error, then wait for the next input.
    Report(ModuleError),
    /// End the loop.
    Stop,
}

/// What the loop does once the module has said how the answer to a command
/// stands: it makes the call that is asked for, emits the brightness that the
/// answer ends with, goes on in silence where the answer ends with nothing,
/// and reports the error where it ends with one. No error ends the loop.
pub open spec fn spec_settle(next: (Dispatch, Outcome)) -> (Dispatch, Action) {
    match next.1 {
        Outcome::Call(call) => (next.0, Action::Call(call)),
        Outcome::Finished(Ok(Some(brightness))) => (next.0, Action::Emit(brightness)),
        Outcome::Finished(Ok(None)) => (next.0, Action::Continue),
        Outcome::Finished(Err(e)) => (next.0, Action::Report(e)),
    }
}

/// What the loop does once the module has said how the answer to a command
/// stands.
pub fn settle(next: (Dispatch, Outcome)) -> (turn: (Dispatch, Action))
    ensures
        turn == spec_settle(next),
{
    match next {
        (state, Outcome::Call(call)) => (state, Action::Call(call)),
        (state, Outcome::Finished(Ok(Some(brightness)))) => (state, Action::Emit(brightness)),
        (state, Outcome::Finished(Ok(None))) => (state, Action::Continue),
        (state, Outcome::Finished(Err(e))) => (state, Action::Report(e)),
    }
}

impl KeyboardModule {
    /// One turn of the run loop. While no command is being answered, the
    /// loop takes a signal or a command: a closed source ends the loop, a
    /// signal is emitted or skipped, a command begins its answer. While a
    /// command is being answered, the loop takes the reply to its call. An
    /// input that the state does not wait for is reported and changes
    /// nothing.
    pub open spec fn spec_turn(&self, state: Dispatch, input: Input) -> (Dispatch, Action) {
        match (state, input) {
            (Dispatch::Idle, Input::Signal(None)) => (Dispatch::Idle, Action::Stop),
            (Dispatch::Idle, Input::Command(None)) => (Dispatch::Idle, Action::Stop),
            (Dispatch::Idle, Input::Signal(Some(signal))) => match Self::spec_stream_item(signal) {
                Some(brightness) => (Dispatch::Idle, Action::Emit(brightness)),
                None => (Dispatch::Idle, Action::Continue),
            },
            (Dispatch::Idle, Input::Command(Some(event))) => spec_settle(
                self.spec_recv_message(event),
            ),
            (Dispatch::Idle, Input::Reply(_)) => (
                Dispatch::Idle,
                Action::Report(ModuleError::UnexpectedReply),
            ),
            (_, Input::Reply(reply)) => spec_settle(self.spec_resume(state, reply)),
            (_, _) => (state, Action::Report(ModuleError::UnexpectedReply)),
        }
    }

    /// One turn of the run loop.
    pub fn turn(&self, state: Dispatch, input: Input) -> (next: (Dispatch, Action))
        ensures
            next == self.spec_turn(state, input),
    {
        match state {
            Dispatch::Idle => match input {
                Input::Signal(None) => (Dispatch::Idle, Action::Stop),
                Input::Command(None) => (Dispatch::Idle, Action::Stop),
                Input::Signal(Some(signal)) => match self.stream_item(&signal) {
                    Some(brightness) => (Dispatch::Idle, Action::Emit(brightness)),
                    None => (Dispatch::Idle, Action::Continue),
                },
                Input::Command(Some(event)) => settle(self.recv_message(event)),
                Input::Reply(_) => (Dispatch::Idle, Action::Report(ModuleError::UnexpectedReply)),
            },
            _ => match input {
                Input::Reply(reply) => settle(self.resume(state, reply)),
                _ => (state, Action::Report(ModuleError::UnexpectedReply)),
            },
        }
    }

    /// A command that is not mapped to reactions passes in silence: the loop
    /// emits nothing, makes no call, and waits for the next input.
    pub proof fn lemma_unmapped_command_is_silent(&self, event: MouseEvent)
        requires
            !self.spec_handlers().contains_key(event),
        ensures
            self.spec_turn(Dispatch::Idle, Input::Command(Some(event))) == (
                Dispatch::Idle,
                Action::Continue,
            ),
    {
    }

    /// A failed call ends the answer to a command and not the loop: the
    /// error is reported, the remaining reactions are left undone, and the
    /// loop waits for the next input.
    pub proof fn lemma_failed_call_is_reported(&self, state: Dispatch, error: zbus::Error)
        requires
            state != Dispatch::Idle,
        ensures
            self.spec_turn(state, Input::Reply(RemoteReply::Failed(error))) == (
                Dispatch::Idle,
                Action::Report(ModuleError::Remote(error)),
            ),
    {
    }
}

} // verus!
