//! A backlight held in memory, and the answer to an input event worked out
//! against it: what the module does to a backlight that obeys every call and
//! that nobody else touches.

use vstd::prelude::*;
use crate::error::ModuleError;
use crate::event::MouseEvent;
use crate::keyboard::{
    spec_clamped,
    BrightnessRequest,
    Dispatch,
    KeyboardEventMappings,
    KeyboardModule,
    Outcome,
    RemoteCall,
    RemoteReply,
};

verus! {

/// A backlight held in memory.
#[derive(Debug, Clone, Copy, PartialEq, Eq, Structural)]
pub struct Backlight {
    pub brightness: i32,
    pub max_brightness: i32,
}

impl Backlight {
    /// This backlight after a call, and the reply to the call: a read
    /// replies with what the backlight holds, a write stores the brightness
    /// as it is given.
    pub open spec fn spec_serve(self, call: RemoteCall) -> (Backlight, RemoteReply) {
        match call {
            RemoteCall::GetBrightnessAndMax => (
                self,
                RemoteReply::BrightnessAndMax(self.brightness, self.max_brightness),
            ),
            RemoteCall::SetBrightness(value) => (
                Backlight { brightness: value, max_brightness: self.max_brightness },
                RemoteReply::Done,
            ),
            RemoteCall::GetBrightness => (self, RemoteReply::Brightness(self.brightness)),
        }
    }

    /// Serves a call.
    pub fn serve(&mut self, call: RemoteCall) -> (reply: RemoteReply)
        ensures
            (*final(self), reply) == old(self).spec_serve(call),
    {
        match call {
            RemoteCall::GetBrightnessAndMax => RemoteReply::BrightnessAndMax(
                self.brightness,
                self.max_brightness,
            ),
            RemoteCall::SetBrightness(value) => {
                self.brightness = value;
                RemoteReply::Done
            },
            RemoteCall::GetBrightness => RemoteReply::Brightness(self.brightness),
        }
    }
}

impl KeyboardModule {
    /// A backlight after one reaction: an increment or decrement moves the
    /// brightness by the step and keeps it within 0 and the backlight's
    /// maximum; the maximum sets it to the module's cached maximum; the
    /// minimum sets it to 0; a refresh leaves it.
    pub open spec fn spec_effect(&self, reaction: KeyboardEventMappings, backlight: Backlight) -> Backlight {
        match reaction.spec_request(self.spec_increment_by_levels(), self.spec_max_brightness()) {
            BrightnessRequest::Adjust(delta) => Backlight {
                brightness: spec_clamped(
                    backlight.brightness as int,
                    delta as int,
                    backlight.max_brightness as int,
                ) as i32,
                max_brightness: backlight.max_brightness,
            },
            BrightnessRequest::Write(value) => Backlight {
                brightness: value,
                max_brightness: backlight.max_brightness,
            },
            BrightnessRequest::Nothing => backlight,
        }
    }

    /// A backlight after a list of reactions, one after the other.
    pub open spec fn spec_effects(
        &self,
        reactions: Seq<KeyboardEventMappings>,
        backlight: Backlight,
    ) -> Backlight
        decreases reactions.len(),
    {
        if reactions.len() == 0 {
            backlight
        } else {
            self.spec_effect(reactions.last(), self.spec_effects(reactions.drop_last(), backlight))
        }
    }

    /// How many calls the answer to an event may still take from a state.
    spec fn spec_calls_left(&self, event: MouseEvent, state: Dispatch) -> int {
        let count = self.spec_reactions(event).len();
        match state {
            Dispatch::Idle => 0,
            Dispatch::Refreshing => 1,
            Dispatch::Writing { index, .. } => 2 * (count - index),
            Dispatch::Adjusting { index, .. } => 2 * (count - index) + 1,
        }
    }

    /// Whether a state, with what it asks for next and the backlight as it
    /// then is, lies on the way of answering `event` from the backlight
    /// `start`: the reactions before the state's own are done, and the call
    /// asked for is the one that the state's reaction needs.
    spec fn spec_on_track(
        &self,
        event: MouseEvent,
        start: Backlight,
        state: Dispatch,
        outcome: Outcome,
        backlight: Backlight,
    ) -> bool {
        let reactions = self.spec_reactions(event);
        match (state, outcome) {
            (
                Dispatch::Adjusting { event: of, index, delta },
                Outcome::Call(RemoteCall::GetBrightnessAndMax),
            ) => {
                &&& of == event
                &&& index < reactions.len()
                &&& reactions[index as int].spec_request(
                    self.spec_increment_by_levels(),
                    self.spec_max_brightness(),
                ) == BrightnessRequest::Adjust(delta)
                &&& backlight == self.spec_effects(reactions.take(index as int), start)
            },
            (Dispatch::Writing { event: of, index }, Outcome::Call(RemoteCall::SetBrightness(value))) => {
                &&& of == event
                &&& index < reactions.len()
                &&& backlight == self.spec_effects(reactions.take(index as int), start)
                &&& self.spec_effect(reactions[index as int], backlight).brightness == value
            },
            (Dispatch::Refreshing, Outcome::Call(RemoteCall::GetBrightness)) => {
                backlight == self.spec_effects(reactions, start)
            },
            (Dispatch::Idle, Outcome::Finished(Ok(Some(brightness)))) => {
                &&& backlight == self.spec_effects(reactions, start)
                &&& brightness == backlight.brightness
            },
            _ => false,
        }
    }

    /// A reaction changes nothing of a backlight but its brightness.
    proof fn lemma_effect_keeps_maximum(&self, reaction: KeyboardEventMappings, backlight: Backlight)
        ensures
            self.spec_effect(reaction, backlight).max_brightness == backlight.max_brightness,
    {
    }

    /// Proceeding from a reaction whose predecessors are done leads to a
    /// state on the way, with fewer calls left than any state at an earlier
    /// reaction.
    proof fn lemma_proceed_on_track(
        &self,
        event: MouseEvent,
        start: Backlight,
        index: nat,
        backlight: Backlight,
    )
        requires
            index <= self.spec_reactions(event).len() <= usize::MAX,
            backlight == self.spec_effects(self.spec_reactions(event).take(index as int), start),
        ensures
            self.spec_on_track(
                event,
                start,
                self.spec_proceed(event, index).0,
                self.spec_proceed(event, index).1,
                backlight,
            ),
            self.spec_calls_left(event, self.spec_proceed(event, index).0) <= 2 * (
            self.spec_reactions(event).len() - index) + 1,
        decreases self.spec_reactions(event).len() - index,
    {
        let reactions = self.spec_reactions(event);
        if index >= reactions.len() {
            assert(reactions.take(index as int) == reactions);
        } else {
            let request = reactions[index as int].spec_request(
                self.spec_increment_by_levels(),
                self.spec_max_brightness(),
            );
            match request {
                BrightnessRequest::Nothing => {
                    assert(reactions.take(index as int + 1).drop_last() == reactions.take(
                        index as int,
                    ));
                    assert(reactions.take(index as int + 1).last() == reactions[index as int]);
                    self.lemma_proceed_on_track(event, start, index + 1, backlight);
                },
                _ => {},
            }
        }
    }

    /// Answers an input event against a backlight held in memory, making
    /// each call that the answer asks for. An unmapped event leaves the
    /// backlight as it is and emits nothing. For a mapped event the backlight
    /// ends as its reactions leave it, one after the other, and the
    /// brightness that is emitted is the one it then has. Such a backlight
    /// fails no call, so the answer is never an error.
    pub fn answer_with(&self, backlight: &mut Backlight, message: MouseEvent) -> (emitted: Result<
        Option<i32>,
        ModuleError,
    >)
        ensures
            !self.spec_handlers().contains_key(message) ==> *final(backlight) == *old(backlight)
                && emitted == Ok::<Option<i32>, ModuleError>(None),
            self.spec_handlers().contains_key(message) ==> *final(backlight) == self.spec_effects(
                self.spec_reactions(message),
                *old(backlight),
            ) && emitted == Ok::<Option<i32>, ModuleError>(Some(final(backlight).brightness)),
    {
        let ghost start = *backlight;
        let ghost reactions = self.spec_reactions(message);
        if !self.knows(message) {
            return Ok(None);
        }
        proof {
            assert(reactions.take(0) == Seq::<KeyboardEventMappings>::empty());
            self.lemma_proceed_on_track(message, start, 0, start);
        }
        let mut step = self.recv_message(message);
        loop
            invariant
                start == *old(backlight),
                self.spec_handlers().contains_key(message),
                reactions == self.spec_reactions(message),
                reactions.len() <= usize::MAX,
                self.spec_on_track(message, start, step.0, step.1, *backlight),
            decreases self.spec_calls_left(message, step.0),
        {
            match step {
                (_, Outcome::Finished(emitted)) => {
                    return emitted;
                },
                (state, Outcome::Call(call)) => {
                    let ghost before = *backlight;
                    let reply = backlight.serve(call);
                    proof {
                        match state {
                            Dispatch::Writing { index, .. } => {
                                self.lemma_effect_keeps_maximum(reactions[index as int], before);
                                assert(reactions.take(index + 1).drop_last() == reactions.take(
                                    index as int,
                                ));
                                assert(reactions.take(index + 1).last() == reactions[index as int]);
                                self.lemma_proceed_on_track(
                                    message,
                                    start,
                                    index as nat + 1,
                                    *backlight,
                                );
                            },
                            _ => {},
                        }
                    }
                    step = self.resume(state, reply);
                },
            }
        }
    }
}

} // verus!
