//! The keyboard backlight module: what each reaction asks of the remote
//! backlight, and how the answer to an input event is worked out call by call.

use vstd::prelude::*;
use crate::battery::Fetched;
use crate::error::ModuleError;
use crate::event::{EventMap, MouseEvent};
use crate::types::Percentage;
use crate::wire::{ConversionError, WireValue};

verus! {

/// The table of a keyboard module: from input events to reactions.
pub type KeyboardCallbackMap = EventMap<KeyboardEventMappings>;

/// What a keyboard module is made from.
#[derive(Debug)]
pub struct KeyboardModuleFlags {
    pub callbacks: KeyboardCallbackMap,
    /// By how many levels one increment or decrement changes the brightness.
    pub increment_by_levels: i32,
}

/// A reaction of the keyboard module to an input event.
#[derive(Debug, Clone, Copy, PartialEq, Eq, Structural)]
pub enum KeyboardEventMappings {
    IncrementBrightness,
    DecrementBrightness,
    MaxBrightness,
    MinBrightness,
    /// Changes nothing; the brightness is read afresh after the reactions.
    Refresh,
}

/// What a reaction asks of the remote backlight.
#[derive(Debug, Clone, Copy, PartialEq, Eq, Structural)]
pub enum BrightnessRequest {
    /// Read the brightness and its maximum, add this many levels, and write
    /// the sum clamped to what the backlight can show.
    Adjust(i64),
    /// Write this brightness.
    Write(i32),
    /// Nothing.
    Nothing,
}

/// A call to the remote backlight.
#[derive(Debug, Clone, Copy, PartialEq, Eq, Structural)]
pub enum RemoteCall {
    /// Read the brightness and the maximum together.
    GetBrightnessAndMax,
    /// Write the brightness.
    SetBrightness(i32),
    /// Read the brightness.
    GetBrightness,
}

/// The reply to a call to the remote backlight.
#[derive(Debug, PartialEq)]
pub enum RemoteReply {
    /// The brightness, then the maximum.
    BrightnessAndMax(i32, i32),
    /// The brightness was written.
    Done,
    /// The brightness.
    Brightness(i32),
    /// The call failed.
    Failed(zbus::Error),
}

/// How far the answer to an input event has come.
#[derive(Debug, Clone, Copy, PartialEq, Eq, Structural)]
pub enum Dispatch {
    /// No event is being answered.
    Idle,
    /// The reaction at `index` waits for the brightness and its maximum, to
    /// change the brightness by `delta`.
    Adjusting { event: MouseEvent, index: usize, delta: i64 },
    /// The reaction at `index` waits for its write to be done.
    Writing { event: MouseEvent, index: usize },
    /// Every reaction is done; the brightness is being read afresh.
    Refreshing,
}

/// What the module asks for next while it answers an input event.
#[derive(Debug, PartialEq)]
pub enum Outcome {
    /// Make this call and hand back its reply.
    Call(RemoteCall),
    /// The event is answered: with a brightness to emit, with nothing to
    /// emit, or with the error that ended the reactions.
    Finished(Result<Option<i32>, ModuleError>),
}

/// A brightness changed by a number of levels and kept within what the
/// backlight can show: from 0 to the maximum. A maximum below 0 counts as 0.
pub open spec fn spec_clamped(current: int, delta: int, max: int) -> int {
    let top = if max < 0 {
        0
    } else {
        max
    };
    if current + delta < 0 {
        0
    } else if current + delta > top {
        top
    } else {
        current + delta
    }
}

/// A clamped brightness lies between 0 and the maximum, and is the plain sum
/// wherever the sum lies there.
pub proof fn lemma_clamped_in_range(current: int, delta: int, max: int)
    ensures
        0 <= spec_clamped(current, delta, max),
        spec_clamped(current, delta, max) <= if max < 0 {
            0
        } else {
            max
        },
        0 <= current + delta <= max ==> spec_clamped(current, delta, max) == current + delta,
        current + delta > max >= 0 ==> spec_clamped(current, delta, max) == max,
        current + delta < 0 ==> spec_clamped(current, delta, max) == 0,
{
}

/// The given percentage of a maximum, rounded towards zero.
pub open spec fn spec_percent_of(max: int, percent: nat) -> int {
    if max < 0 {
        -((-max * percent) / 100)
    } else {
        (max * percent) / 100
    }
}

/// The keyboard backlight module.
#[derive(Debug)]
pub struct KeyboardModule {
    handlers: KeyboardCallbackMap,
    max_brightness: i32,
    increment_by_levels: i32,
}

impl KeyboardEventMappings {
    /// What this reaction asks of the remote backlight, for a module with the
    /// given step and cached maximum.
    pub open spec fn spec_request(self, step: i32, max: i32) -> BrightnessRequest {
        match self {
            KeyboardEventMappings::IncrementBrightness => BrightnessRequest::Adjust(step as i64),
            KeyboardEventMappings::DecrementBrightness => BrightnessRequest::Adjust(
                (-(step as int)) as i64,
            ),
            KeyboardEventMappings::MaxBrightness => BrightnessRequest::Write(max),
            KeyboardEventMappings::MinBrightness => BrightnessRequest::Write(0),
            KeyboardEventMappings::Refresh => BrightnessRequest::Nothing,
        }
    }

    /// What this reaction asks of the remote backlight: an increment or a
    /// decrement adjusts by the module's step, up or down; the maximum writes
    /// the module's cached maximum; the minimum writes 0 whatever the step and
    /// the brightness are; a refresh asks for nothing.
    pub fn run(&self, module: &KeyboardModule) -> (request: BrightnessRequest)
        ensures
            request == self.spec_request(
                module.spec_increment_by_levels(),
                module.spec_max_brightness(),
            ),
            *self == KeyboardEventMappings::MinBrightness ==> request == BrightnessRequest::Write(0),
    {
        match self {
            KeyboardEventMappings::IncrementBrightness => BrightnessRequest::Adjust(
                module.increment_by_levels as i64,
            ),
            KeyboardEventMappings::DecrementBrightness => BrightnessRequest::Adjust(
                -(module.increment_by_levels as i64),
            ),
            KeyboardEventMappings::MaxBrightness => BrightnessRequest::Write(module.max_brightness),
            KeyboardEventMappings::MinBrightness => BrightnessRequest::Write(0),
            KeyboardEventMappings::Refresh => BrightnessRequest::Nothing,
        }
    }
}

impl KeyboardModule {
    /// The table from input events to reactions.
    pub closed spec fn spec_handlers(&self) -> Map<MouseEvent, Seq<KeyboardEventMappings>> {
        self.handlers@
    }

    /// The maximum brightness, as it was read when the module was made.
    pub closed spec fn spec_max_brightness(&self) -> i32 {
        self.max_brightness
    }

    /// By how many levels one increment or decrement changes the brightness.
    pub closed spec fn spec_increment_by_levels(&self) -> i32 {
        self.increment_by_levels
    }

    /// The reactions to an event, in their order; none for an unmapped event.
    pub open spec fn spec_reactions(&self, event: MouseEvent) -> Seq<KeyboardEventMappings> {
        if self.spec_handlers().contains_key(event) {
            self.spec_handlers()[event]
        } else {
            Seq::empty()
        }
    }

    /// Makes the module from its flags and from the outcome of the read of
    /// the maximum brightness. A failed read is the module's creation error.
    pub fn new(flags: KeyboardModuleFlags, max_brightness: Result<i32, zbus::Error>) -> (made:
        Result<Self, zbus::Error>)
        ensures
            match max_brightness {
                Ok(max) => made matches Ok(module) && module.spec_handlers() == flags.callbacks@
                    && module.spec_max_brightness() == max && module.spec_increment_by_levels()
                    == flags.increment_by_levels,
                Err(e) => made matches Err(f) && f == e,
            },
    {
        match max_brightness {
            Ok(max) => Ok(
                KeyboardModule {
                    handlers: flags.callbacks,
                    max_brightness: max,
                    increment_by_levels: flags.increment_by_levels,
                },
            ),
            Err(e) => Err(e),
        }
    }

    /// Whether an event is mapped to reactions. The lists of a module that
    /// was made are no longer than a machine index can count.
    pub fn knows(&self, event: MouseEvent) -> (mapped: bool)
        ensures
            mapped == self.spec_handlers().contains_key(event),
            self.spec_reactions(event).len() <= usize::MAX,
    {
        match self.handlers.callbacks(event) {
            Some(list) => {
                let _count: usize = list.len();
                true
            },
            None => false,
        }
    }

    /// The maximum brightness, as it was read when the module was made.
    #[verifier::when_used_as_spec(spec_max_brightness)]
    pub fn max_brightness(&self) -> (max: i32)
        ensures
            max == self.spec_max_brightness(),
    {
        self.max_brightness
    }

    /// By how many levels one increment or decrement changes the brightness.
    #[verifier::when_used_as_spec(spec_increment_by_levels)]
    pub fn increment_by_levels(&self) -> (step: i32)
        ensures
            step == self.spec_increment_by_levels(),
    {
        self.increment_by_levels
    }

    /// The call that writes a brightness.
    pub fn set_brightness(&self, value: i32) -> (call: RemoteCall)
        ensures
            call == RemoteCall::SetBrightness(value),
    {
        RemoteCall::SetBrightness(value)
    }

    /// The call that sets the brightness to a percentage of the cached
    /// maximum, rounded towards zero. A number above 100 is no percentage and
    /// is out of bounds.
    pub fn set_brightness_percent(&self, percentage: u8) -> (call: Result<
        RemoteCall,
        ConversionError,
    >)
        ensures
            percentage <= 100 ==> call == Ok::<RemoteCall, ConversionError>(
                RemoteCall::SetBrightness(
                    spec_percent_of(self.spec_max_brightness() as int, percentage as nat) as i32,
                ),
            ),
            percentage <= 100 ==> i32::MIN <= spec_percent_of(
                self.spec_max_brightness() as int,
                percentage as nat,
            ) <= i32::MAX,
            percentage > 100 ==> call == Err::<RemoteCall, ConversionError>(
                ConversionError::OutOfBounds,
            ),
    {
        match Percentage::try_new_else_zvariant_error(percentage) {
            Ok(percent) => {
                let p: u64 = percent.get() as u64;
                let max: i32 = self.max_brightness;
                if max < 0 {
                    let magnitude: u64 = (-(max as i64)) as u64;
                    assert(magnitude * p <= 0x8000_0000 * 100) by (nonlinear_arith)
                        requires
                            magnitude <= 0x8000_0000,
                            p <= 100,
                    ;
                    let scaled: u64 = (magnitude * p) / 100;
                    assert(scaled <= magnitude) by (nonlinear_arith)
                        requires
                            scaled == (magnitude * p) / 100,
                            p <= 100,
                    ;
                    Ok(self.set_brightness((-(scaled as i64)) as i32))
                } else {
                    let magnitude: u64 = max as u64;
                    assert(magnitude * p <= 0x8000_0000 * 100) by (nonlinear_arith)
                        requires
                            magnitude <= 0x8000_0000,
                            p <= 100,
                    ;
                    let scaled: u64 = (magnitude * p) / 100;
                    assert(scaled <= magnitude) by (nonlinear_arith)
                        requires
                            scaled == (magnitude * p) / 100,
                            p <= 100,
                    ;
                    Ok(self.set_brightness(scaled as i32))
                }
            },
            Err(e) => Err(e),
        }
    }

    /// The brightness to write for a change by `increment` levels, given the
    /// brightness and the maximum as they were just read: the sum, kept
    /// within 0 and the maximum.
    pub fn add_to_brightness(&self, current: i32, max: i32, increment: i64) -> (call: RemoteCall)
        ensures
            call == RemoteCall::SetBrightness(
                spec_clamped(current as int, increment as int, max as int) as i32,
            ),
            0 <= spec_clamped(current as int, increment as int, max as int) <= i32::MAX,
    {
        let top: i128 = if max < 0 {
            0
        } else {
            max as i128
        };
        let sum: i128 = current as i128 + increment as i128;
        let new: i128 = if sum < 0 {
            0
        } else if sum > top {
            top
        } else {
            sum
        };
        self.set_brightness(new as i32)
    }

    /// Where the answer to an event stands once the reactions before `index`
    /// are done: at the first reaction from there on that asks for a call,
    /// or, where none does, at the fresh read of the brightness.
    pub open spec fn spec_proceed(&self, event: MouseEvent, index: nat) -> (Dispatch, Outcome)
        decreases self.spec_reactions(event).len() - index,
    {
        let reactions = self.spec_reactions(event);
        if index >= reactions.len() || index > usize::MAX {
            (Dispatch::Refreshing, Outcome::Call(RemoteCall::GetBrightness))
        } else {
            match reactions[index as int].spec_request(
                self.spec_increment_by_levels(),
                self.spec_max_brightness(),
            ) {
                BrightnessRequest::Adjust(delta) => (
                    Dispatch::Adjusting { event, index: index as usize, delta },
                    Outcome::Call(RemoteCall::GetBrightnessAndMax),
                ),
                BrightnessRequest::Write(value) => (
                    Dispatch::Writing { event, index: index as usize },
                    Outcome::Call(RemoteCall::SetBrightness(value)),
                ),
                BrightnessRequest::Nothing => self.spec_proceed(event, index + 1),
            }
        }
    }

    /// How the answer to an event begins: an unmapped event is answered at
    /// once, with nothing to emit and without a call; a mapped one proceeds
    /// from its first reaction.
    pub open spec fn spec_recv_message(&self, message: MouseEvent) -> (Dispatch, Outcome) {
        if self.spec_handlers().contains_key(message) {
            self.spec_proceed(message, 0)
        } else {
            (Dispatch::Idle, Outcome::Finished(Ok(None)))
        }
    }

    /// How the answer to an event goes on when a reply arrives. A failed call
    /// ends the answer with its error and leaves the remaining reactions
    /// undone. A reply that the state does not wait for ends it too.
    pub open spec fn spec_resume(&self, state: Dispatch, reply: RemoteReply) -> (
        Dispatch,
        Outcome,
    ) {
        match (state, reply) {
            (Dispatch::Idle, _) => (
                Dispatch::Idle,
                Outcome::Finished(Err(ModuleError::UnexpectedReply)),
            ),
            (_, RemoteReply::Failed(e)) => (
                Dispatch::Idle,
                Outcome::Finished(Err(ModuleError::Remote(e))),
            ),
            (
                Dispatch::Adjusting { event, index, delta },
                RemoteReply::BrightnessAndMax(current, max),
            ) => (
                Dispatch::Writing { event, index },
                Outcome::Call(
                    RemoteCall::SetBrightness(
                        spec_clamped(current as int, delta as int, max as int) as i32,
                    ),
                ),
            ),
            (Dispatch::Writing { event, index }, RemoteReply::Done) => self.spec_proceed(
                event,
                index as nat + 1,
            ),
            (Dispatch::Refreshing, RemoteReply::Brightness(brightness)) => (
                Dispatch::Idle,
                Outcome::Finished(Ok(Some(brightness))),
            ),
            _ => (Dispatch::Idle, Outcome::Finished(Err(ModuleError::UnexpectedReply))),
        }
    }

    /// Proceeds with the reactions to an event from the one at `index`.
    fn proceed(&self, event: MouseEvent, index: usize) -> (next: (Dispatch, Outcome))
        ensures
            next == self.spec_proceed(event, index as nat),
    {
        let reactions = match self.handlers.callbacks(event) {
            Some(list) => list,
            None => {
                return (Dispatch::Refreshing, Outcome::Call(RemoteCall::GetBrightness));
            },
        };
        let mut i: usize = index;
        while i < reactions.len()
            invariant
                reactions@ == self.spec_reactions(event),
                self.spec_proceed(event, i as nat) == self.spec_proceed(event, index as nat),
            decreases reactions.len() - i,
        {
            match reactions[i].run(self) {
                BrightnessRequest::Adjust(delta) => {
                    return (
                        Dispatch::Adjusting { event, index: i, delta },
                        Outcome::Call(RemoteCall::GetBrightnessAndMax),
                    );
                },
                BrightnessRequest::Write(value) => {
                    return (
                        Dispatch::Writing { event, index: i },
                        Outcome::Call(self.set_brightness(value)),
                    );
                },
                BrightnessRequest::Nothing => {},
            }
            i += 1;
        }
        (Dispatch::Refreshing, Outcome::Call(RemoteCall::GetBrightness))
    }

    /// Begins the answer to an input event. An unmapped event is answered at
    /// once: nothing is emitted and no call is made. For a mapped event the
    /// reactions run in their order, each through the calls it asks for, and
    /// the brightness is then read afresh, so that what is emitted is the
    /// settled brightness.
    pub fn recv_message(&self, message: MouseEvent) -> (next: (Dispatch, Outcome))
        ensures
            next == self.spec_recv_message(message),
            !self.spec_handlers().contains_key(message) ==> next == (
                Dispatch::Idle,
                Outcome::Finished(Ok(None)),
            ),
    {
        match self.handlers.callbacks(message) {
            Some(_) => self.proceed(message, 0),
            None => (Dispatch::Idle, Outcome::Finished(Ok(None))),
        }
    }

    /// Goes on with the answer to an input event, given the reply to the call
    /// that was asked for.
    pub fn resume(&self, state: Dispatch, reply: RemoteReply) -> (next: (Dispatch, Outcome))
        ensures
            next == self.spec_resume(state, reply),
    {
        match state {
            Dispatch::Idle => (
                Dispatch::Idle,
                Outcome::Finished(Err(ModuleError::UnexpectedReply)),
            ),
            Dispatch::Adjusting { event, index, delta } => match reply {
                RemoteReply::Failed(e) => (
                    Dispatch::Idle,
                    Outcome::Finished(Err(ModuleError::Remote(e))),
                ),
                RemoteReply::BrightnessAndMax(current, max) => (
                    Dispatch::Writing { event, index },
                    Outcome::Call(self.add_to_brightness(current, max, delta)),
                ),
                _ => (Dispatch::Idle, Outcome::Finished(Err(ModuleError::UnexpectedReply))),
            },
            Dispatch::Writing { event, index } => match reply {
                RemoteReply::Failed(e) => (
                    Dispatch::Idle,
                    Outcome::Finished(Err(ModuleError::Remote(e))),
                ),
                RemoteReply::Done => {
                    if index == usize::MAX {
                        (Dispatch::Refreshing, Outcome::Call(RemoteCall::GetBrightness))
                    } else {
                        self.proceed(event, index + 1)
                    }
                },
                _ => (Dispatch::Idle, Outcome::Finished(Err(ModuleError::UnexpectedReply))),
            },
            Dispatch::Refreshing => match reply {
                RemoteReply::Failed(e) => (
                    Dispatch::Idle,
                    Outcome::Finished(Err(ModuleError::Remote(e))),
                ),
                RemoteReply::Brightness(brightness) => (
                    Dispatch::Idle,
                    Outcome::Finished(Ok(Some(brightness))),
                ),
                _ => (Dispatch::Idle, Outcome::Finished(Err(ModuleError::UnexpectedReply))),
            },
        }
    }

    /// What one brightness signal contributes to the module's own stream:
    /// the brightness that it carries, or nothing where it carries none.
    pub open spec fn spec_stream_item(signal: Fetched) -> Option<i32> {
        match signal {
            Ok(WireValue::I32(brightness)) => Some(brightness),
            _ => None,
        }
    }

    /// Handles one brightness signal of the module's own stream: the
    /// brightness to emit, or nothing for a signal to skip.
    pub fn stream_item(&self, signal: &Fetched) -> (emitted: Option<i32>)
        ensures
            emitted == Self::spec_stream_item(*signal),
    {
        match signal {
            Ok(WireValue::I32(brightness)) => Some(*brightness),
            _ => None,
        }
    }
}

} // verus!
