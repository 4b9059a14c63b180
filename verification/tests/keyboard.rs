use upower::dry_run::Backlight;
use upower::error::ModuleError;
use upower::event::{EventMap, MouseEvent};
use upower::keyboard::{
    BrightnessRequest, Dispatch, KeyboardCallbackMap, KeyboardEventMappings, KeyboardModule,
    KeyboardModuleFlags, Outcome, RemoteCall, RemoteReply,
};
use upower::runner::{settle, Action, Input};
use upower::wire::{ConversionError, WireValue};

fn scroll_table() -> KeyboardCallbackMap {
    EventMap::new()
        .with(MouseEvent::ScrollUp, vec![KeyboardEventMappings::IncrementBrightness])
        .with(MouseEvent::ScrollDown, vec![KeyboardEventMappings::DecrementBrightness])
        .with(MouseEvent::LeftClick, vec![KeyboardEventMappings::MaxBrightness])
        .with(MouseEvent::RightClick, vec![KeyboardEventMappings::MinBrightness])
}

fn module(table: KeyboardCallbackMap, step: i32, max: i32) -> KeyboardModule {
    let flags = KeyboardModuleFlags { callbacks: table, increment_by_levels: step };
    KeyboardModule::new(flags, Ok(max)).expect("the maximum was read")
}

fn lost() -> zbus::Error {
    zbus::Error::Failure("connection lost".to_string())
}

#[test]
fn event_map_starts_unmapped() {
    let table: KeyboardCallbackMap = EventMap::new();
    for event in [
        MouseEvent::LeftClick,
        MouseEvent::MiddleClick,
        MouseEvent::RightClick,
        MouseEvent::ScrollUp,
        MouseEvent::ScrollDown,
    ] {
        assert_eq!(table.callbacks(event), None);
    }
}

#[test]
fn event_map_keeps_lists_in_order_and_replaces() {
    let table: KeyboardCallbackMap = EventMap::new()
        .with(
            MouseEvent::MiddleClick,
            vec![KeyboardEventMappings::MinBrightness, KeyboardEventMappings::IncrementBrightness],
        )
        .with(MouseEvent::ScrollUp, vec![]);
    assert_eq!(
        table.callbacks(MouseEvent::MiddleClick),
        Some(&vec![KeyboardEventMappings::MinBrightness, KeyboardEventMappings::IncrementBrightness])
    );
    assert_eq!(table.callbacks(MouseEvent::ScrollUp), Some(&vec![]));
    assert_eq!(table.callbacks(MouseEvent::ScrollDown), None);
    let table = table.with(MouseEvent::MiddleClick, vec![KeyboardEventMappings::Refresh]);
    assert_eq!(
        table.callbacks(MouseEvent::MiddleClick),
        Some(&vec![KeyboardEventMappings::Refresh])
    );
    assert_eq!(table.callbacks(MouseEvent::ScrollUp), Some(&vec![]));
}

#[test]
fn events_have_their_places() {
    assert_eq!(MouseEvent::NUM_VARIANTS, 5);
    assert_eq!(MouseEvent::LeftClick.index(), 0);
    assert_eq!(MouseEvent::MiddleClick.index(), 1);
    assert_eq!(MouseEvent::RightClick.index(), 2);
    assert_eq!(MouseEvent::ScrollUp.index(), 3);
    assert_eq!(MouseEvent::ScrollDown.index(), 4);
}

#[test]
fn creation_fails_with_the_error_of_the_read() {
    let flags = KeyboardModuleFlags { callbacks: scroll_table(), increment_by_levels: 10 };
    match KeyboardModule::new(flags, Err(lost())) {
        Err(e) => assert_eq!(e, lost()),
        Ok(_) => panic!("a module was made without its maximum"),
    }
}

#[test]
fn creation_keeps_the_flags() {
    let made = module(scroll_table(), 10, 100);
    assert_eq!(made.max_brightness(), 100);
    assert_eq!(made.increment_by_levels(), 10);
    assert!(made.knows(MouseEvent::ScrollUp));
    assert!(!made.knows(MouseEvent::MiddleClick));
}

#[test]
fn reactions_ask_for_their_requests() {
    let made = module(scroll_table(), 10, 100);
    assert_eq!(KeyboardEventMappings::IncrementBrightness.run(&made), BrightnessRequest::Adjust(10));
    assert_eq!(KeyboardEventMappings::DecrementBrightness.run(&made), BrightnessRequest::Adjust(-10));
    assert_eq!(KeyboardEventMappings::MaxBrightness.run(&made), BrightnessRequest::Write(100));
    assert_eq!(KeyboardEventMappings::MinBrightness.run(&made), BrightnessRequest::Write(0));
    assert_eq!(KeyboardEventMappings::Refresh.run(&made), BrightnessRequest::Nothing);
}

#[test]
fn decrement_of_the_smallest_step_does_not_overflow() {
    let made = module(scroll_table(), i32::MIN, 100);
    assert_eq!(
        KeyboardEventMappings::DecrementBrightness.run(&made),
        BrightnessRequest::Adjust(2_147_483_648)
    );
    assert_eq!(
        KeyboardEventMappings::IncrementBrightness.run(&made),
        BrightnessRequest::Adjust(-2_147_483_648)
    );
}

#[test]
fn increment_near_the_maximum_writes_the_maximum() {
    let made = module(scroll_table(), 10, 100);
    let (state, outcome) = made.recv_message(MouseEvent::ScrollUp);
    assert_eq!(state, Dispatch::Adjusting { event: MouseEvent::ScrollUp, index: 0, delta: 10 });
    assert_eq!(outcome, Outcome::Call(RemoteCall::GetBrightnessAndMax));
    let (state, outcome) = made.resume(state, RemoteReply::BrightnessAndMax(95, 100));
    assert_eq!(state, Dispatch::Writing { event: MouseEvent::ScrollUp, index: 0 });
    assert_eq!(outcome, Outcome::Call(RemoteCall::SetBrightness(100)));
    let (state, outcome) = made.resume(state, RemoteReply::Done);
    assert_eq!(state, Dispatch::Refreshing);
    assert_eq!(outcome, Outcome::Call(RemoteCall::GetBrightness));
    let (state, outcome) = made.resume(state, RemoteReply::Brightness(100));
    assert_eq!(state, Dispatch::Idle);
    assert_eq!(outcome, Outcome::Finished(Ok(Some(100))));
}

#[test]
fn increment_near_the_maximum_on_a_backlight() {
    let made = module(scroll_table(), 10, 100);
    let mut backlight = Backlight { brightness: 95, max_brightness: 100 };
    assert_eq!(made.answer_with(&mut backlight, MouseEvent::ScrollUp), Ok(Some(100)));
    assert_eq!(backlight, Backlight { brightness: 100, max_brightness: 100 });
}

#[test]
fn decrement_near_zero_writes_zero() {
    let made = module(scroll_table(), 10, 100);
    let (state, outcome) = made.recv_message(MouseEvent::ScrollDown);
    assert_eq!(state, Dispatch::Adjusting { event: MouseEvent::ScrollDown, index: 0, delta: -10 });
    assert_eq!(outcome, Outcome::Call(RemoteCall::GetBrightnessAndMax));
    let (state, outcome) = made.resume(state, RemoteReply::BrightnessAndMax(5, 100));
    assert_eq!(outcome, Outcome::Call(RemoteCall::SetBrightness(0)));
    let (state, outcome) = made.resume(state, RemoteReply::Done);
    assert_eq!(outcome, Outcome::Call(RemoteCall::GetBrightness));
    let (state, outcome) = made.resume(state, RemoteReply::Brightness(0));
    assert_eq!(state, Dispatch::Idle);
    assert_eq!(outcome, Outcome::Finished(Ok(Some(0))));
}

#[test]
fn decrement_near_zero_on_a_backlight() {
    let made = module(scroll_table(), 10, 100);
    let mut backlight = Backlight { brightness: 5, max_brightness: 100 };
    assert_eq!(made.answer_with(&mut backlight, MouseEvent::ScrollDown), Ok(Some(0)));
    assert_eq!(backlight.brightness, 0);
}

#[test]
fn minimum_always_writes_zero() {
    for step in [i32::MIN, -10, 0, 1, 10, i32::MAX] {
        for max in [-5, 0, 3, 100, i32::MAX] {
            let made = module(scroll_table(), step, max);
            assert_eq!(KeyboardEventMappings::MinBrightness.run(&made), BrightnessRequest::Write(0));
            let (state, outcome) = made.recv_message(MouseEvent::RightClick);
            assert_eq!(state, Dispatch::Writing { event: MouseEvent::RightClick, index: 0 });
            assert_eq!(outcome, Outcome::Call(RemoteCall::SetBrightness(0)));
            for current in [i32::MIN, -1, 0, 57, i32::MAX] {
                let mut backlight = Backlight { brightness: current, max_brightness: max };
                assert_eq!(made.answer_with(&mut backlight, MouseEvent::RightClick), Ok(Some(0)));
                assert_eq!(backlight.brightness, 0);
            }
        }
    }
}

#[test]
fn maximum_writes_the_cached_maximum() {
    let made = module(scroll_table(), 10, 100);
    let (state, outcome) = made.recv_message(MouseEvent::LeftClick);
    assert_eq!(state, Dispatch::Writing { event: MouseEvent::LeftClick, index: 0 });
    assert_eq!(outcome, Outcome::Call(RemoteCall::SetBrightness(100)));
    let mut backlight = Backlight { brightness: 3, max_brightness: 80 };
    assert_eq!(made.answer_with(&mut backlight, MouseEvent::LeftClick), Ok(Some(100)));
}

#[test]
fn unmapped_event_makes_no_call_and_emits_nothing() {
    let made = module(scroll_table(), 10, 100);
    assert_eq!(
        made.recv_message(MouseEvent::MiddleClick),
        (Dispatch::Idle, Outcome::Finished(Ok(None)))
    );
    let mut backlight = Backlight { brightness: 42, max_brightness: 100 };
    assert_eq!(made.answer_with(&mut backlight, MouseEvent::MiddleClick), Ok(None));
    assert_eq!(backlight, Backlight { brightness: 42, max_brightness: 100 });
    assert_eq!(
        made.turn(Dispatch::Idle, Input::Command(Some(MouseEvent::MiddleClick))),
        (Dispatch::Idle, Action::Continue)
    );
}

#[test]
fn mapped_event_without_reactions_only_refreshes() {
    let table = scroll_table().with(MouseEvent::MiddleClick, vec![]);
    let made = module(table, 10, 100);
    let (state, outcome) = made.recv_message(MouseEvent::MiddleClick);
    assert_eq!(state, Dispatch::Refreshing);
    assert_eq!(outcome, Outcome::Call(RemoteCall::GetBrightness));
    assert_eq!(
        made.resume(state, RemoteReply::Brightness(33)),
        (Dispatch::Idle, Outcome::Finished(Ok(Some(33))))
    );
}

#[test]
fn refresh_reactions_are_passed_over() {
    let table = scroll_table().with(
        MouseEvent::MiddleClick,
        vec![
            KeyboardEventMappings::Refresh,
            KeyboardEventMappings::MaxBrightness,
            KeyboardEventMappings::Refresh,
            KeyboardEventMappings::Refresh,
            KeyboardEventMappings::DecrementBrightness,
            KeyboardEventMappings::Refresh,
        ],
    );
    let made = module(table, 25, 60);
    let (state, outcome) = made.recv_message(MouseEvent::MiddleClick);
    assert_eq!(state, Dispatch::Writing { event: MouseEvent::MiddleClick, index: 1 });
    assert_eq!(outcome, Outcome::Call(RemoteCall::SetBrightness(60)));
    let (state, outcome) = made.resume(state, RemoteReply::Done);
    assert_eq!(state, Dispatch::Adjusting { event: MouseEvent::MiddleClick, index: 4, delta: -25 });
    assert_eq!(outcome, Outcome::Call(RemoteCall::GetBrightnessAndMax));
    let (state, outcome) = made.resume(state, RemoteReply::BrightnessAndMax(60, 60));
    assert_eq!(state, Dispatch::Writing { event: MouseEvent::MiddleClick, index: 4 });
    assert_eq!(outcome, Outcome::Call(RemoteCall::SetBrightness(35)));
    let (state, outcome) = made.resume(state, RemoteReply::Done);
    assert_eq!(state, Dispatch::Refreshing);
    assert_eq!(outcome, Outcome::Call(RemoteCall::GetBrightness));

    let mut backlight = Backlight { brightness: 1, max_brightness: 60 };
    assert_eq!(made.answer_with(&mut backlight, MouseEvent::MiddleClick), Ok(Some(35)));
}

#[test]
fn reactions_run_in_their_order() {
    let table = scroll_table().with(
        MouseEvent::MiddleClick,
        vec![
            KeyboardEventMappings::MinBrightness,
            KeyboardEventMappings::IncrementBrightness,
            KeyboardEventMappings::IncrementBrightness,
        ],
    );
    let made = module(table, 7, 100);
    let mut backlight = Backlight { brightness: 90, max_brightness: 100 };
    assert_eq!(made.answer_with(&mut backlight, MouseEvent::MiddleClick), Ok(Some(14)));
    let table = scroll_table().with(
        MouseEvent::MiddleClick,
        vec![
            KeyboardEventMappings::IncrementBrightness,
            KeyboardEventMappings::IncrementBrightness,
            KeyboardEventMappings::MinBrightness,
        ],
    );
    let made = module(table, 7, 100);
    let mut backlight = Backlight { brightness: 90, max_brightness: 100 };
    assert_eq!(made.answer_with(&mut backlight, MouseEvent::MiddleClick), Ok(Some(0)));
}

#[test]
fn a_failed_call_aborts_the_remaining_reactions() {
    let table = scroll_table().with(
        MouseEvent::MiddleClick,
        vec![KeyboardEventMappings::IncrementBrightness, KeyboardEventMappings::MaxBrightness],
    );
    let made = module(table, 10, 100);
    let (state, _) = made.recv_message(MouseEvent::MiddleClick);
    assert_eq!(
        made.resume(state, RemoteReply::Failed(lost())),
        (Dispatch::Idle, Outcome::Finished(Err(ModuleError::Remote(lost()))))
    );
    let (state, _) = made.resume(state, RemoteReply::BrightnessAndMax(1, 100));
    assert_eq!(
        made.resume(state, RemoteReply::Failed(lost())),
        (Dispatch::Idle, Outcome::Finished(Err(ModuleError::Remote(lost()))))
    );
    assert_eq!(
        made.resume(Dispatch::Refreshing, RemoteReply::Failed(lost())),
        (Dispatch::Idle, Outcome::Finished(Err(ModuleError::Remote(lost()))))
    );
}

#[test]
fn a_reply_out_of_turn_is_an_error() {
    let made = module(scroll_table(), 10, 100);
    let unexpected = (Dispatch::Idle, Outcome::Finished(Err(ModuleError::UnexpectedReply)));
    assert_eq!(made.resume(Dispatch::Idle, RemoteReply::Done), unexpected);
    assert_eq!(made.resume(Dispatch::Idle, RemoteReply::Failed(lost())), unexpected);
    assert_eq!(made.resume(Dispatch::Refreshing, RemoteReply::Done), unexpected);
    assert_eq!(
        made.resume(
            Dispatch::Writing { event: MouseEvent::ScrollUp, index: 0 },
            RemoteReply::Brightness(1)
        ),
        unexpected
    );
    assert_eq!(
        made.resume(
            Dispatch::Adjusting { event: MouseEvent::ScrollUp, index: 0, delta: 10 },
            RemoteReply::Done
        ),
        unexpected
    );
}

#[test]
fn a_state_past_the_last_reaction_refreshes() {
    let made = module(scroll_table(), 10, 100);
    assert_eq!(
        made.resume(
            Dispatch::Writing { event: MouseEvent::ScrollUp, index: usize::MAX },
            RemoteReply::Done
        ),
        (Dispatch::Refreshing, Outcome::Call(RemoteCall::GetBrightness))
    );
    assert_eq!(
        made.resume(
            Dispatch::Writing { event: MouseEvent::MiddleClick, index: 0 },
            RemoteReply::Done
        ),
        (Dispatch::Refreshing, Outcome::Call(RemoteCall::GetBrightness))
    );
}

#[test]
fn clamping_is_exact() {
    let made = module(scroll_table(), 10, 100);
    assert_eq!(made.add_to_brightness(95, 100, 10), RemoteCall::SetBrightness(100));
    assert_eq!(made.add_to_brightness(5, 100, -10), RemoteCall::SetBrightness(0));
    assert_eq!(made.add_to_brightness(50, 100, 10), RemoteCall::SetBrightness(60));
    assert_eq!(made.add_to_brightness(50, 100, -10), RemoteCall::SetBrightness(40));
    assert_eq!(made.add_to_brightness(90, 100, 10), RemoteCall::SetBrightness(100));
    assert_eq!(made.add_to_brightness(10, 100, -10), RemoteCall::SetBrightness(0));
    assert_eq!(made.add_to_brightness(150, 100, 0), RemoteCall::SetBrightness(100));
    assert_eq!(made.add_to_brightness(-3, 100, 0), RemoteCall::SetBrightness(0));
    assert_eq!(made.add_to_brightness(50, -1, 10), RemoteCall::SetBrightness(0));
    assert_eq!(made.add_to_brightness(50, 0, -10), RemoteCall::SetBrightness(0));
    assert_eq!(
        made.add_to_brightness(i32::MAX, i32::MAX, i64::MAX),
        RemoteCall::SetBrightness(i32::MAX)
    );
    assert_eq!(made.add_to_brightness(i32::MIN, i32::MAX, i64::MIN), RemoteCall::SetBrightness(0));
    assert_eq!(
        made.add_to_brightness(i32::MAX, i32::MAX, 2_147_483_648),
        RemoteCall::SetBrightness(i32::MAX)
    );
}

#[test]
fn percent_of_the_maximum_rounds_towards_zero() {
    let made = module(scroll_table(), 10, 255);
    assert_eq!(made.set_brightness_percent(0), Ok(RemoteCall::SetBrightness(0)));
    assert_eq!(made.set_brightness_percent(50), Ok(RemoteCall::SetBrightness(127)));
    assert_eq!(made.set_brightness_percent(33), Ok(RemoteCall::SetBrightness(84)));
    assert_eq!(made.set_brightness_percent(100), Ok(RemoteCall::SetBrightness(255)));
    assert_eq!(made.set_brightness_percent(101), Err(ConversionError::OutOfBounds));
    assert_eq!(made.set_brightness_percent(255), Err(ConversionError::OutOfBounds));
    let made = module(scroll_table(), 10, i32::MAX);
    assert_eq!(made.set_brightness_percent(100), Ok(RemoteCall::SetBrightness(i32::MAX)));
    assert_eq!(made.set_brightness_percent(50), Ok(RemoteCall::SetBrightness(1_073_741_823)));
    let made = module(scroll_table(), 10, -255);
    assert_eq!(made.set_brightness_percent(50), Ok(RemoteCall::SetBrightness(-127)));
    assert_eq!(made.set_brightness(17), RemoteCall::SetBrightness(17));
}

#[test]
fn backlight_serves_calls() {
    let mut backlight = Backlight { brightness: 4, max_brightness: 9 };
    assert_eq!(backlight.serve(RemoteCall::GetBrightness), RemoteReply::Brightness(4));
    assert_eq!(
        backlight.serve(RemoteCall::GetBrightnessAndMax),
        RemoteReply::BrightnessAndMax(4, 9)
    );
    assert_eq!(backlight.serve(RemoteCall::SetBrightness(7)), RemoteReply::Done);
    assert_eq!(backlight, Backlight { brightness: 7, max_brightness: 9 });
    assert_eq!(backlight.serve(RemoteCall::GetBrightness), RemoteReply::Brightness(7));
}

#[test]
fn stream_emits_decoded_signals_and_skips_the_rest() {
    let made = module(scroll_table(), 10, 100);
    assert_eq!(made.stream_item(&Ok(WireValue::I32(12))), Some(12));
    assert_eq!(made.stream_item(&Ok(WireValue::I32(-1))), Some(-1));
    assert_eq!(made.stream_item(&Ok(WireValue::U32(12))), None);
    assert_eq!(made.stream_item(&Ok(WireValue::Str("12".to_string()))), None);
    assert_eq!(made.stream_item(&Err(lost())), None);
}

#[test]
fn run_loop_turns() {
    let made = module(scroll_table(), 10, 100);
    let idle = Dispatch::Idle;
    assert_eq!(made.turn(idle, Input::Signal(None)), (idle, Action::Stop));
    assert_eq!(made.turn(idle, Input::Command(None)), (idle, Action::Stop));
    assert_eq!(
        made.turn(idle, Input::Signal(Some(Ok(WireValue::I32(8))))),
        (idle, Action::Emit(8))
    );
    assert_eq!(made.turn(idle, Input::Signal(Some(Ok(WireValue::Dict)))), (idle, Action::Continue));
    assert_eq!(made.turn(idle, Input::Signal(Some(Err(lost())))), (idle, Action::Continue));
    assert_eq!(
        made.turn(idle, Input::Reply(RemoteReply::Done)),
        (idle, Action::Report(ModuleError::UnexpectedReply))
    );

    let (state, action) = made.turn(idle, Input::Command(Some(MouseEvent::ScrollUp)));
    assert_eq!(action, Action::Call(RemoteCall::GetBrightnessAndMax));
    assert_eq!(
        made.turn(state, Input::Signal(Some(Ok(WireValue::I32(8))))),
        (state, Action::Report(ModuleError::UnexpectedReply))
    );
    assert_eq!(
        made.turn(state, Input::Command(None)),
        (state, Action::Report(ModuleError::UnexpectedReply))
    );
    let (state, action) = made.turn(state, Input::Reply(RemoteReply::BrightnessAndMax(95, 100)));
    assert_eq!(action, Action::Call(RemoteCall::SetBrightness(100)));
    let (state, action) = made.turn(state, Input::Reply(RemoteReply::Done));
    assert_eq!(action, Action::Call(RemoteCall::GetBrightness));
    assert_eq!(
        made.turn(state, Input::Reply(RemoteReply::Brightness(100))),
        (idle, Action::Emit(100))
    );
}

#[test]
fn run_loop_reports_a_failed_call_and_goes_on() {
    let made = module(scroll_table(), 10, 100);
    let (state, _) = made.turn(Dispatch::Idle, Input::Command(Some(MouseEvent::LeftClick)));
    assert_eq!(
        made.turn(state, Input::Reply(RemoteReply::Failed(lost()))),
        (Dispatch::Idle, Action::Report(ModuleError::Remote(lost())))
    );
    assert_eq!(
        made.turn(Dispatch::Idle, Input::Command(Some(MouseEvent::RightClick))).1,
        Action::Call(RemoteCall::SetBrightness(0))
    );
}

#[test]
fn settle_turns_an_answer_into_an_action() {
    let state = Dispatch::Refreshing;
    assert_eq!(
        settle((state, Outcome::Call(RemoteCall::GetBrightness))),
        (state, Action::Call(RemoteCall::GetBrightness))
    );
    assert_eq!(
        settle((Dispatch::Idle, Outcome::Finished(Ok(Some(3))))),
        (Dispatch::Idle, Action::Emit(3))
    );
    assert_eq!(
        settle((Dispatch::Idle, Outcome::Finished(Ok(None)))),
        (Dispatch::Idle, Action::Continue)
    );
    assert_eq!(
        settle((Dispatch::Idle, Outcome::Finished(Err(ModuleError::WatchEnded)))),
        (Dispatch::Idle, Action::Report(ModuleError::WatchEnded))
    );
}
