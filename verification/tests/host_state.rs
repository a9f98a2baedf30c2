use doomtui::errors::HostError;
use doomtui::fps::FpsCounter;
use doomtui::guest::{check_exports, GuestExports};
use doomtui::keys::{Key, KeyKind};
use doomtui::protocol::{startup_font_size, FontQuery, ProtocolKind};
use doomtui::state::{HostState, KeyAction, LoopPhase};

fn fresh() -> HostState {
    HostState::new(8, 16, ProtocolKind::Halfblocks)
}

#[test]
fn startup_state_is_clean() {
    let s = fresh();
    assert_eq!(s.exit, false);
    assert_eq!(s.zoom, 1);
    assert!(s.last_log_line.is_none());
    assert!(s.current_frame.is_none());
    assert_eq!(s.protocol, ProtocolKind::Halfblocks);
    assert_eq!(s.phase(), LoopPhase::Running);
}

#[test]
fn quit_key_press_moves_running_to_exiting() {
    let mut s = fresh();
    assert_eq!(s.phase(), LoopPhase::Running);
    let action = s.handle_key(Key::Char('q'), KeyKind::Press);
    assert_eq!(action, KeyAction::Ignored);
    assert_eq!(s.phase(), LoopPhase::Exiting);
}

#[test]
fn quit_key_release_does_not_exit() {
    let mut s = fresh();
    s.handle_key(Key::Char('q'), KeyKind::Release);
    assert_eq!(s.phase(), LoopPhase::Running);
    s.handle_key(Key::Char('Q'), KeyKind::Press);
    assert_eq!(s.phase(), LoopPhase::Exiting);
}

#[test]
fn zoom_in_twice_and_out_once_yields_two() {
    let mut s = fresh();
    assert_eq!(s.zoom, 1);
    s.handle_key(Key::Char('+'), KeyKind::Press);
    assert_eq!(s.zoom, 2);
    s.handle_key(Key::Char('+'), KeyKind::Press);
    assert_eq!(s.zoom, 3);
    s.handle_key(Key::Char('-'), KeyKind::Press);
    assert_eq!(s.zoom, 2);
}

#[test]
fn zoom_never_goes_below_one() {
    let mut s = fresh();
    for _ in 0..5 {
        s.handle_key(Key::Char('-'), KeyKind::Press);
        assert!(s.zoom >= 1);
    }
    assert_eq!(s.zoom, 1);
    s.handle_key(Key::Char('+'), KeyKind::Press);
    s.handle_key(Key::Char('-'), KeyKind::Press);
    s.handle_key(Key::Char('-'), KeyKind::Press);
    assert_eq!(s.zoom, 1);
}

#[test]
fn zoom_saturates_at_the_machine_limit() {
    let mut s = fresh();
    s.set_zoom(u16::MAX);
    s.increment_zoom();
    assert_eq!(s.zoom, u16::MAX);
    s.decrement_zoom();
    assert_eq!(s.zoom, u16::MAX - 1);
}

#[test]
fn scaled_font_attenuates_by_zoom() {
    let mut s = fresh();
    assert_eq!(s.scaled_font(), (8, 16));
    s.increment_zoom();
    assert_eq!(s.scaled_font(), (4, 8));
    s.increment_zoom();
    assert_eq!(s.scaled_font(), (2, 5));
}

#[test]
fn protocol_key_cycles_the_encoding() {
    let mut s = fresh();
    s.handle_key(Key::Char('p'), KeyKind::Press);
    assert_eq!(s.protocol, ProtocolKind::Sixel);
    s.handle_key(Key::Char('P'), KeyKind::Press);
    assert_eq!(s.protocol, ProtocolKind::Kitty);
    s.handle_key(Key::Char('p'), KeyKind::Press);
    assert_eq!(s.protocol, ProtocolKind::Iterm2);
    s.handle_key(Key::Char('p'), KeyKind::Press);
    assert_eq!(s.protocol, ProtocolKind::Halfblocks);
}

#[test]
fn startup_font_size_falls_back_or_fails() {
    assert_eq!(startup_font_size(FontQuery::Reported(10, 20)), Ok((10, 20)));
    assert_eq!(startup_font_size(FontQuery::NoFontSize), Ok((8, 16)));
    assert_eq!(startup_font_size(FontQuery::Failed), Err(HostError::Terminal));
}

#[test]
fn protocol_labels_name_the_encodings() {
    assert_eq!(ProtocolKind::Halfblocks.label(), "Halfblocks");
    assert_eq!(ProtocolKind::Sixel.label(), "Sixel");
    assert_eq!(ProtocolKind::Kitty.label(), "Kitty");
    assert_eq!(ProtocolKind::Iterm2.label(), "Iterm2");
}

#[test]
fn ordinary_keys_are_forwarded_with_kind_then_code() {
    let mut s = fresh();
    assert_eq!(s.handle_key(Key::Char('w'), KeyKind::Press), KeyAction::Forward(0, 119));
    assert_eq!(s.handle_key(Key::Char('w'), KeyKind::Release), KeyAction::Forward(1, 119));
    assert_eq!(s.handle_key(Key::Left, KeyKind::Press), KeyAction::Forward(0, 0xac));
    assert_eq!(s.handle_key(Key::Char('z'), KeyKind::Press), KeyAction::Forward(0, 157));
}

#[test]
fn repeats_and_unmapped_keys_are_suppressed() {
    let mut s = fresh();
    assert_eq!(s.handle_key(Key::Char('w'), KeyKind::Repeat), KeyAction::Ignored);
    assert_eq!(s.handle_key(Key::Other, KeyKind::Press), KeyAction::Ignored);
}

#[test]
fn host_keys_are_never_forwarded() {
    let mut s = fresh();
    assert_eq!(s.handle_key(Key::Char('q'), KeyKind::Release), KeyAction::Ignored);
    assert_eq!(s.handle_key(Key::Char('+'), KeyKind::Repeat), KeyAction::Ignored);
    assert_eq!(s.handle_key(Key::Char('P'), KeyKind::Press), KeyAction::Ignored);
    assert_eq!(s.handle_key(Key::Char('-'), KeyKind::Press), KeyAction::Ignored);
}

#[test]
fn steady_one_frame_per_second_reports_one() {
    let mut c = FpsCounter::new();
    c.record_frame(1000);
    assert_eq!(c.fps, 1);
    c.record_frame(2000);
    assert_eq!(c.fps, 1);
    c.record_frame(3000);
    assert_eq!(c.fps, 1);
    assert_eq!(c.last_second_ms, 3000);
    assert_eq!(c.frames_since_last_second, 0);
}

#[test]
fn stale_anchor_divides_by_seconds_skipped() {
    let mut c = FpsCounter {
        last_second_ms: 5000,
        frames_since_last_second: 30,
        fps: 0,
    };
    c.record_frame(8000);
    assert_eq!(c.fps, 10);
    assert_eq!(c.last_second_ms, 8000);
    assert_eq!(c.frames_since_last_second, 0);
}

#[test]
fn frames_within_one_second_only_accumulate() {
    let mut c = FpsCounter::new();
    c.record_frame(10);
    c.record_frame(500);
    c.record_frame(999);
    assert_eq!(c.frames_since_last_second, 3);
    assert_eq!(c.fps, 0);
    assert_eq!(c.last_second_ms, 0);
    c.record_frame(1000);
    assert_eq!(c.fps, 4);
    assert_eq!(c.last_second_ms, 1000);
}

#[test]
fn draining_a_batch_applies_host_keys_and_forwards_the_rest() {
    let mut s = fresh();
    let batch = vec![
        (Key::Char('w'), KeyKind::Press),
        (Key::Char('+'), KeyKind::Press),
        (Key::Char('w'), KeyKind::Repeat),
        (Key::Left, KeyKind::Release),
        (Key::Char('q'), KeyKind::Press),
    ];
    let forwards = s.drain_events(&batch);
    assert_eq!(forwards, vec![(0, 119), (1, 0xac)]);
    assert_eq!(s.zoom, 2);
    assert_eq!(s.phase(), LoopPhase::Exiting);
}

#[test]
fn missing_submit_input_export_fails_startup() {
    let exports = GuestExports { has_init: true, has_step: true, has_submit_input: false };
    assert_eq!(check_exports(exports), Err(HostError::Module));
}

#[test]
fn each_missing_export_is_fatal() {
    assert_eq!(
        check_exports(GuestExports { has_init: false, has_step: true, has_submit_input: true }),
        Err(HostError::Module)
    );
    assert_eq!(
        check_exports(GuestExports { has_init: true, has_step: false, has_submit_input: true }),
        Err(HostError::Module)
    );
}

#[test]
fn complete_exports_pass_startup() {
    let exports = GuestExports { has_init: true, has_step: true, has_submit_input: true };
    assert_eq!(check_exports(exports), Ok(()));
}
