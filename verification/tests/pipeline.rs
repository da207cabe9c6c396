use rotocam::angle::{RotationAngle, FULL_TURN_TENTHS, STEP_TENTHS};
use rotocam::capture::{CaptureError, CaptureEvent, CaptureMachine, CaptureState};
use rotocam::channel::FrameSlot;
use rotocam::config::CaptureConfig;
use rotocam::frame::FrameBuffer;
use rotocam::render::DisplayState;
use rotocam::shutdown::ShutdownSignal;
use rotocam::ticker::RenderTicker;
use rotocam::transform::bgr_to_rgba;

fn frame_of(width: u32, height: u32, fill: u8) -> FrameBuffer {
    let len = (width as usize) * (height as usize) * 4;
    FrameBuffer::from_bytes(width, height, vec![fill; len]).unwrap()
}

#[test]
fn angle_starts_at_zero_and_steps_by_three_degrees() {
    let mut a = RotationAngle::new();
    assert_eq!(a.tenths(), 0);
    a.advance(STEP_TENTHS);
    assert_eq!(a.tenths(), 30);
    a.advance(STEP_TENTHS);
    assert_eq!(a.tenths(), 60);
}

#[test]
fn angle_wraps_to_zero_at_a_full_turn() {
    let mut a = RotationAngle::new();
    for _ in 0..120 {
        a.advance(STEP_TENTHS);
    }
    // 120 steps of 3.0 degrees reach 360 exactly, which wraps to 0.
    assert_eq!(a.tenths(), 0);
}

#[test]
fn angle_stays_below_a_full_turn_for_many_iterations() {
    let mut a = RotationAngle::new();
    for n in 1..=1000u64 {
        a.advance(STEP_TENTHS);
        assert!(a.tenths() < FULL_TURN_TENTHS);
        let expected = (n * STEP_TENTHS as u64) % FULL_TURN_TENTHS as u64;
        assert_eq!(a.tenths() as u64, expected);
    }
}

#[test]
fn scenario_a_121_produced_frames_leave_angle_at_three_degrees() {
    // Canvas 640x480, step 3.0 degrees, starting angle 0.
    let config = CaptureConfig::new(1, 0, 640, 480);
    assert_eq!(config.width(), 640);
    assert_eq!(config.height(), 480);
    let mut machine = CaptureMachine::new();
    machine.handle(CaptureEvent::SessionOpened);
    machine.handle(CaptureEvent::SessionConfigured);
    assert_eq!(machine.state(), CaptureState::Running);
    for _ in 0..121 {
        machine.handle(CaptureEvent::FrameProduced);
    }
    // 121 * 3 mod 360 = 3.0 degrees, i.e. 30 tenths.
    assert_eq!(machine.angle_tenths(), 30);
    assert_eq!(machine.state(), CaptureState::Running);
}

#[test]
fn frame_of_the_wrong_length_is_refused() {
    let r = FrameBuffer::from_bytes(2, 2, vec![0u8; 15]);
    match r {
        Ok(_) => panic!("a 15-byte buffer must not pass for a 2x2 canvas"),
        Err(rejected) => assert_eq!(rejected.len(), 15),
    }
}

#[test]
fn frame_of_the_exact_length_is_accepted_whole() {
    let bytes: Vec<u8> = (0u8..16u8).collect();
    let f = FrameBuffer::from_bytes(2, 2, bytes.clone()).unwrap();
    assert_eq!(f.bytes(), &bytes);
    assert_eq!(f.width(), 2);
    assert_eq!(f.height(), 2);
}

#[test]
fn zeroed_frame_has_four_bytes_per_pixel_all_zero() {
    let f = FrameBuffer::new_zeroed(3, 2);
    assert_eq!(f.bytes().len(), 3 * 2 * 4);
    assert!(f.bytes().iter().all(|b| *b == 0));
}

#[test]
fn empty_slot_receives_nothing() {
    let mut slot = FrameSlot::new();
    assert!(slot.try_receive().is_none());
    assert!(slot.try_receive().is_none());
}

#[test]
fn scenario_c_three_sends_before_one_receive_keep_only_the_newest() {
    let mut slot = FrameSlot::new();
    slot.send(frame_of(2, 2, 1));
    slot.send(frame_of(2, 2, 2));
    slot.send(frame_of(2, 2, 3));
    let got = slot.try_receive().expect("the newest frame must be in flight");
    assert_eq!(got.bytes(), &vec![3u8; 16]);
    // Older frames were superseded, not queued.
    assert!(slot.try_receive().is_none());
}

#[test]
fn render_before_any_capture_returns_the_zeroed_canvas() {
    let mut display = DisplayState::new(640, 480);
    let mut slot = FrameSlot::new();
    let img = display.render(&mut slot);
    assert_eq!(img.len(), 640 * 480 * 4);
    assert!(img.iter().all(|b| *b == 0));
}

#[test]
fn scenario_b_two_renders_between_sends_return_the_same_contents() {
    let mut display = DisplayState::new(2, 2);
    let mut slot = FrameSlot::new();
    slot.send(frame_of(2, 2, 9));
    let first = display.render(&mut slot).clone();
    assert_eq!(first, vec![9u8; 16]);
    // No new frame arrives between the two redraws.
    let second = display.render(&mut slot).clone();
    assert_eq!(first, second);
}

#[test]
fn render_replaces_displayed_contents_in_place_when_a_frame_arrived() {
    let mut display = DisplayState::new(2, 2);
    let mut slot = FrameSlot::new();
    slot.send(frame_of(2, 2, 5));
    assert_eq!(display.render(&mut slot), &vec![5u8; 16]);
    slot.send(frame_of(2, 2, 7));
    assert_eq!(display.render(&mut slot), &vec![7u8; 16]);
}

#[test]
fn render_discards_a_frame_for_another_canvas() {
    let mut display = DisplayState::new(2, 2);
    let mut slot = FrameSlot::new();
    slot.send(frame_of(4, 4, 8));
    let img = display.render(&mut slot);
    assert_eq!(img.len(), 16);
    assert!(img.iter().all(|b| *b == 0));
}

#[test]
fn scenario_d_open_failure_terminates_while_display_keeps_rendering() {
    let mut machine = CaptureMachine::new();
    assert_eq!(machine.state(), CaptureState::Initializing);
    machine.handle(CaptureEvent::SessionOpenFailed);
    assert_eq!(machine.state(), CaptureState::Terminated);
    assert_eq!(machine.outcome(), Some(CaptureError::DeviceOpen));
    // The display loop is unaffected: it renders the initial zero-filled
    // buffer indefinitely.
    let mut display = DisplayState::new(640, 480);
    let mut slot = FrameSlot::new();
    for _ in 0..3 {
        let img = display.render(&mut slot);
        assert_eq!(img.len(), 640 * 480 * 4);
        assert!(img.iter().all(|b| *b == 0));
    }
}

#[test]
fn config_failure_terminates_with_the_config_error() {
    let mut machine = CaptureMachine::new();
    machine.handle(CaptureEvent::SessionOpened);
    machine.handle(CaptureEvent::SessionConfigFailed);
    assert_eq!(machine.state(), CaptureState::Terminated);
    assert_eq!(machine.outcome(), Some(CaptureError::DeviceConfig));
}

#[test]
fn read_failure_terminates_with_the_read_error() {
    let mut machine = CaptureMachine::new();
    machine.handle(CaptureEvent::SessionOpened);
    machine.handle(CaptureEvent::SessionConfigured);
    machine.handle(CaptureEvent::FrameReadFailed);
    assert_eq!(machine.state(), CaptureState::Terminated);
    assert_eq!(machine.outcome(), Some(CaptureError::CaptureRead));
}

#[test]
fn transform_failure_terminates_with_the_transform_error() {
    let mut machine = CaptureMachine::new();
    machine.handle(CaptureEvent::SessionOpened);
    machine.handle(CaptureEvent::SessionConfigured);
    machine.handle(CaptureEvent::FrameTransformFailed);
    assert_eq!(machine.state(), CaptureState::Terminated);
    assert_eq!(machine.outcome(), Some(CaptureError::Transform));
}

#[test]
fn shutdown_drains_then_terminates_cleanly_with_no_further_frames() {
    let mut machine = CaptureMachine::new();
    machine.handle(CaptureEvent::SessionOpened);
    machine.handle(CaptureEvent::SessionConfigured);
    machine.handle(CaptureEvent::FrameProduced);
    let angle_at_shutdown = machine.angle_tenths();
    machine.handle(CaptureEvent::ShutdownFired);
    assert_eq!(machine.state(), CaptureState::Draining);
    // Draining proceeds directly to Terminated; even a stray frame event
    // counts for nothing and the angle no longer moves.
    machine.handle(CaptureEvent::FrameProduced);
    assert_eq!(machine.state(), CaptureState::Terminated);
    assert_eq!(machine.angle_tenths(), angle_at_shutdown);
    // A clean shutdown reports no error.
    assert_eq!(machine.outcome(), None);
    machine.handle(CaptureEvent::FrameProduced);
    assert_eq!(machine.state(), CaptureState::Terminated);
    assert_eq!(machine.angle_tenths(), angle_at_shutdown);
}

#[test]
fn shutdown_signal_fires_once_and_is_observable() {
    let mut signal = ShutdownSignal::new();
    assert!(!signal.is_fired());
    signal.fire();
    assert!(signal.is_fired());
    assert!(signal.is_fired());
}

#[test]
fn ticker_advances_its_counter_by_one_per_tick() {
    let mut ticker = RenderTicker::new();
    assert_eq!(ticker.count(), 0);
    assert_eq!(ticker.tick(), 1);
    assert_eq!(ticker.tick(), 2);
    assert_eq!(ticker.count(), 2);
}

#[test]
fn bgr_to_rgba_swaps_channels_and_adds_opaque_alpha() {
    // One pixel: blue 10, green 20, red 30.
    let src = vec![10u8, 20, 30];
    assert_eq!(bgr_to_rgba(&src, 1, 1), vec![30u8, 20, 10, 255]);
}

#[test]
fn bgr_to_rgba_converts_every_pixel_of_a_row() {
    let src = vec![1u8, 2, 3, 4, 5, 6];
    let out = bgr_to_rgba(&src, 2, 1);
    assert_eq!(out, vec![3u8, 2, 1, 255, 6, 5, 4, 255]);
}

#[test]
fn converted_frame_is_accepted_for_the_same_canvas() {
    let src = vec![0u8; 2 * 2 * 3];
    let rgba = bgr_to_rgba(&src, 2, 2);
    let f = FrameBuffer::from_bytes(2, 2, rgba).unwrap();
    assert_eq!(f.bytes().len(), 16);
}

#[test]
fn config_is_read_only_after_creation() {
    let config = CaptureConfig::new(1, 700, 640, 480);
    assert_eq!(config.device_index(), 1);
    assert_eq!(config.backend(), 700);
    assert_eq!(config.width(), 640);
    assert_eq!(config.height(), 480);
}
