use lib::game::frame_fits;
use lib::game::render::{coords_fit, gradient_fits};
use lib::game::{
    render_weird_gradient, update_and_render, ButtonState, ControllerInput, Input, Memory,
    OffscreenBuffer, SoundOutputBuffer, State, ACTION_DOWN, BACK, MOVE_LEFT, MOVE_RIGHT, MOVE_UP,
    STATE_SIZE,
};

fn pixel(memory: &[u8], pitch: usize, x: usize, y: usize) -> [u8; 4] {
    let at = y * pitch + 4 * x;
    [memory[at], memory[at + 1], memory[at + 2], memory[at + 3]]
}

#[test]
fn gradient_fills_whole_pixels_of_whole_rows() {
    // Two whole rows of 3 pixels with 2 bytes of padding each, then a 5-byte tail.
    let mut memory = vec![0xAAu8; 2 * 14 + 5];
    render_weird_gradient(&mut memory, 14, 4, 1, 254);
    for y in 0..2 {
        for x in 0..3 {
            let blue = ((x as i32 + 1) & 0xFF) as u8;
            let green = ((y as i32 + 254) & 0xFF) as u8;
            assert_eq!(pixel(&memory, 14, x, y), [blue, green, 0, 0]);
        }
        assert_eq!(memory[y * 14 + 12], 0xAA);
        assert_eq!(memory[y * 14 + 13], 0xAA);
    }
    assert_eq!(pixel(&memory, 14, 2, 1), [3, 255, 0, 0]);
    assert!(memory[28..].iter().all(|b| *b == 0xAA));
}

#[test]
fn gradient_wraps_negative_offsets() {
    let mut memory = vec![0u8; 8];
    render_weird_gradient(&mut memory, 8, 4, -1, -256);
    assert_eq!(memory, vec![255, 0, 0, 0, 0, 0, 0, 0]);
}

#[test]
fn gradient_leaves_a_buffer_without_whole_rows() {
    let mut memory = vec![7u8; 10];
    render_weird_gradient(&mut memory, 12, 4, 0, 0);
    assert_eq!(memory, vec![7u8; 10]);
    // No whole row: a zero pixel size is never used.
    render_weird_gradient(&mut memory, 12, 0, 0, 0);
    assert_eq!(memory, vec![7u8; 10]);
}

#[test]
fn gradient_repeats_every_256_pixels() {
    let mut a = vec![0u8; 3 * 16];
    let mut b = vec![0u8; 3 * 16];
    render_weird_gradient(&mut a, 16, 4, 5, 9);
    render_weird_gradient(&mut b, 16, 4, 5 + 256, 9 + 256);
    assert_eq!(a, b);
}

#[test]
fn gradient_repeats_for_any_multiple_of_256_over_any_old_content() {
    // Rows of 14 bytes: 3 pixels and 2 bytes of padding; 2 rows and a 3-byte tail.
    let mut a = vec![0x11u8; 31];
    let mut b = vec![0xC3u8; 31];
    render_weird_gradient(&mut a, 14, 4, -7, 40);
    render_weird_gradient(&mut b, 14, 4, -7 + 2 * 256, 40 - 3 * 256);
    for y in 0..2 {
        for i in 0..12 {
            assert_eq!(a[y * 14 + i], b[y * 14 + i]);
        }
    }
}

#[test]
fn gradient_scrolls_by_one_pixel() {
    let mut a = vec![0u8; 16];
    let mut b = vec![0u8; 16];
    render_weird_gradient(&mut a, 16, 4, 10, 0);
    render_weird_gradient(&mut b, 16, 4, 11, 0);
    for x in 0..3 {
        assert_eq!(pixel(&b, 16, x, 0), pixel(&a, 16, x + 1, 0));
    }
}

fn connected(mut c: ControllerInput) -> ControllerInput {
    c.is_connected = true;
    c
}

#[test]
fn state_is_stored_at_the_start_of_permanent_storage() {
    let mut permanent = vec![9u8; 20];
    let mut transient = vec![0u8; 16];
    let mut memory = Memory { is_initialized: true, permanent_storage: &mut permanent, transient_storage: &mut transient };
    let s = State { tone_hz: -7, green_offset: i32::MIN, blue_offset: 0x01020304 };
    memory.set_game_state(s);
    assert_eq!(memory.get_game_state(), s);
    assert_eq!(&permanent[8..12], &[4, 3, 2, 1]);
    assert_eq!(&permanent[12..], &[9u8; 8]);
}

#[test]
fn first_frame_tunes_and_moves() {
    let mut permanent = vec![0u8; STATE_SIZE];
    let mut transient = vec![0u8; STATE_SIZE];
    let mut memory = Memory { is_initialized: false, permanent_storage: &mut permanent, transient_storage: &mut transient };
    let mut input = Input::default();
    let mut keyboard = connected(ControllerInput::default());
    keyboard.buttons[MOVE_RIGHT].ended_down = true;
    input.controllers[0] = keyboard;
    let mut pad = connected(ControllerInput::default());
    pad.is_analog = true;
    pad.stick_average_x = 3;
    pad.buttons[MOVE_LEFT].ended_down = true;
    pad.buttons[ACTION_DOWN].ended_down = true;
    input.controllers[1] = pad;
    let mut picture = vec![0u8; 8];
    update_and_render(
        &mut memory,
        input,
        OffscreenBuffer { memory: &mut picture, width: 2, height: 1, pitch: 8, bytes_per_pixel: 4 },
    );
    assert!(memory.is_initialized);
    assert_eq!(memory.get_game_state(), State { tone_hz: 256, green_offset: 1, blue_offset: 4 });
    assert_eq!(picture, vec![4, 1, 0, 0, 5, 1, 0, 0]);
}

#[test]
fn later_frames_keep_the_stored_tone() {
    let mut permanent = vec![0u8; STATE_SIZE];
    let mut transient = vec![0u8; STATE_SIZE];
    let mut memory = Memory { is_initialized: true, permanent_storage: &mut permanent, transient_storage: &mut transient };
    memory.set_game_state(State { tone_hz: 300, green_offset: 5, blue_offset: -2 });
    let mut input = Input::default();
    let mut keyboard = connected(ControllerInput::default());
    keyboard.buttons[MOVE_LEFT].ended_down = true;
    keyboard.buttons[MOVE_RIGHT].ended_down = true;
    input.controllers[0] = keyboard;
    let mut picture = vec![0u8; 4];
    update_and_render(
        &mut memory,
        input,
        OffscreenBuffer { memory: &mut picture, width: 1, height: 1, pitch: 4, bytes_per_pixel: 4 },
    );
    // Left wins over right.
    assert_eq!(memory.get_game_state(), State { tone_hz: 300, green_offset: 5, blue_offset: -3 });
    assert_eq!(picture, vec![253, 5, 0, 0]);
}

#[test]
fn idle_frame_keeps_the_offsets() {
    let mut permanent = vec![0u8; STATE_SIZE];
    let mut transient = vec![0u8; STATE_SIZE];
    let mut memory = Memory { is_initialized: true, permanent_storage: &mut permanent, transient_storage: &mut transient };
    memory.set_game_state(State { tone_hz: 256, green_offset: 17, blue_offset: 40 });
    let mut input = Input::default();
    let mut unplugged = ControllerInput::default();
    unplugged.buttons[ACTION_DOWN].ended_down = true;
    unplugged.buttons[MOVE_LEFT].ended_down = true;
    input.controllers[3] = unplugged;
    let mut picture = vec![0u8; 0];
    update_and_render(
        &mut memory,
        input,
        OffscreenBuffer { memory: &mut picture, width: 0, height: 0, pitch: 4, bytes_per_pixel: 4 },
    );
    assert_eq!(memory.get_game_state(), State { tone_hz: 256, green_offset: 17, blue_offset: 40 });
}

#[test]
fn controller_accessors_reach_their_buttons() {
    let mut c = ControllerInput::default();
    c.move_up().ended_down = true;
    c.back().half_transition_count = 3;
    assert!(c.buttons[MOVE_UP].ended_down);
    assert_eq!(c.buttons[BACK], ButtonState { half_transition_count: 3, ended_down: false });
    assert_eq!(c.move_down().half_transition_count, 0);
    assert!(!c.is_connected);
}

#[test]
fn defaults_are_idle() {
    let b = ButtonState::default();
    assert_eq!(b, ButtonState { half_transition_count: 0, ended_down: false });
    let input = Input::default();
    for c in input.controllers.iter() {
        assert!(!c.is_connected && !c.is_analog);
        assert_eq!(c.stick_average_x, 0);
        assert!(c.buttons.iter().all(|b| !b.ended_down && b.half_transition_count == 0));
    }
}

#[test]
fn sound_frames_repeat_their_sample_in_every_channel() {
    // Frames of 8 bytes (two channels), two whole frames, 4 bytes of tail.
    let mut samples = vec![0xEEu8; 20];
    let buffer = SoundOutputBuffer { samples: &mut samples, samples_per_second: 48000, bytes_per_sample: 8 };
    assert_eq!(buffer.frame_count(), 2);
    buffer.write_frames(&[[1, 2, 3, 4], [5, 6, 7, 8]]);
    assert_eq!(samples, vec![1, 2, 3, 4, 1, 2, 3, 4, 5, 6, 7, 8, 5, 6, 7, 8, 0xEE, 0xEE, 0xEE, 0xEE]);
}

#[test]
fn sound_frames_keep_bytes_past_the_last_whole_channel() {
    // Frames of 6 bytes: one channel slot, 2 bytes left over in each frame.
    let mut samples = vec![0u8; 12];
    let buffer = SoundOutputBuffer { samples: &mut samples, samples_per_second: 48000, bytes_per_sample: 6 };
    buffer.write_frames(&[[9, 9, 9, 9], [1, 1, 1, 1]]);
    assert_eq!(samples, vec![9, 9, 9, 9, 0, 0, 1, 1, 1, 1, 0, 0]);
}

#[test]
fn gradient_checks_find_the_inputs_that_would_fail() {
    assert!(!gradient_fits(16, 0, 4, 0, 0));
    assert!(gradient_fits(3, 4, 0, 0, 0));
    assert!(!gradient_fits(8, 4, 0, 0, 0));
    assert!(!gradient_fits(12, 12, 3, 0, 0));
    assert!(gradient_fits(12, 12, 13, 0, 0));
    assert!(gradient_fits(8, 8, 4, i32::MAX - 1, 0));
    assert!(!gradient_fits(8, 8, 4, i32::MAX, 0));
    assert!(!gradient_fits(16, 8, 4, 0, i32::MAX));
    assert!(coords_fit(0, i32::MAX));
    assert!(coords_fit(1, i32::MAX));
    assert!(!coords_fit(2, i32::MAX));
    assert!(coords_fit(usize::MAX, 0));
    assert!(!coords_fit(usize::MAX, 1));
    assert!(!coords_fit(usize::MAX, -1));
}

#[test]
fn frame_checks_find_the_inputs_that_would_fail() {
    let mut permanent = vec![0u8; STATE_SIZE];
    let mut transient = vec![0u8; STATE_SIZE];
    let mut picture = vec![0u8; 16];
    let mut memory = Memory { is_initialized: true, permanent_storage: &mut permanent, transient_storage: &mut transient };
    memory.set_game_state(State { tone_hz: 256, green_offset: i32::MAX, blue_offset: 0 });
    let buffer = OffscreenBuffer { memory: &mut picture, width: 2, height: 2, pitch: 8, bytes_per_pixel: 4 };
    let idle = Input::default();
    assert!(!frame_fits(&memory, &idle, &buffer));
    memory.set_game_state(State { tone_hz: 256, green_offset: i32::MAX - 1, blue_offset: 0 });
    assert!(frame_fits(&memory, &idle, &buffer));
    let mut pressing = Input::default();
    pressing.controllers[2] = connected(ControllerInput::default());
    pressing.controllers[2].buttons[ACTION_DOWN].ended_down = true;
    assert!(!frame_fits(&memory, &pressing, &buffer));
    memory.set_game_state(State { tone_hz: 256, green_offset: 0, blue_offset: i32::MIN });
    let mut left = Input::default();
    left.controllers[0] = connected(ControllerInput::default());
    left.controllers[0].buttons[MOVE_LEFT].ended_down = true;
    assert!(!frame_fits(&memory, &left, &buffer));
    let mut small = vec![0u8; 4];
    let short = Memory { is_initialized: true, permanent_storage: &mut small, transient_storage: &mut [] };
    assert!(!frame_fits(&short, &idle, &buffer));
}

#[test]
fn a_frame_applies_every_controller_in_turn() {
    let mut permanent = vec![0u8; STATE_SIZE];
    let mut transient = vec![0u8; STATE_SIZE];
    let mut memory = Memory { is_initialized: true, permanent_storage: &mut permanent, transient_storage: &mut transient };
    memory.set_game_state(State { tone_hz: 128, green_offset: 0, blue_offset: 0 });
    let mut input = Input::default();
    for (i, c) in input.controllers.iter_mut().enumerate() {
        *c = connected(ControllerInput::default());
        c.is_analog = i % 2 == 1;
        c.stick_average_x = -(i as i32);
        c.buttons[MOVE_RIGHT].ended_down = true;
        c.buttons[ACTION_DOWN].ended_down = true;
    }
    let mut picture = vec![0u8; 0];
    update_and_render(
        &mut memory,
        input,
        OffscreenBuffer { memory: &mut picture, width: 0, height: 0, pitch: 4, bytes_per_pixel: 4 },
    );
    // Digital controllers 0, 2 and 4 step right; analog controllers 1 and 3 move by -1 and -3.
    assert_eq!(memory.get_game_state(), State { tone_hz: 128, green_offset: 5, blue_offset: -1 });
}

#[test]
fn consecutive_frames_resume_from_the_stored_state() {
    let mut permanent = vec![0u8; 64];
    let mut transient = vec![0u8; STATE_SIZE];
    let mut memory = Memory { is_initialized: false, permanent_storage: &mut permanent, transient_storage: &mut transient };
    let mut input = Input::default();
    input.controllers[0] = connected(ControllerInput::default());
    input.controllers[0].buttons[MOVE_RIGHT].ended_down = true;
    input.controllers[0].buttons[ACTION_DOWN].ended_down = true;
    for _ in 0..3 {
        let mut picture = vec![0u8; 4];
        update_and_render(
            &mut memory,
            input,
            OffscreenBuffer { memory: &mut picture, width: 1, height: 1, pitch: 4, bytes_per_pixel: 4 },
        );
    }
    assert_eq!(memory.get_game_state(), State { tone_hz: 256, green_offset: 3, blue_offset: 3 });
    assert!(permanent[STATE_SIZE..].iter().all(|b| *b == 0));
}
