use lib::game::{
    ButtonState, ControllerInput, ACTION_DOWN, ACTION_LEFT, ACTION_RIGHT, ACTION_UP, BACK,
    LEFT_SHOULDER, MOVE_DOWN, MOVE_LEFT, MOVE_RIGHT, MOVE_UP, RIGHT_SHOULDER, START,
};
use lib::handle::Handle;
use lib::platform::{
    buffer_release, controller_count, dispatch_again, display_buffer_in_window, handle_event,
    keyboard_key, keyboard_key_event, next_keyboard_controller, process_gamepad,
    process_input_digital_button, process_keyboard_message, render_weird_gradient,
    install_global, install_keyboard, install_shared_buffer, resize_shared_buffer, resize_step, seat_capabilities, toplevel_close, back_buffer_pool_request,
    back_buffer_request, EventType, FrameControl, GamepadReadings, GlobalState, KeyCode,
    OffscreenBuffer, ResizeAction, ResizeReply, ResizeStage, SeatAction, StickReading,
};
use lib::sys::MemFd;
use lib::wl::{Argument, Global, Interface};

const ALL_KEYS: [(KeyCode, u32); 12] = [
    (KeyCode::ESC, 1),
    (KeyCode::Q, 16),
    (KeyCode::W, 17),
    (KeyCode::E, 18),
    (KeyCode::A, 30),
    (KeyCode::S, 31),
    (KeyCode::D, 32),
    (KeyCode::SPACE, 57),
    (KeyCode::UP, 103),
    (KeyCode::LEFT, 105),
    (KeyCode::RIGHT, 106),
    (KeyCode::DOWN, 108),
];

#[test]
fn key_codes_roundtrip() {
    for (k, code) in ALL_KEYS.iter() {
        assert_eq!(k.code(), *code);
        assert_eq!(KeyCode::from_code(*code), Some(*k));
    }
    assert_eq!(KeyCode::from_code(0), None);
    assert_eq!(KeyCode::from_code(104), None);
}

#[test]
fn keyboard_message_toggles_and_counts() {
    let mut b = ButtonState { half_transition_count: 0, ended_down: false };
    process_keyboard_message(&mut b, true);
    assert_eq!(b, ButtonState { half_transition_count: 1, ended_down: true });
    process_keyboard_message(&mut b, false);
    assert_eq!(b, ButtonState { half_transition_count: 2, ended_down: false });
}

#[test]
fn keys_drive_their_buttons() {
    let expected = [
        (17, MOVE_UP),
        (30, MOVE_LEFT),
        (31, MOVE_DOWN),
        (32, MOVE_RIGHT),
        (16, LEFT_SHOULDER),
        (18, RIGHT_SHOULDER),
        (103, ACTION_UP),
        (105, ACTION_LEFT),
        (108, ACTION_DOWN),
        (106, ACTION_RIGHT),
        (57, START),
        (1, BACK),
    ];
    for (key, button) in expected.iter() {
        let mut c = ControllerInput::default();
        keyboard_key(&mut c, *key, 1);
        assert!(c.is_connected);
        for b in 0..12 {
            if b == *button {
                assert_eq!(c.buttons[b], ButtonState { half_transition_count: 1, ended_down: true });
            } else {
                assert_eq!(c.buttons[b], ButtonState { half_transition_count: 0, ended_down: false });
            }
        }
        keyboard_key(&mut c, *key, 0);
        assert_eq!(c.buttons[*button], ButtonState { half_transition_count: 2, ended_down: false });
    }
}

#[test]
fn other_keys_only_connect_the_keyboard() {
    let mut c = ControllerInput::default();
    keyboard_key(&mut c, 200, 1);
    assert!(c.is_connected);
    assert!(c.buttons.iter().all(|b| !b.ended_down && b.half_transition_count == 0));
}

#[test]
fn digital_buttons_count_changes() {
    let up = ButtonState { half_transition_count: 5, ended_down: false };
    let down = ButtonState { half_transition_count: 5, ended_down: true };
    let mut b = ButtonState::default();
    process_input_digital_button(&up, 1, &mut b);
    assert_eq!(b, ButtonState { half_transition_count: 1, ended_down: true });
    let previous = b;
    process_input_digital_button(&previous, 1, &mut b);
    assert_eq!(b, ButtonState { half_transition_count: 0, ended_down: true });
    process_input_digital_button(&down, 2, &mut b);
    assert_eq!(b, ButtonState { half_transition_count: 1, ended_down: false });
    process_input_digital_button(&up, -1, &mut b);
    assert_eq!(b, ButtonState { half_transition_count: 0, ended_down: false });
}

fn readings() -> GamepadReadings {
    let rest = StickReading { average: 0, below_threshold: false, above_threshold: false };
    GamepadReadings {
        north: 1,
        south: 0,
        west: 1,
        east: 0,
        shoulder_left: 0,
        shoulder_right: 1,
        select: 1,
        hat_x: 0,
        hat_y: 0,
        stick_x: rest,
        stick_y: rest,
    }
}

#[test]
fn gamepad_buttons_follow_the_device() {
    let previous = ControllerInput::default();
    let mut c = ControllerInput::default();
    process_gamepad(&previous, &mut c, Some(readings()));
    assert!(c.is_connected && c.is_analog);
    assert!(c.buttons[ACTION_UP].ended_down);
    assert!(!c.buttons[ACTION_DOWN].ended_down);
    assert!(c.buttons[ACTION_LEFT].ended_down);
    assert!(!c.buttons[ACTION_RIGHT].ended_down);
    assert!(!c.buttons[LEFT_SHOULDER].ended_down);
    assert!(c.buttons[RIGHT_SHOULDER].ended_down);
    // Start reads the north face button.
    assert!(c.buttons[START].ended_down);
    assert!(c.buttons[BACK].ended_down);
    assert_eq!(c.buttons[ACTION_UP].half_transition_count, 1);
    assert_eq!(c.buttons[ACTION_DOWN].half_transition_count, 0);
    assert_eq!((c.stick_average_x, c.stick_average_y), (0, 0));
    assert!(!c.buttons[MOVE_LEFT].ended_down && !c.buttons[MOVE_UP].ended_down);
}

#[test]
fn gamepad_pad_overrides_the_stick() {
    let previous = ControllerInput::default();
    let mut c = ControllerInput::default();
    let mut r = readings();
    r.stick_x = StickReading { average: 1, below_threshold: false, above_threshold: false };
    r.stick_y = StickReading { average: -3, below_threshold: true, above_threshold: false };
    r.hat_x = -1;
    r.hat_y = -1;
    process_gamepad(&previous, &mut c, Some(r));
    assert_eq!(c.stick_average_x, -4);
    assert_eq!(c.stick_average_y, 4);
    assert!(c.buttons[MOVE_LEFT].ended_down);
    assert!(!c.buttons[MOVE_RIGHT].ended_down);
    assert!(!c.buttons[MOVE_UP].ended_down);
    assert!(c.buttons[MOVE_DOWN].ended_down);
    r.hat_x = 1;
    r.hat_y = 1;
    process_gamepad(&previous, &mut c, Some(r));
    assert_eq!((c.stick_average_x, c.stick_average_y), (4, -4));
    assert!(c.buttons[MOVE_RIGHT].ended_down && c.buttons[MOVE_UP].ended_down);
    r.hat_x = 0;
    r.hat_y = 0;
    process_gamepad(&previous, &mut c, Some(r));
    assert_eq!((c.stick_average_x, c.stick_average_y), (1, -3));
    assert!(c.buttons[MOVE_UP].ended_down && !c.buttons[MOVE_DOWN].ended_down);
}

#[test]
fn unreadable_gamepad_is_disconnected() {
    let previous = ControllerInput::default();
    let mut c = ControllerInput::default();
    process_gamepad(&previous, &mut c, Some(readings()));
    let before = c;
    process_gamepad(&previous, &mut c, None);
    assert!(!c.is_connected);
    assert_eq!(c.buttons, before.buttons);
    assert!(c.is_analog);
}

#[test]
fn keyboard_frame_keeps_held_buttons() {
    let mut previous = ControllerInput::default();
    previous.is_connected = true;
    previous.buttons[MOVE_LEFT] = ButtonState { half_transition_count: 3, ended_down: true };
    previous.buttons[START] = ButtonState { half_transition_count: 2, ended_down: false };
    let c = next_keyboard_controller(&previous);
    assert!(c.is_connected);
    assert_eq!(c.buttons[MOVE_LEFT], ButtonState { half_transition_count: 0, ended_down: true });
    assert_eq!(c.buttons[START], ButtonState { half_transition_count: 0, ended_down: false });
}

fn state_with_memory() -> GlobalState {
    let mut s = GlobalState::default();
    s.back_buffer.bytes_per_pixel = 4;
    s.shm = Handle::from_address(0x10);
    s.surface = Handle::from_address(0x20);
    s.buffer = Handle::from_address(0x30);
    s
}

#[test]
fn resize_sizes_the_buffer_and_releases_old_memory() {
    let mut s = state_with_memory();
    let job = resize_shared_buffer(&mut s, 1280, 720);
    assert!(job.release.is_none());
    assert_eq!(job.stage, ResizeStage::Allocate);
    assert_eq!(job.bitmap_size, 1280 * 4 * 720);
    assert_eq!((s.back_buffer.width, s.back_buffer.height, s.back_buffer.pitch), (1280, 720, 5120));
    s.back_buffer.memory = MemFd { fd: 7, addr: 0x1000, size: 3686400 };
    let job = resize_shared_buffer(&mut s, 10, 2);
    assert_eq!(job.release, Some(MemFd { fd: 7, addr: 0x1000, size: 3686400 }));
    assert_eq!(job.stage, ResizeStage::Release);
    assert_eq!(job.bitmap_size, 80);
    assert!(s.back_buffer.memory.is_null());
    assert_eq!(s.back_buffer.memory, MemFd::default());
}

#[test]
fn back_buffer_requests_describe_the_buffer() {
    let mut s = state_with_memory();
    let _ = resize_shared_buffer(&mut s, 3, 2);
    s.back_buffer.memory = MemFd { fd: 5, addr: 0x2000, size: 24 };
    let pool = back_buffer_pool_request(&s, 24);
    assert_eq!((pool.target, pool.opcode, pool.interface), (0x10, 0, Some(Interface::ShmPool)));
    assert!(matches!(pool.args[..], [Argument::NewId, Argument::Fd(5), Argument::Int(24)]));
    let buffer = back_buffer_request(&s, Handle::from_address(0x40));
    assert_eq!((buffer.target, buffer.opcode, buffer.interface), (0x40, 0, Some(Interface::Buffer)));
    assert!(matches!(
        buffer.args[..],
        [Argument::NewId, Argument::Int(0), Argument::Int(3), Argument::Int(2), Argument::Int(12), Argument::Uint(1)]
    ));
}

#[test]
fn displaying_hands_the_buffer_to_the_compositor() {
    let mut s = state_with_memory();
    let _ = resize_shared_buffer(&mut s, 640, 480);
    s.buffer_released = true;
    let requests = display_buffer_in_window(&mut s, 0, 0);
    assert!(!s.buffer_released);
    assert_eq!(requests.len(), 3);
    assert_eq!((requests[0].target, requests[0].opcode), (0x20, 9));
    assert!(matches!(requests[0].args[..], [Argument::Int(0), Argument::Int(0), Argument::Int(640), Argument::Int(480)]));
    assert_eq!(requests[1].opcode, 1);
    assert!(matches!(requests[1].args[..], [Argument::Object(0x30), Argument::Int(0), Argument::Int(0)]));
    assert_eq!(requests[2].opcode, 6);
    assert!(requests[2].args.is_empty());
    buffer_release(&mut s);
    assert!(s.buffer_released);
}

#[test]
fn close_and_key_events_are_recorded() {
    let mut s = GlobalState::default();
    s.running = true;
    keyboard_key_event(&mut s, 103, 1);
    assert_eq!(s.event, EventType::Keyboard(103, 1));
    assert!(s.running);
    toplevel_close(&mut s);
    assert!(!s.running);
    assert_eq!(s.event, EventType::Close);
}

#[test]
fn seat_keyboard_follows_capabilities() {
    let mut s = GlobalState::default();
    assert!(matches!(seat_capabilities(&mut s, 2), SeatAction::GetKeyboard));
    assert!(matches!(seat_capabilities(&mut s, 0), SeatAction::Nothing));
    s.keyboard = Handle::from_address(0x77);
    assert!(matches!(seat_capabilities(&mut s, 3), SeatAction::Nothing));
    assert_eq!(s.keyboard.address(), 0x77);
    match seat_capabilities(&mut s, 1) {
        SeatAction::ReleaseKeyboard(k) => assert_eq!(k.address(), 0x77),
        _ => panic!("the keyboard should be released"),
    }
    assert!(s.keyboard.is_null());
}

#[test]
fn dispatch_stops_on_error_or_when_quiet_and_free() {
    let mut s = GlobalState::default();
    s.running = true;
    s.buffer_released = false;
    assert!(dispatch_again(&mut s, 0));
    assert!(dispatch_again(&mut s, 3));
    s.buffer_released = true;
    assert!(!dispatch_again(&mut s, 0));
    assert!(dispatch_again(&mut s, 2));
    assert!(s.running);
    assert!(!dispatch_again(&mut s, -1));
    assert!(!s.running);
}

#[test]
fn controllers_are_counted_up_to_the_first_gap() {
    let h = |a: usize| Handle::<lib::libevdev::libevdev>::from_address(a);
    assert_eq!(controller_count(&[h(1), h(2), h(0), h(4)]), 2);
    assert_eq!(controller_count(&[h(0), h(2), h(3), h(4)]), 0);
    assert_eq!(controller_count(&[h(1), h(2), h(3), h(4)]), 4);
}

#[test]
fn arrow_keys_scroll_and_retune() {
    let (mut x, mut y, mut tone) = (-3, 0, 256u32);
    assert_eq!(handle_event(EventType::Keyboard(103, 1), &mut x, &mut y, &mut tone), FrameControl::Continue);
    assert_eq!((x, y, tone), (-3, 2, 1021));
    x = 5;
    assert_eq!(handle_event(EventType::Keyboard(108, 1), &mut x, &mut y, &mut tone), FrameControl::Continue);
    assert_eq!((x, y, tone), (5, 0, 507));
    handle_event(EventType::Keyboard(105, 1), &mut x, &mut y, &mut tone);
    assert_eq!(x, 3);
    handle_event(EventType::Keyboard(106, 0), &mut x, &mut y, &mut tone);
    assert_eq!(x, 5);
    x = 512;
    handle_event(EventType::Keyboard(108, 1), &mut x, &mut y, &mut tone);
    assert_eq!(tone, 512);
    x = -1;
    handle_event(EventType::Keyboard(108, 1), &mut x, &mut y, &mut tone);
    assert_eq!(tone, 1);
    assert_eq!((x, y), (-1, -4));
}

#[test]
fn other_events_are_reported_or_ignored() {
    let (mut x, mut y, mut tone) = (1, 2, 300u32);
    assert_eq!(handle_event(EventType::Close, &mut x, &mut y, &mut tone), FrameControl::Quit);
    assert_eq!(handle_event(EventType::Keyboard(1, 0), &mut x, &mut y, &mut tone), FrameControl::EscapeReleased);
    assert_eq!(handle_event(EventType::Keyboard(1, 1), &mut x, &mut y, &mut tone), FrameControl::EscapePressed);
    assert_eq!(handle_event(EventType::Keyboard(1, 2), &mut x, &mut y, &mut tone), FrameControl::Continue);
    assert_eq!(handle_event(EventType::Keyboard(17, 1), &mut x, &mut y, &mut tone), FrameControl::Continue);
    assert_eq!(handle_event(EventType::NoEvent, &mut x, &mut y, &mut tone), FrameControl::Continue);
    assert_eq!((x, y, tone), (1, 2, 300));
}

#[test]
fn back_buffer_gradient_uses_its_geometry() {
    let buffer = OffscreenBuffer { memory: MemFd::default(), width: 2, height: 1, pitch: 8, bytes_per_pixel: 4 };
    let mut memory = vec![0u8; 8];
    render_weird_gradient(3, 4, &buffer, &mut memory);
    assert_eq!(memory, vec![3, 4, 0, 0, 4, 4, 0, 0]);
}

#[test]
fn simple_front_end_starts_with_the_buffer_free() {
    let s = GlobalState::simple_front_end();
    assert!(s.buffer_released);
    assert!(!s.running);
    assert_eq!(s.event, EventType::NoEvent);
    assert!(s.compositor.is_null() && s.surface.is_null() && s.buffer.is_null() && s.keyboard.is_null());
    assert_eq!(s.back_buffer.memory, MemFd::default());
    assert_eq!((s.back_buffer.width, s.back_buffer.pitch, s.back_buffer.bytes_per_pixel), (0, 0, 0));
    let g = GlobalState::default();
    assert!(!g.buffer_released);
}

#[test]
fn installing_a_resized_buffer_keeps_its_geometry() {
    let mut s = state_with_memory();
    let _ = resize_shared_buffer(&mut s, 4, 3);
    let memory = MemFd { fd: 11, addr: 0x5000, size: 48 };
    install_shared_buffer(&mut s, memory, Handle::from_address(0x99));
    assert_eq!(s.back_buffer.memory, memory);
    assert_eq!(s.buffer.address(), 0x99);
    assert_eq!((s.back_buffer.width, s.back_buffer.height, s.back_buffer.pitch), (4, 3, 16));
    assert_eq!(s.surface.address(), 0x20);
}

#[test]
fn resize_runs_its_stages_in_order() {
    let mut s = state_with_memory();
    s.back_buffer.memory = MemFd { fd: 7, addr: 0x1000, size: 96 };
    let mut job = resize_shared_buffer(&mut s, 3, 2);
    match resize_step(&mut s, &mut job, ResizeReply::Nothing) {
        ResizeAction::ReleaseMemory(m) => assert_eq!(m, MemFd { fd: 7, addr: 0x1000, size: 96 }),
        _ => panic!("the old memory goes first"),
    }
    assert!(matches!(resize_step(&mut s, &mut job, ResizeReply::Nothing), ResizeAction::AllocateMemory(24)));
    let memory = MemFd { fd: 9, addr: 0x3000, size: 24 };
    match resize_step(&mut s, &mut job, ResizeReply::Memory(memory)) {
        ResizeAction::Send(r) => {
            assert_eq!((r.target, r.opcode, r.interface), (0x10, 0, Some(Interface::ShmPool)));
            assert!(matches!(r.args[..], [Argument::NewId, Argument::Fd(9), Argument::Int(24)]));
        }
        _ => panic!("the pool comes after the memory"),
    }
    assert_eq!(s.back_buffer.memory, memory);
    match resize_step(&mut s, &mut job, ResizeReply::Created(0x40)) {
        ResizeAction::Send(r) => {
            assert_eq!((r.target, r.opcode, r.interface), (0x40, 0, Some(Interface::Buffer)));
            assert!(matches!(
                r.args[..],
                [Argument::NewId, Argument::Int(0), Argument::Int(3), Argument::Int(2), Argument::Int(12), Argument::Uint(1)]
            ));
        }
        _ => panic!("the buffer comes after the pool"),
    }
    assert_eq!(s.buffer.address(), 0x30);
    match resize_step(&mut s, &mut job, ResizeReply::Created(0x50)) {
        ResizeAction::Send(r) => {
            assert_eq!((r.target, r.opcode), (0x40, 1));
            assert!(r.destroy && r.args.is_empty());
        }
        _ => panic!("the pool is destroyed after the buffer is made"),
    }
    assert_eq!(s.buffer.address(), 0x50);
    match resize_step(&mut s, &mut job, ResizeReply::Created(0)) {
        ResizeAction::ListenToBuffer(b) => assert_eq!(b.address(), 0x50),
        _ => panic!("the new buffer is listened to last"),
    }
    assert!(matches!(resize_step(&mut s, &mut job, ResizeReply::Nothing), ResizeAction::Finished));
    assert_eq!(job.stage, ResizeStage::Done);
    assert_eq!((s.back_buffer.width, s.back_buffer.height, s.back_buffer.pitch), (3, 2, 12));
    assert_eq!(s.back_buffer.memory, memory);
}

#[test]
fn resize_without_old_memory_starts_by_allocating() {
    let mut s = state_with_memory();
    let mut job = resize_shared_buffer(&mut s, 2, 2);
    assert!(matches!(resize_step(&mut s, &mut job, ResizeReply::Nothing), ResizeAction::AllocateMemory(16)));
    assert_eq!(job.stage, ResizeStage::CreatePool);
}

#[test]
fn bound_globals_go_to_their_own_fields() {
    let mut s = GlobalState::default();
    assert!(!install_global(&mut s, Global::Compositor, 0x11));
    assert!(!install_global(&mut s, Global::Shm, 0x12));
    assert!(install_global(&mut s, Global::WmBase, 0x13));
    assert!(install_global(&mut s, Global::Seat, 0x14));
    assert_eq!(s.compositor.address(), 0x11);
    assert_eq!(s.shm.address(), 0x12);
    assert_eq!(s.window_manager.address(), 0x13);
    assert_eq!(s.seat.address(), 0x14);
    assert!(s.surface.is_null() && s.buffer.is_null() && s.keyboard.is_null());
    assert!(s.window.is_null() && s.toplevel.is_null());
    assert!(!s.running && !s.buffer_released);
    assert!(!install_global(&mut s, Global::Shm, 0x22));
    assert_eq!((s.compositor.address(), s.shm.address()), (0x11, 0x22));
}

#[test]
fn the_keyboard_is_held_exactly_while_the_seat_has_one() {
    let mut s = GlobalState::default();
    s.seat = Handle::from_address(0x14);
    assert!(matches!(seat_capabilities(&mut s, 2), SeatAction::GetKeyboard));
    install_keyboard(&mut s, Handle::from_address(0x66));
    assert_eq!(s.keyboard.address(), 0x66);
    assert_eq!(s.seat.address(), 0x14);
    assert!(matches!(seat_capabilities(&mut s, 2), SeatAction::Nothing));
    assert_eq!(s.keyboard.address(), 0x66);
    match seat_capabilities(&mut s, 0) {
        SeatAction::ReleaseKeyboard(k) => assert_eq!(k.address(), 0x66),
        _ => panic!("the keyboard should be released"),
    }
    assert!(s.keyboard.is_null());
    assert!(matches!(seat_capabilities(&mut s, 0), SeatAction::Nothing));
}
