use lib::debug_platform::{free_file_memory, read_entire_file, write_entire_file};
use lib::handle::Handle;
use lib::libevdev::{
    controller_state_result, read_needs_sync, scan_step, ControllerScan, DeviceProbe, ScanStep,
};
use lib::pw::{bytes_per_sample, playback_buffer_size, playback_chunk};
use lib::sys::{gigabytes, kilobytes, megabytes, terabytes, MemFd};
use lib::wl::{
    buffer_destroy, bytes_equal, compositor_create_surface, display_get_registry, global_interface,
    keyboard_release, read_after_blocking_poll, read_after_poll, registry_bind, registry_global,
    seat_get_keyboard, shm_create_pool, shm_pool_create_buffer, shm_pool_destroy, surface_attach,
    surface_commit, surface_damage_buffer, Argument, Global, Interface, SHMFormat,
};
use lib::xdg::{surface_ack_configure, surface_get_toplevel, toplevel_set_title, wm_get_xdg_surface, wm_pong};

#[test]
fn core_requests_carry_their_opcodes_and_arguments() {
    let r = display_get_registry(Handle::from_address(1));
    assert_eq!((r.target, r.opcode, r.interface, r.version, r.destroy), (1, 1, Some(Interface::Registry), None, false));
    assert!(r.args.is_empty());
    let r = compositor_create_surface(Handle::from_address(2));
    assert_eq!((r.opcode, r.interface), (0, Some(Interface::Surface)));
    let r = shm_create_pool(Handle::from_address(3), 9, 4096);
    assert!(matches!(r.args[..], [Argument::NewId, Argument::Fd(9), Argument::Int(4096)]));
    let r = shm_pool_destroy(Handle::from_address(4));
    assert_eq!((r.opcode, r.destroy, r.interface), (1, true, None));
    let r = buffer_destroy(Handle::from_address(4));
    assert_eq!((r.opcode, r.destroy), (0, true));
    let r = surface_attach(Handle::from_address(5), Handle::from_address(6), -1, 2);
    assert!(matches!(r.args[..], [Argument::Object(6), Argument::Int(-1), Argument::Int(2)]));
    assert_eq!(surface_commit(Handle::from_address(5)).opcode, 6);
    let r = surface_damage_buffer(Handle::from_address(5), 1, 2, 3, 4);
    assert_eq!(r.opcode, 9);
    assert!(matches!(r.args[..], [Argument::Int(1), Argument::Int(2), Argument::Int(3), Argument::Int(4)]));
    let r = shm_pool_create_buffer(Handle::from_address(7), 0, 3, 2, 12, SHMFormat::XRGB8888.code());
    assert!(matches!(
        r.args[..],
        [Argument::NewId, Argument::Int(0), Argument::Int(3), Argument::Int(2), Argument::Int(12), Argument::Uint(1)]
    ));
    let r = registry_bind(Handle::from_address(8), 42, Interface::Seat, 7);
    assert_eq!((r.opcode, r.interface, r.version), (0, Some(Interface::Seat), Some(7)));
    assert!(matches!(r.args[..], [Argument::Uint(42), Argument::InterfaceName(Interface::Seat), Argument::Uint(7)]));
    let r = seat_get_keyboard(Handle::from_address(9));
    assert_eq!((r.opcode, r.interface), (1, Some(Interface::Keyboard)));
    let r = keyboard_release(Handle::from_address(10));
    assert_eq!((r.opcode, r.destroy), (0, true));
}

#[test]
fn window_requests_carry_their_opcodes_and_arguments() {
    let r = wm_get_xdg_surface(Handle::from_address(1), Handle::from_address(2));
    assert_eq!((r.opcode, r.interface), (2, Some(Interface::XdgSurface)));
    assert!(matches!(r.args[..], [Argument::NewId, Argument::Object(2)]));
    let r = surface_get_toplevel(Handle::from_address(3));
    assert_eq!((r.opcode, r.interface), (1, Some(Interface::XdgToplevel)));
    let r = wm_pong(Handle::from_address(1), 77);
    assert_eq!(r.opcode, 3);
    assert!(matches!(r.args[..], [Argument::Uint(77)]));
    let r = surface_ack_configure(Handle::from_address(3), 78);
    assert_eq!(r.opcode, 4);
    assert!(matches!(r.args[..], [Argument::Uint(78)]));
}

#[test]
fn window_title_is_sent_with_its_terminator() {
    let r = toplevel_set_title(Handle::from_address(4), "Handmade Hero\0");
    assert_eq!((r.target, r.opcode), (4, 2));
    match &r.args[0] {
        Argument::Str(bytes) => assert_eq!(bytes.as_slice(), b"Handmade Hero\0"),
        other => panic!("unexpected argument {:?}", other),
    }
    let r = toplevel_set_title(Handle::from_address(4), "");
    assert!(matches!(r.args[..], [Argument::NullStr]));
}

#[test]
fn registry_announcements_are_recognised() {
    let names: [&[u8]; 4] = [b"wl_compositor", b"wl_shm", b"xdg_wm_base", b"wl_seat"];
    let which = |n: &[u8]| registry_global(n, names[0], names[1], names[2], names[3]);
    assert_eq!(which(b"wl_compositor"), Some(Global::Compositor));
    assert_eq!(which(b"wl_shm"), Some(Global::Shm));
    assert_eq!(which(b"xdg_wm_base"), Some(Global::WmBase));
    assert_eq!(which(b"wl_seat"), Some(Global::Seat));
    assert_eq!(which(b"wl_output"), None);
    assert_eq!(which(b"wl_sh"), None);
    assert_eq!(global_interface(Global::WmBase), Interface::WmBase);
    assert!(bytes_equal(b"", b""));
    assert!(!bytes_equal(b"ab", b"ac"));
}

#[test]
fn polling_decides_between_reading_and_cancelling() {
    assert!(read_after_poll(1, 1));
    assert!(!read_after_poll(-1, 1));
    assert!(!read_after_poll(0, 0));
    assert!(read_after_blocking_poll(1, 1));
    assert!(!read_after_blocking_poll(-1, 0));
}

#[test]
fn device_scan_keeps_gamepads_and_stops_at_the_last_file() {
    let mut scan = ControllerScan { controller_index: 0, event_index: 0 };
    let pad = DeviceProbe::Opened { has_shoulder_left: 1, has_start: 1, has_left_joystick: 1 };
    let keyboard = DeviceProbe::Opened { has_shoulder_left: 0, has_start: 1, has_left_joystick: 1 };
    assert_eq!(scan_step(&mut scan, &keyboard), ScanStep::Close);
    assert_eq!((scan.controller_index, scan.event_index), (0, 1));
    assert_eq!(scan_step(&mut scan, &pad), ScanStep::Keep);
    assert_eq!((scan.controller_index, scan.event_index), (1, 2));
    assert_eq!(scan_step(&mut scan, &DeviceProbe::Failed { errno: Some(13) }), ScanStep::Skip);
    assert_eq!((scan.controller_index, scan.event_index), (1, 3));
    assert_eq!(scan_step(&mut scan, &DeviceProbe::Failed { errno: Some(2) }), ScanStep::Stop);
    assert_eq!((scan.controller_index, scan.event_index), (1, 3));
}

#[test]
fn device_reads_resync_and_report() {
    assert!(read_needs_sync(1));
    assert!(!read_needs_sync(0));
    assert_eq!(controller_state_result(0), Ok(()));
    assert_eq!(controller_state_result(-11), Ok(()));
    assert_eq!(controller_state_result(-19), Err(-19));
}

#[test]
fn playback_blocks_are_sized_and_described() {
    assert_eq!(bytes_per_sample(2), 8);
    assert_eq!(playback_buffer_size(0, 8, 4096), 8);
    assert_eq!(playback_buffer_size(-3, 8, 4096), 8);
    assert_eq!(playback_buffer_size(256, 8, 4096), 2048);
    assert_eq!(playback_buffer_size(1024, 8, 4096), 4096);
    assert_eq!(playback_buffer_size((1i64 << 32) + 2, 8, 4096), 16);
    let c = playback_chunk(8, 2048);
    assert_eq!((c.offset, c.stride, c.size), (0, 8, 2048));
}

#[test]
fn memory_sizes_and_files() {
    assert_eq!(kilobytes(3), 3072);
    assert_eq!(megabytes(64), 64 * 1024 * 1024);
    assert_eq!(gigabytes(4), 4u64 << 30);
    assert_eq!(terabytes(2), 2u64 << 40);
    assert!(MemFd::default().is_null());
    assert!(!MemFd { fd: 3, addr: 0x1000, size: 16 }.is_null());
    let h = Handle::<lib::wl::wl_surface>::null();
    assert!(h.is_null());
    assert_eq!(Handle::<lib::wl::wl_surface>::from_address(12).address(), 12);
}

#[test]
fn release_builds_have_no_debug_files() {
    assert_eq!(read_entire_file("src/game.rs\0"), None);
    assert!(!write_entire_file("test.out\0", 0x1000, 16));
    free_file_memory(0x1000, 16);
}
