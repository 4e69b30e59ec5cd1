//! Gamepads read through the event device library: the device type, the
//! event codes the platform layer reads, and the decisions of the device scan
//! and of event reading.
use vstd::prelude::*;

verus! {

/// An open input device.
#[allow(non_camel_case_types)]
pub struct libevdev {
    _opaque: (),
}

/// Most gamepads the platform layer opens.
pub const MAX_CONTROLLERS_COUNT: usize = 4;

/// Event types.
pub const EV_KEY: u32 = 0x01;
pub const EV_ABS: u32 = 0x03;

/// Absolute axes.
pub const ABS_X: u32 = 0x00;
pub const ABS_Y: u32 = 0x01;
pub const ABS_HAT0X: u32 = 0x10;
pub const ABS_HAT0Y: u32 = 0x11;

/// Buttons.
pub const BTN_SOUTH: u32 = 0x130;
pub const BTN_EAST: u32 = 0x131;
pub const BTN_NORTH: u32 = 0x133;
pub const BTN_WEST: u32 = 0x134;
pub const BTN_TL: u32 = 0x136;
pub const BTN_TR: u32 = 0x137;
pub const BTN_SELECT: u32 = 0x13a;
pub const BTN_START: u32 = 0x13b;

/// Read flags: read events that resynchronise the device, or ordinary events.
pub const READ_FLAG_SYNC: u32 = 1;
pub const READ_FLAG_NORMAL: u32 = 2;

/// Read results: an event was read, the device must be resynchronised, or
/// there is nothing to read.
pub const READ_STATUS_SUCCESS: i32 = 0;
pub const READ_STATUS_SYNC: i32 = 1;
pub const READ_STATUS_EAGAIN: i32 = -11;

/// The error number that says a device file does not exist.
pub const ENOENT: i32 = 2;

/// Whether the last read asks for the device to be resynchronised, so that
/// the next read must use the sync flag.
pub fn read_needs_sync(rc: i32) -> (r: bool)
    ensures
        r == (rc == READ_STATUS_SYNC),
{
    rc == READ_STATUS_SYNC
}

/// The outcome of reading a device's pending events, by the last read's
/// result: fine when an event was read or nothing was left, else the error.
pub fn controller_state_result(rc: i32) -> (r: Result<(), i32>)
    ensures
        r == if rc == READ_STATUS_EAGAIN || rc == READ_STATUS_SUCCESS { Ok(()) } else { Err(rc) },
{
    if rc == READ_STATUS_EAGAIN || rc == READ_STATUS_SUCCESS {
        Ok(())
    } else {
        Err(rc)
    }
}

/// How far the scan for gamepads has come: gamepads kept so far, and the
/// number of the next device file to try.
#[derive(Clone, Copy, Debug)]
pub struct ControllerScan {
    pub controller_index: usize,
    pub event_index: u32,
}

/// What opening a device file gave: a device, with the answers to whether it
/// has a left shoulder button, a start button and a left stick (1 for yes);
/// or a failure, with the error number when there is one.
pub enum DeviceProbe {
    Opened { has_shoulder_left: i32, has_start: i32, has_left_joystick: i32 },
    Failed { errno: Option<i32> },
}

/// What to do after a probe.
#[derive(PartialEq, Eq, Structural, Clone, Copy, Debug)]
pub enum ScanStep {
    /// Keep the device as the next gamepad and go on.
    Keep,
    /// Close the device, which is no gamepad, and go on.
    Close,
    /// Go on with the next file.
    Skip,
    /// There are no more device files: stop.
    Stop,
}

/// The scan has not yet found all the gamepads it keeps.
pub open spec fn scan_open(scan: ControllerScan) -> bool {
    scan.controller_index < MAX_CONTROLLERS_COUNT
}

/// The step after a probe: keep a device with all three controls, close one
/// without; stop at a missing file; go on past any other failure. Every step
/// but a stop moves to the next file.
pub fn scan_step(scan: &mut ControllerScan, probe: &DeviceProbe) -> (step: ScanStep)
    requires
        scan_open(*old(scan)),
        old(scan).event_index < u32::MAX,
    ensures
        step == match *probe {
            DeviceProbe::Opened { has_shoulder_left, has_start, has_left_joystick } =>
                if has_shoulder_left == 1 && has_start == 1 && has_left_joystick == 1 { ScanStep::Keep } else { ScanStep::Close },
            DeviceProbe::Failed { errno } =>
                if errno == Some(ENOENT) { ScanStep::Stop } else { ScanStep::Skip },
        },
        final(scan).controller_index == old(scan).controller_index + (if step == ScanStep::Keep { 1int } else { 0 }),
        final(scan).event_index == old(scan).event_index + (if step == ScanStep::Stop { 0int } else { 1 }),
{
    let step = match probe {
        DeviceProbe::Opened { has_shoulder_left, has_start, has_left_joystick } => {
            if *has_shoulder_left == 1 && *has_start == 1 && *has_left_joystick == 1 {
                ScanStep::Keep
            } else {
                ScanStep::Close
            }
        },
        DeviceProbe::Failed { errno } => {
            match errno {
                Some(e) => if *e == ENOENT { ScanStep::Stop } else { ScanStep::Skip },
                None => ScanStep::Skip,
            }
        },
    };
    match step {
        ScanStep::Keep => {
            scan.controller_index = scan.controller_index + 1;
            scan.event_index = scan.event_index + 1;
        },
        ScanStep::Stop => {},
        _ => {
            scan.event_index = scan.event_index + 1;
        },
    }
    step
}

} // verus!
