//! The platform layer's own logic, apart from the calls it makes: the
//! window's back buffer, keyboard and gamepad input, and the decisions taken on
//! compositor events. The caller performs the requests and system calls that
//! these functions ask for and hands back what they return.
use vstd::prelude::*;

use crate::game::{
    ButtonState, ControllerInput, ACTION_DOWN, ACTION_LEFT, ACTION_RIGHT, ACTION_UP, BACK,
    BUTTON_COUNT, LEFT_SHOULDER, MOVE_DOWN, MOVE_LEFT, MOVE_RIGHT, MOVE_UP, RIGHT_SHOULDER, START,
};
use crate::game::render::{gradient_drawable, gradient_result};
use crate::handle::Handle;
use crate::libevdev::{libevdev, MAX_CONTROLLERS_COUNT};
use crate::sys::MemFd;
use crate::wl::{
    shm_create_pool, shm_pool_create_buffer, shm_pool_destroy, surface_attach, surface_commit, surface_damage_buffer,
    is_request, shm_format_code, wl_buffer, wl_compositor, wl_keyboard, wl_seat, wl_shm, wl_shm_pool,
    wl_surface, Argument, Global, Interface, Request, SHMFormat, WL_SEAT_CAPABILITY_KEYBOARD,
    WL_SHM_CREATE_POOL, WL_SHM_POOL_CREATE_BUFFER, WL_SHM_POOL_DESTROY, WL_SURFACE_ATTACH, WL_SURFACE_COMMIT,
    WL_SURFACE_DAMAGE_BUFFER,
};
use crate::xdg::{xdg_surface, xdg_toplevel, xdg_wm_base};

verus! {

/// The keys the platform layer reacts to.
#[derive(PartialEq, Eq, Structural, Clone, Copy, Debug)]
pub enum KeyCode {
    ESC,
    Q,
    W,
    E,
    A,
    S,
    D,
    SPACE,
    UP,
    LEFT,
    RIGHT,
    DOWN,
}

/// The evdev scan code of a key.
pub open spec fn key_code_value(k: KeyCode) -> u32 {
    match k {
        KeyCode::ESC => 1,
        KeyCode::Q => 16,
        KeyCode::W => 17,
        KeyCode::E => 18,
        KeyCode::A => 30,
        KeyCode::S => 31,
        KeyCode::D => 32,
        KeyCode::SPACE => 57,
        KeyCode::UP => 103,
        KeyCode::LEFT => 105,
        KeyCode::RIGHT => 106,
        KeyCode::DOWN => 108,
    }
}

/// The key whose scan code is `code`, if it is one the platform layer reacts to.
pub open spec fn key_of_code(code: u32) -> Option<KeyCode> {
    if exists|k: KeyCode| key_code_value(k) == code {
        Some(choose|k: KeyCode| key_code_value(k) == code)
    } else {
        None
    }
}

/// No two keys share a scan code, so the key with a key's code is that key.
proof fn lemma_key_of_own_code(k: KeyCode)
    ensures
        key_of_code(key_code_value(k)) == Some(k),
{
    let c = choose|c: KeyCode| key_code_value(c) == key_code_value(k);
    assert(key_code_value(c) == key_code_value(k));
    assert(c == k);
}

impl KeyCode {
    /// The key's scan code.
    pub fn code(&self) -> (c: u32)
        ensures
            c == key_code_value(*self),
    {
        match self {
            KeyCode::ESC => 1,
            KeyCode::Q => 16,
            KeyCode::W => 17,
            KeyCode::E => 18,
            KeyCode::A => 30,
            KeyCode::S => 31,
            KeyCode::D => 32,
            KeyCode::SPACE => 57,
            KeyCode::UP => 103,
            KeyCode::LEFT => 105,
            KeyCode::RIGHT => 106,
            KeyCode::DOWN => 108,
        }
    }

    /// The key with scan code `code`, if any.
    pub fn from_code(code: u32) -> (k: Option<KeyCode>)
        ensures
            k == key_of_code(code),
    {
        let k = if code == 1 {
            Some(KeyCode::ESC)
        } else if code == 16 {
            Some(KeyCode::Q)
        } else if code == 17 {
            Some(KeyCode::W)
        } else if code == 18 {
            Some(KeyCode::E)
        } else if code == 30 {
            Some(KeyCode::A)
        } else if code == 31 {
            Some(KeyCode::S)
        } else if code == 32 {
            Some(KeyCode::D)
        } else if code == 57 {
            Some(KeyCode::SPACE)
        } else if code == 103 {
            Some(KeyCode::UP)
        } else if code == 105 {
            Some(KeyCode::LEFT)
        } else if code == 106 {
            Some(KeyCode::RIGHT)
        } else if code == 108 {
            Some(KeyCode::DOWN)
        } else {
            None
        };
        proof {
            if let Some(key) = k {
                lemma_key_of_own_code(key);
            }
        }
        k
    }
}

/// The controller button that a key drives on the keyboard controller.
pub open spec fn key_button(k: KeyCode) -> int {
    match k {
        KeyCode::W => MOVE_UP as int,
        KeyCode::A => MOVE_LEFT as int,
        KeyCode::S => MOVE_DOWN as int,
        KeyCode::D => MOVE_RIGHT as int,
        KeyCode::Q => LEFT_SHOULDER as int,
        KeyCode::E => RIGHT_SHOULDER as int,
        KeyCode::UP => ACTION_UP as int,
        KeyCode::LEFT => ACTION_LEFT as int,
        KeyCode::DOWN => ACTION_DOWN as int,
        KeyCode::RIGHT => ACTION_RIGHT as int,
        KeyCode::SPACE => START as int,
        KeyCode::ESC => BACK as int,
    }
}

impl KeyCode {
    /// The controller button this key drives on the keyboard controller.
    pub fn button(&self) -> (b: usize)
        ensures
            b == key_button(*self),
    {
        match self {
            KeyCode::W => MOVE_UP,
            KeyCode::A => MOVE_LEFT,
            KeyCode::S => MOVE_DOWN,
            KeyCode::D => MOVE_RIGHT,
            KeyCode::Q => LEFT_SHOULDER,
            KeyCode::E => RIGHT_SHOULDER,
            KeyCode::UP => ACTION_UP,
            KeyCode::LEFT => ACTION_LEFT,
            KeyCode::DOWN => ACTION_DOWN,
            KeyCode::RIGHT => ACTION_RIGHT,
            KeyCode::SPACE => START,
            KeyCode::ESC => BACK,
        }
    }
}

/// A button after a keyboard message: it changed once more and now is down
/// or up as the key is.
pub open spec fn after_keyboard_message(b: ButtonState, is_down: bool) -> ButtonState {
    ButtonState { half_transition_count: (b.half_transition_count + 1) as i32, ended_down: is_down }
}

/// Records a key going down or up on a button. A key message always changes
/// the button's state.
pub fn process_keyboard_message(new_state: &mut ButtonState, is_down: bool)
    requires
        old(new_state).ended_down != is_down,
        old(new_state).half_transition_count < i32::MAX,
    ensures
        *final(new_state) == after_keyboard_message(*old(new_state), is_down),
{
    new_state.ended_down = is_down;
    new_state.half_transition_count = new_state.half_transition_count + 1;
}

/// A button read from a device: down when the value is 1; it changed once
/// when that differs from how it was, else not at all.
pub open spec fn digital_button(previous: ButtonState, value: i32) -> ButtonState {
    ButtonState {
        half_transition_count: if previous.ended_down != (value == 1) { 1 } else { 0 },
        ended_down: value == 1,
    }
}

/// Sets a button from a device value, against its state in the last frame.
pub fn process_input_digital_button(old_state: &ButtonState, value: i32, new_state: &mut ButtonState)
    ensures
        *final(new_state) == digital_button(*old_state, value),
{
    new_state.ended_down = value == 1;
    new_state.half_transition_count = if old_state.ended_down != new_state.ended_down { 1 } else { 0 };
}

/// Whether a key event can be recorded on the keyboard controller: a key the
/// platform layer reacts to must change its button, whose count must not overflow.
pub open spec fn key_event_recordable(c: ControllerInput, key: u32, key_state: u32) -> bool {
    key_of_code(key) matches Some(k) ==> {
        &&& c.buttons@[key_button(k)].ended_down != (key_state == 1)
        &&& c.buttons@[key_button(k)].half_transition_count < i32::MAX
    }
}

/// Records a key event on the keyboard controller: the controller is
/// connected, and the key's button (if the key is one the platform layer
/// reacts to) takes the key's new state.
pub fn keyboard_key(controller: &mut ControllerInput, key: u32, key_state: u32)
    requires
        key_event_recordable(*old(controller), key, key_state),
    ensures
        final(controller).is_connected,
        final(controller).is_analog == old(controller).is_analog,
        final(controller).stick_average_x == old(controller).stick_average_x,
        final(controller).stick_average_y == old(controller).stick_average_y,
        final(controller).buttons@ == match key_of_code(key) {
            Some(k) => old(controller).buttons@.update(
                key_button(k),
                after_keyboard_message(old(controller).buttons@[key_button(k)], key_state == 1),
            ),
            None => old(controller).buttons@,
        },
{
    controller.is_connected = true;
    let is_down = key_state == 1;
    match KeyCode::from_code(key) {
        Some(KeyCode::W) => process_keyboard_message(controller.move_up(), is_down),
        Some(KeyCode::A) => process_keyboard_message(controller.move_left(), is_down),
        Some(KeyCode::S) => process_keyboard_message(controller.move_down(), is_down),
        Some(KeyCode::D) => process_keyboard_message(controller.move_right(), is_down),
        Some(KeyCode::Q) => process_keyboard_message(controller.left_shoulder(), is_down),
        Some(KeyCode::E) => process_keyboard_message(controller.right_shoulder(), is_down),
        Some(KeyCode::UP) => process_keyboard_message(controller.action_up(), is_down),
        Some(KeyCode::LEFT) => process_keyboard_message(controller.action_left(), is_down),
        Some(KeyCode::DOWN) => process_keyboard_message(controller.action_down(), is_down),
        Some(KeyCode::RIGHT) => process_keyboard_message(controller.action_right(), is_down),
        Some(KeyCode::SPACE) => process_keyboard_message(controller.start(), is_down),
        Some(KeyCode::ESC) => process_keyboard_message(controller.back(), is_down),
        None => {},
    }
}

/// The compositor event that the simpler front end acts on in a frame.
#[derive(PartialEq, Eq, Structural, Clone, Copy, Debug)]
pub enum EventType {
    NoEvent,
    Close,
    Keyboard(u32, u32),
}

/// The window's back buffer: a shared memory file holding `height` rows of
/// `pitch` bytes, pixels of `bytes_per_pixel` bytes.
#[derive(Clone, Copy, Debug)]
pub struct OffscreenBuffer {
    pub memory: MemFd,
    pub width: i32,
    pub height: i32,
    pub pitch: i32,
    pub bytes_per_pixel: i32,
}

impl Default for OffscreenBuffer {
    fn default() -> (r: OffscreenBuffer)
        ensures
            r.memory.is_empty_mapping(),
            r.width == 0,
            r.height == 0,
            r.pitch == 0,
            r.bytes_per_pixel == 0,
    {
        OffscreenBuffer { memory: MemFd::default(), width: 0, height: 0, pitch: 0, bytes_per_pixel: 0 }
    }
}

/// What the platform layer knows of the window: the compositor objects it
/// holds, whether it keeps running, whether the compositor gave the back
/// buffer back, the pending event, and the back buffer.
pub struct GlobalState {
    pub compositor: Handle<wl_compositor>,
    pub shm: Handle<wl_shm>,
    pub surface: Handle<wl_surface>,
    pub buffer: Handle<wl_buffer>,
    pub seat: Handle<wl_seat>,
    pub keyboard: Handle<wl_keyboard>,
    pub window_manager: Handle<xdg_wm_base>,
    pub window: Handle<xdg_surface>,
    pub toplevel: Handle<xdg_toplevel>,
    pub running: bool,
    pub buffer_released: bool,
    pub event: EventType,
    pub back_buffer: OffscreenBuffer,
}

/// The full game's starting state: no compositor objects, not yet running,
/// the back buffer not yet free, no pending event, and an empty back buffer.
impl Default for GlobalState {
    fn default() -> (r: GlobalState)
        ensures
            r.compositor.addr == 0,
            r.shm.addr == 0,
            r.surface.addr == 0,
            r.buffer.addr == 0,
            r.seat.addr == 0,
            r.keyboard.addr == 0,
            r.window_manager.addr == 0,
            r.window.addr == 0,
            r.toplevel.addr == 0,
            !r.running,
            !r.buffer_released,
            r.event == EventType::NoEvent,
            r.back_buffer.memory.is_empty_mapping(),
            r.back_buffer.width == 0,
            r.back_buffer.height == 0,
            r.back_buffer.pitch == 0,
            r.back_buffer.bytes_per_pixel == 0,
    {
        GlobalState {
            compositor: Handle::null(),
            shm: Handle::null(),
            surface: Handle::null(),
            buffer: Handle::null(),
            seat: Handle::null(),
            keyboard: Handle::null(),
            window_manager: Handle::null(),
            window: Handle::null(),
            toplevel: Handle::null(),
            running: false,
            buffer_released: false,
            event: EventType::NoEvent,
            back_buffer: OffscreenBuffer::default(),
        }
    }
}

impl GlobalState {
    /// The simpler front end's starting state: no compositor objects, the back
    /// buffer free to draw, no pending event, and an empty back buffer.
    pub fn simple_front_end() -> (r: GlobalState)
        ensures
            r.compositor.addr == 0,
            r.shm.addr == 0,
            r.surface.addr == 0,
            r.buffer.addr == 0,
            r.seat.addr == 0,
            r.keyboard.addr == 0,
            r.window_manager.addr == 0,
            r.window.addr == 0,
            r.toplevel.addr == 0,
            !r.running,
            r.buffer_released,
            r.event == EventType::NoEvent,
            r.back_buffer.memory.is_empty_mapping(),
            r.back_buffer.width == 0,
            r.back_buffer.height == 0,
            r.back_buffer.pitch == 0,
            r.back_buffer.bytes_per_pixel == 0,
    {
        let mut r = GlobalState::default();
        r.buffer_released = true;
        r
    }
}

/// Whether two states hold the same compositor objects.
pub open spec fn same_objects(a: GlobalState, b: GlobalState) -> bool {
    &&& a.compositor == b.compositor
    &&& a.shm == b.shm
    &&& a.surface == b.surface
    &&& a.buffer == b.buffer
    &&& a.seat == b.seat
    &&& a.keyboard == b.keyboard
    &&& a.window_manager == b.window_manager
    &&& a.window == b.window
    &&& a.toplevel == b.toplevel
}

/// Where a resize of the back buffer stands: what it does next.
#[derive(PartialEq, Eq, Structural, Clone, Copy, Debug)]
pub enum ResizeStage {
    /// Release the old shared memory.
    Release,
    /// Make the new shared memory.
    Allocate,
    /// Ask for a pool over the new memory.
    CreatePool,
    /// Ask the pool for the compositor buffer.
    CreateBuffer,
    /// Destroy the pool.
    DestroyPool,
    /// Listen to the new buffer.
    Listen,
    /// Nothing left.
    Done,
}

/// The stage a resize goes on to from `stage`; the last stays.
pub open spec fn resize_next(stage: ResizeStage) -> ResizeStage {
    match stage {
        ResizeStage::Release => ResizeStage::Allocate,
        ResizeStage::Allocate => ResizeStage::CreatePool,
        ResizeStage::CreatePool => ResizeStage::CreateBuffer,
        ResizeStage::CreateBuffer => ResizeStage::DestroyPool,
        ResizeStage::DestroyPool => ResizeStage::Listen,
        ResizeStage::Listen => ResizeStage::Done,
        ResizeStage::Done => ResizeStage::Done,
    }
}

/// A resize of the back buffer under way: its stage, the old memory to
/// release, the size of the new memory, and the pool once there is one.
pub struct ResizeJob {
    pub stage: ResizeStage,
    pub release: Option<MemFd>,
    pub bitmap_size: i32,
    pub pool: Handle<wl_shm_pool>,
}

/// What a resize asks of the caller next.
pub enum ResizeAction {
    /// Unmap and close this shared memory file.
    ReleaseMemory(MemFd),
    /// Make a shared memory file of this many bytes; hand it back.
    AllocateMemory(i32),
    /// Send this request; hand back the object it makes, if any.
    Send(Request),
    /// Listen to this buffer, for the compositor giving it back.
    ListenToBuffer(Handle<wl_buffer>),
    /// The resize is complete.
    Finished,
}

/// What the caller hands back after performing a resize's action.
pub enum ResizeReply {
    /// Nothing came back.
    Nothing,
    /// The shared memory file made.
    Memory(MemFd),
    /// The address of the object the request made.
    Created(usize),
}

/// Whether two states agree on everything but the back buffer's memory and
/// the compositor buffer.
pub open spec fn same_but_shared_buffer(a: GlobalState, b: GlobalState) -> bool {
    &&& a.compositor == b.compositor
    &&& a.shm == b.shm
    &&& a.surface == b.surface
    &&& a.seat == b.seat
    &&& a.keyboard == b.keyboard
    &&& a.window_manager == b.window_manager
    &&& a.window == b.window
    &&& a.toplevel == b.toplevel
    &&& a.running == b.running
    &&& a.buffer_released == b.buffer_released
    &&& a.event == b.event
    &&& a.back_buffer.width == b.back_buffer.width
    &&& a.back_buffer.height == b.back_buffer.height
    &&& a.back_buffer.pitch == b.back_buffer.pitch
    &&& a.back_buffer.bytes_per_pixel == b.back_buffer.bytes_per_pixel
}

/// Whether a stage of a resize can be taken with `reply`: there is old memory
/// to release, the memory made comes back before the pool is asked for, and
/// the pool and the buffer come back before they are used.
pub open spec fn resize_step_ready(job: ResizeJob, reply: ResizeReply) -> bool {
    &&& job.stage == ResizeStage::Release ==> job.release is Some
    &&& job.stage == ResizeStage::CreatePool ==> reply is Memory
    &&& job.stage == ResizeStage::CreateBuffer ==> reply is Created
    &&& job.stage == ResizeStage::DestroyPool ==> reply is Created
}

/// Whether a back buffer of `width` by `height` pixels of `bytes_per_pixel`
/// bytes has a pitch and a size that fit in `i32`.
pub open spec fn resize_fits(width: i32, height: i32, bytes_per_pixel: i32) -> bool {
    &&& i32::MIN <= width * bytes_per_pixel <= i32::MAX
    &&& i32::MIN <= height * (width * bytes_per_pixel) <= i32::MAX
}

/// Gives the back buffer a new size: rows of `width` pixels, `height` rows.
/// The old memory is taken out to be released, and the buffer left without
/// memory; the resize goes on with `resize_step`, starting with the release
/// when there was a mapping, else with making the new memory.
pub fn resize_shared_buffer(global_state: &mut GlobalState, width: i32, height: i32) -> (job: ResizeJob)
    requires
        resize_fits(width, height, old(global_state).back_buffer.bytes_per_pixel),
    ensures
        final(global_state).back_buffer.width == width,
        final(global_state).back_buffer.height == height,
        final(global_state).back_buffer.bytes_per_pixel == old(global_state).back_buffer.bytes_per_pixel,
        final(global_state).back_buffer.pitch == width * old(global_state).back_buffer.bytes_per_pixel,
        job.bitmap_size == height * final(global_state).back_buffer.pitch,
        job.release == if old(global_state).back_buffer.memory.addr != 0 {
            Some(old(global_state).back_buffer.memory)
        } else {
            None
        },
        job.stage == if old(global_state).back_buffer.memory.addr != 0 {
            ResizeStage::Release
        } else {
            ResizeStage::Allocate
        },
        job.pool.addr == 0,
        old(global_state).back_buffer.memory.addr != 0 ==> final(global_state).back_buffer.memory.is_empty_mapping(),
        old(global_state).back_buffer.memory.addr == 0 ==> final(global_state).back_buffer.memory == old(global_state).back_buffer.memory,
        same_objects(*final(global_state), *old(global_state)),
        final(global_state).running == old(global_state).running,
        final(global_state).buffer_released == old(global_state).buffer_released,
        final(global_state).event == old(global_state).event,
{
    let buffer = &mut global_state.back_buffer;
    buffer.width = width;
    buffer.height = height;
    buffer.pitch = width * buffer.bytes_per_pixel;
    let bitmap_size = height * buffer.pitch;
    if !buffer.memory.is_null() {
        let old_memory = buffer.memory;
        buffer.memory = MemFd::default();
        ResizeJob { stage: ResizeStage::Release, release: Some(old_memory), bitmap_size, pool: Handle::null() }
    } else {
        ResizeJob { stage: ResizeStage::Allocate, release: None, bitmap_size, pool: Handle::null() }
    }
}

/// Takes a resize one stage on, given what the caller's last action gave back,
/// and says what the caller does next. In order: release the old memory (when
/// there was a mapping), make the new memory, ask for a pool over it, ask the
/// pool for the buffer, destroy the pool, listen to the buffer; then finished.
/// The memory made becomes the back buffer's memory as the pool is asked for;
/// the buffer made becomes the window's buffer as the pool is destroyed.
pub fn resize_step(global_state: &mut GlobalState, job: &mut ResizeJob, reply: ResizeReply) -> (action: ResizeAction)
    requires
        resize_step_ready(*old(job), reply),
    ensures
        final(job).stage == resize_next(old(job).stage),
        final(job).release == old(job).release,
        final(job).bitmap_size == old(job).bitmap_size,
        old(job).stage != ResizeStage::CreateBuffer ==> final(job).pool == old(job).pool,
        same_but_shared_buffer(*final(global_state), *old(global_state)),
        old(job).stage != ResizeStage::CreatePool ==> final(global_state).back_buffer.memory == old(global_state).back_buffer.memory,
        old(job).stage != ResizeStage::DestroyPool ==> final(global_state).buffer == old(global_state).buffer,
        old(job).stage == ResizeStage::Release ==> action == ResizeAction::ReleaseMemory(old(job).release->0),
        old(job).stage == ResizeStage::Allocate ==> action == ResizeAction::AllocateMemory(old(job).bitmap_size),
        old(job).stage == ResizeStage::CreatePool ==> ({
            let memory = reply->Memory_0;
            &&& final(global_state).back_buffer.memory == memory
            &&& action matches ResizeAction::Send(r)
            &&& is_request(r, old(global_state).shm.addr, WL_SHM_CREATE_POOL, Some(Interface::ShmPool))
            &&& r.args@ == seq![Argument::NewId, Argument::Fd(memory.fd), Argument::Int(old(job).bitmap_size)]
        }),
        old(job).stage == ResizeStage::CreateBuffer ==> ({
            let pool = reply->Created_0;
            let b = old(global_state).back_buffer;
            &&& final(job).pool.addr == pool
            &&& action matches ResizeAction::Send(r)
            &&& is_request(r, pool, WL_SHM_POOL_CREATE_BUFFER, Some(Interface::Buffer))
            &&& r.args@ == seq![
                Argument::NewId,
                Argument::Int(0),
                Argument::Int(b.width),
                Argument::Int(b.height),
                Argument::Int(b.pitch),
                Argument::Uint(shm_format_code(SHMFormat::XRGB8888)),
            ]
        }),
        old(job).stage == ResizeStage::DestroyPool ==> ({
            &&& final(global_state).buffer.addr == reply->Created_0
            &&& action matches ResizeAction::Send(r)
            &&& r.target == old(job).pool.addr
            &&& r.opcode == WL_SHM_POOL_DESTROY
            &&& r.interface.is_none()
            &&& r.version.is_none()
            &&& r.destroy
            &&& r.args@.len() == 0
        }),
        old(job).stage == ResizeStage::Listen ==> (action matches ResizeAction::ListenToBuffer(b) && b == old(global_state).buffer),
        old(job).stage == ResizeStage::Done ==> action is Finished,
{
    let stage = job.stage;
    job.stage = match stage {
        ResizeStage::Release => ResizeStage::Allocate,
        ResizeStage::Allocate => ResizeStage::CreatePool,
        ResizeStage::CreatePool => ResizeStage::CreateBuffer,
        ResizeStage::CreateBuffer => ResizeStage::DestroyPool,
        ResizeStage::DestroyPool => ResizeStage::Listen,
        ResizeStage::Listen => ResizeStage::Done,
        ResizeStage::Done => ResizeStage::Done,
    };
    match stage {
        ResizeStage::Release => match job.release {
            Some(memory) => ResizeAction::ReleaseMemory(memory),
            None => ResizeAction::Finished,
        },
        ResizeStage::Allocate => ResizeAction::AllocateMemory(job.bitmap_size),
        ResizeStage::CreatePool => match reply {
            ResizeReply::Memory(memory) => {
                let buffer = global_state.buffer;
                install_shared_buffer(global_state, memory, buffer);
                let r = back_buffer_pool_request(global_state, job.bitmap_size);
                assert(r.args@ =~= seq![Argument::NewId, Argument::Fd(memory.fd), Argument::Int(job.bitmap_size)]);
                ResizeAction::Send(r)
            },
            _ => ResizeAction::Finished,
        },
        ResizeStage::CreateBuffer => match reply {
            ResizeReply::Created(pool) => {
                job.pool = Handle::from_address(pool);
                let r = back_buffer_request(global_state, job.pool);
                assert(r.args@ =~= seq![
                    Argument::NewId,
                    Argument::Int(0),
                    Argument::Int(global_state.back_buffer.width),
                    Argument::Int(global_state.back_buffer.height),
                    Argument::Int(global_state.back_buffer.pitch),
                    Argument::Uint(shm_format_code(SHMFormat::XRGB8888)),
                ]);
                ResizeAction::Send(r)
            },
            _ => ResizeAction::Finished,
        },
        ResizeStage::DestroyPool => match reply {
            ResizeReply::Created(buffer) => {
                let memory = global_state.back_buffer.memory;
                install_shared_buffer(global_state, memory, Handle::from_address(buffer));
                ResizeAction::Send(shm_pool_destroy(job.pool))
            },
            _ => ResizeAction::Finished,
        },
        ResizeStage::Listen => ResizeAction::ListenToBuffer(global_state.buffer),
        ResizeStage::Done => ResizeAction::Finished,
    }
}

/// Installs what the caller made for a resized back buffer: the new shared
/// memory file as the back buffer's memory, and the compositor buffer made
/// over it as the buffer the window shows.
pub fn install_shared_buffer(global_state: &mut GlobalState, memory: MemFd, buffer: Handle<wl_buffer>)
    ensures
        final(global_state).back_buffer.memory == memory,
        final(global_state).buffer == buffer,
        final(global_state).back_buffer.width == old(global_state).back_buffer.width,
        final(global_state).back_buffer.height == old(global_state).back_buffer.height,
        final(global_state).back_buffer.pitch == old(global_state).back_buffer.pitch,
        final(global_state).back_buffer.bytes_per_pixel == old(global_state).back_buffer.bytes_per_pixel,
        final(global_state).compositor == old(global_state).compositor,
        final(global_state).shm == old(global_state).shm,
        final(global_state).surface == old(global_state).surface,
        final(global_state).seat == old(global_state).seat,
        final(global_state).keyboard == old(global_state).keyboard,
        final(global_state).window_manager == old(global_state).window_manager,
        final(global_state).window == old(global_state).window,
        final(global_state).toplevel == old(global_state).toplevel,
        final(global_state).running == old(global_state).running,
        final(global_state).buffer_released == old(global_state).buffer_released,
        final(global_state).event == old(global_state).event,
{
    global_state.back_buffer.memory = memory;
    global_state.buffer = buffer;
}

/// The request that makes the pool the back buffer's memory is shared through:
/// the whole file of `bitmap_size` bytes.
pub fn back_buffer_pool_request(global_state: &GlobalState, bitmap_size: i32) -> (r: Request)
    ensures
        is_request(r, global_state.shm.addr, WL_SHM_CREATE_POOL, Some(Interface::ShmPool)),
        r.args@.len() == 3,
        r.args@[0] is NewId,
        r.args@[1] == Argument::Fd(global_state.back_buffer.memory.fd),
        r.args@[2] == Argument::Int(bitmap_size),
{
    shm_create_pool(global_state.shm, global_state.back_buffer.memory.fd, bitmap_size)
}

/// The request that makes the back buffer's compositor buffer from `pool`:
/// from the pool's start, of the buffer's width, height and pitch, in the
/// 32-bit XRGB format.
pub fn back_buffer_request(global_state: &GlobalState, pool: Handle<wl_shm_pool>) -> (r: Request)
    ensures
        is_request(r, pool.addr, WL_SHM_POOL_CREATE_BUFFER, Some(Interface::Buffer)),
        r.args@.len() == 6,
        r.args@[0] is NewId,
        r.args@[1] == Argument::Int(0),
        r.args@[2] == Argument::Int(global_state.back_buffer.width),
        r.args@[3] == Argument::Int(global_state.back_buffer.height),
        r.args@[4] == Argument::Int(global_state.back_buffer.pitch),
        r.args@[5] == Argument::Uint(shm_format_code(SHMFormat::XRGB8888)),
{
    let b = &global_state.back_buffer;
    shm_pool_create_buffer(pool, 0, b.width, b.height, b.pitch, SHMFormat::XRGB8888.code())
}

/// Shows the back buffer at (`x`, `y`): the buffer is now the compositor's
/// until it gives it back, and the requests mark the whole buffer as changed,
/// attach it, and commit the surface, in that order.
pub fn display_buffer_in_window(global_state: &mut GlobalState, x: i32, y: i32) -> (requests: Vec<Request>)
    ensures
        !final(global_state).buffer_released,
        final(global_state).running == old(global_state).running,
        final(global_state).event == old(global_state).event,
        final(global_state).back_buffer == old(global_state).back_buffer,
        same_objects(*final(global_state), *old(global_state)),
        requests@.len() == 3,
        is_request(requests@[0], old(global_state).surface.addr, WL_SURFACE_DAMAGE_BUFFER, None),
        requests@[0].args@ == seq![
            Argument::Int(x),
            Argument::Int(y),
            Argument::Int(old(global_state).back_buffer.width),
            Argument::Int(old(global_state).back_buffer.height),
        ],
        is_request(requests@[1], old(global_state).surface.addr, WL_SURFACE_ATTACH, None),
        requests@[1].args@ == seq![Argument::Object(old(global_state).buffer.addr), Argument::Int(x), Argument::Int(y)],
        is_request(requests@[2], old(global_state).surface.addr, WL_SURFACE_COMMIT, None),
        requests@[2].args@.len() == 0,
{
    global_state.buffer_released = false;
    let damage = surface_damage_buffer(
        global_state.surface,
        x,
        y,
        global_state.back_buffer.width,
        global_state.back_buffer.height,
    );
    let attach = surface_attach(global_state.surface, global_state.buffer, x, y);
    let commit = surface_commit(global_state.surface);
    let requests = vec![damage, attach, commit];
    assert(requests@[0].args@ =~= seq![
        Argument::Int(x),
        Argument::Int(y),
        Argument::Int(global_state.back_buffer.width),
        Argument::Int(global_state.back_buffer.height),
    ]);
    assert(requests@[1].args@ =~= seq![Argument::Object(global_state.buffer.addr), Argument::Int(x), Argument::Int(y)]);
    requests
}

/// The compositor gave the back buffer back: it may be drawn again.
pub fn buffer_release(global_state: &mut GlobalState)
    ensures
        final(global_state).buffer_released,
        final(global_state).running == old(global_state).running,
        final(global_state).event == old(global_state).event,
        final(global_state).back_buffer == old(global_state).back_buffer,
        same_objects(*final(global_state), *old(global_state)),
{
    global_state.buffer_released = true;
}

/// The window was asked to close: stop running, with the close as the
/// pending event.
pub fn toplevel_close(global_state: &mut GlobalState)
    ensures
        !final(global_state).running,
        final(global_state).event == EventType::Close,
        final(global_state).buffer_released == old(global_state).buffer_released,
        final(global_state).back_buffer == old(global_state).back_buffer,
        same_objects(*final(global_state), *old(global_state)),
{
    global_state.running = false;
    global_state.event = EventType::Close;
}

/// A key event, kept as the pending event.
pub fn keyboard_key_event(global_state: &mut GlobalState, key: u32, key_state: u32)
    ensures
        final(global_state).event == EventType::Keyboard(key, key_state),
        final(global_state).running == old(global_state).running,
        final(global_state).buffer_released == old(global_state).buffer_released,
        final(global_state).back_buffer == old(global_state).back_buffer,
        same_objects(*final(global_state), *old(global_state)),
{
    global_state.event = EventType::Keyboard(key, key_state);
}

/// Keeps the object bound for a registry global in the field for it: the
/// compositor, the shared memory global, the window manager or the seat.
/// Whether the caller listens to the object: the window manager's pings and
/// the seat's capabilities are listened to, the other two are not.
pub fn install_global(global_state: &mut GlobalState, global: Global, bound: usize) -> (add_listener: bool)
    ensures
        add_listener == (global == Global::WmBase || global == Global::Seat),
        final(global_state).compositor.addr == if global == Global::Compositor {
            bound
        } else {
            old(global_state).compositor.addr
        },
        final(global_state).shm.addr == if global == Global::Shm { bound } else { old(global_state).shm.addr },
        final(global_state).window_manager.addr == if global == Global::WmBase {
            bound
        } else {
            old(global_state).window_manager.addr
        },
        final(global_state).seat.addr == if global == Global::Seat { bound } else { old(global_state).seat.addr },
        global != Global::Compositor ==> final(global_state).compositor == old(global_state).compositor,
        global != Global::Shm ==> final(global_state).shm == old(global_state).shm,
        global != Global::WmBase ==> final(global_state).window_manager == old(global_state).window_manager,
        global != Global::Seat ==> final(global_state).seat == old(global_state).seat,
        final(global_state).surface == old(global_state).surface,
        final(global_state).buffer == old(global_state).buffer,
        final(global_state).keyboard == old(global_state).keyboard,
        final(global_state).window == old(global_state).window,
        final(global_state).toplevel == old(global_state).toplevel,
        final(global_state).running == old(global_state).running,
        final(global_state).buffer_released == old(global_state).buffer_released,
        final(global_state).event == old(global_state).event,
        final(global_state).back_buffer == old(global_state).back_buffer,
{
    match global {
        Global::Compositor => {
            global_state.compositor = Handle::from_address(bound);
            false
        },
        Global::Shm => {
            global_state.shm = Handle::from_address(bound);
            false
        },
        Global::WmBase => {
            global_state.window_manager = Handle::from_address(bound);
            true
        },
        Global::Seat => {
            global_state.seat = Handle::from_address(bound);
            true
        },
    }
}

/// Whether a seat with `capabilities` has a keyboard.
pub open spec fn seat_has_keyboard(capabilities: u32) -> bool {
    (capabilities & WL_SEAT_CAPABILITY_KEYBOARD) != 0
}

/// The keyboard held after the seat announced `capabilities`, when `held` was
/// held before and the seat would hand out `fresh` when asked: the fresh one
/// when the seat gained a keyboard and none was held, none when it lost its
/// keyboard, else the one held.
pub open spec fn keyboard_after_capabilities(held: usize, capabilities: u32, fresh: usize) -> usize {
    if seat_has_keyboard(capabilities) && held == 0 {
        fresh
    } else if !seat_has_keyboard(capabilities) && held != 0 {
        0
    } else {
        held
    }
}

/// Whether the seat's `capabilities` call for a change to the keyboard held,
/// `held`: one to take, or one to let go.
pub open spec fn seat_calls_for_change(held: usize, capabilities: u32) -> bool {
    seat_has_keyboard(capabilities) != (held != 0)
}

/// What to do with the seat's keyboard when the seat's capabilities change.
pub enum SeatAction {
    /// Ask the seat for its keyboard and listen to it.
    GetKeyboard,
    /// Release this keyboard, which the state no longer holds.
    ReleaseKeyboard(Handle<wl_keyboard>),
    /// Nothing to do.
    Nothing,
}

/// Takes the keyboard when the seat gained one and none is held; lets it go
/// when the seat lost it and one is held. On `GetKeyboard` the caller asks the
/// seat for its keyboard and keeps it with `install_keyboard`; the keyboard
/// then held is `keyboard_after_capabilities` of the one held before, the
/// capabilities and the one the seat handed out.
pub fn seat_capabilities(global_state: &mut GlobalState, capabilities: u32) -> (action: SeatAction)
    ensures
        ({
            let has_keyboard = seat_has_keyboard(capabilities);
            let held = old(global_state).keyboard.addr != 0;
            &&& (has_keyboard && !held) ==> action is GetKeyboard
            &&& (!has_keyboard && held) ==> (action matches SeatAction::ReleaseKeyboard(k) && k == old(global_state).keyboard)
            &&& (has_keyboard == held) ==> action is Nothing
            &&& final(global_state).keyboard.addr == if !has_keyboard && held { 0 } else { old(global_state).keyboard.addr }
        }),
        (action is Nothing) == !seat_calls_for_change(old(global_state).keyboard.addr, capabilities),
        forall|fresh: usize|
            #[trigger] keyboard_after_capabilities(old(global_state).keyboard.addr, capabilities, fresh) == if action is GetKeyboard {
                fresh
            } else {
                final(global_state).keyboard.addr
            },
        final(global_state).compositor == old(global_state).compositor,
        final(global_state).shm == old(global_state).shm,
        final(global_state).surface == old(global_state).surface,
        final(global_state).buffer == old(global_state).buffer,
        final(global_state).seat == old(global_state).seat,
        final(global_state).window_manager == old(global_state).window_manager,
        final(global_state).window == old(global_state).window,
        final(global_state).toplevel == old(global_state).toplevel,
        final(global_state).running == old(global_state).running,
        final(global_state).buffer_released == old(global_state).buffer_released,
        final(global_state).event == old(global_state).event,
        final(global_state).back_buffer == old(global_state).back_buffer,
{
    let has_keyboard = (capabilities & WL_SEAT_CAPABILITY_KEYBOARD) != 0;
    if has_keyboard && global_state.keyboard.is_null() {
        SeatAction::GetKeyboard
    } else if !has_keyboard && !global_state.keyboard.is_null() {
        let keyboard = global_state.keyboard;
        global_state.keyboard = Handle::null();
        SeatAction::ReleaseKeyboard(keyboard)
    } else {
        SeatAction::Nothing
    }
}

/// Keeps the keyboard the seat handed out.
pub fn install_keyboard(global_state: &mut GlobalState, keyboard: Handle<wl_keyboard>)
    ensures
        final(global_state).keyboard == keyboard,
        final(global_state).compositor == old(global_state).compositor,
        final(global_state).shm == old(global_state).shm,
        final(global_state).surface == old(global_state).surface,
        final(global_state).buffer == old(global_state).buffer,
        final(global_state).seat == old(global_state).seat,
        final(global_state).window_manager == old(global_state).window_manager,
        final(global_state).window == old(global_state).window,
        final(global_state).toplevel == old(global_state).toplevel,
        final(global_state).running == old(global_state).running,
        final(global_state).buffer_released == old(global_state).buffer_released,
        final(global_state).event == old(global_state).event,
        final(global_state).back_buffer == old(global_state).back_buffer,
{
    global_state.keyboard = keyboard;
}

/// After a round of event dispatch that handled `dispatched_events` events
/// (-1 for a broken connection): whether to dispatch again. A broken connection
/// stops the game; a quiet round while the back buffer is free ends dispatch.
pub fn dispatch_again(global_state: &mut GlobalState, dispatched_events: i32) -> (again: bool)
    ensures
        again == !(dispatched_events == -1 || (old(global_state).buffer_released && dispatched_events == 0)),
        final(global_state).running == (old(global_state).running && dispatched_events != -1),
        final(global_state).buffer_released == old(global_state).buffer_released,
        final(global_state).event == old(global_state).event,
        final(global_state).back_buffer == old(global_state).back_buffer,
        same_objects(*final(global_state), *old(global_state)),
{
    if dispatched_events == -1 {
        global_state.running = false;
        false
    } else if global_state.buffer_released && dispatched_events == 0 {
        false
    } else {
        true
    }
}

/// The keyboard controller at the start of a frame: buttons held as they
/// ended the last frame, with no changes yet, and connected as before.
pub fn next_keyboard_controller(previous: &ControllerInput) -> (c: ControllerInput)
    ensures
        c.is_connected == previous.is_connected,
        !c.is_analog,
        c.stick_average_x == 0,
        c.stick_average_y == 0,
        forall|b: int| 0 <= b < BUTTON_COUNT ==> #[trigger] c.buttons@[b] == (ButtonState {
            half_transition_count: 0,
            ended_down: previous.buttons@[b].ended_down,
        }),
{
    let mut c = ControllerInput::default();
    let mut b: usize = 0;
    while b < BUTTON_COUNT
        invariant
            b <= BUTTON_COUNT,
            !c.is_connected,
            !c.is_analog,
            c.stick_average_x == 0,
            c.stick_average_y == 0,
            forall|i: int| 0 <= i < b ==> #[trigger] c.buttons@[i] == (ButtonState {
                half_transition_count: 0,
                ended_down: previous.buttons@[i].ended_down,
            }),
            forall|i: int| b <= i < BUTTON_COUNT ==> #[trigger] c.buttons@[i] == ButtonState::released(),
        decreases BUTTON_COUNT - b,
    {
        c.buttons[b].ended_down = previous.buttons[b].ended_down;
        b = b + 1;
    }
    c.is_connected = previous.is_connected;
    c
}

/// Number of devices at the start of `devices` before the first empty slot.
pub open spec fn leading_devices(devices: Seq<Handle<libevdev>>, n: int) -> int
    decreases n,
{
    if n <= 0 {
        0
    } else if leading_devices(devices, n - 1) == n - 1 && devices[n - 1].addr != 0 {
        n
    } else {
        leading_devices(devices, n - 1)
    }
}

/// Number of gamepads found: the devices before the first empty slot.
pub fn controller_count(devices: &[Handle<libevdev>; 4]) -> (n: usize)
    ensures
        n == leading_devices(devices@, MAX_CONTROLLERS_COUNT as int),
        n <= MAX_CONTROLLERS_COUNT,
{
    let mut n: usize = 0;
    while n < MAX_CONTROLLERS_COUNT && !devices[n].is_null()
        invariant
            n <= MAX_CONTROLLERS_COUNT,
            leading_devices(devices@, n as int) == n,
            forall|i: int| 0 <= i < n ==> #[trigger] devices@[i].addr != 0,
        decreases MAX_CONTROLLERS_COUNT - n,
    {
        n = n + 1;
    }
    proof {
        lemma_leading_devices_stop(devices@, n as int, MAX_CONTROLLERS_COUNT as int);
    }
    n
}

proof fn lemma_leading_devices_stop(devices: Seq<Handle<libevdev>>, n: int, m: int)
    requires
        0 <= n <= m,
        leading_devices(devices, n) == n,
        n < m ==> devices[n].addr == 0,
    ensures
        leading_devices(devices, m) == n,
    decreases m - n,
{
    if n < m {
        lemma_leading_devices_below(devices, n, m);
    }
}

proof fn lemma_leading_devices_below(devices: Seq<Handle<libevdev>>, n: int, m: int)
    requires
        0 <= n < m,
        leading_devices(devices, n) == n,
        devices[n].addr == 0,
    ensures
        leading_devices(devices, m) == n,
    decreases m - n,
{
    if m == n + 1 {
    } else {
        lemma_leading_devices_below(devices, n, m - 1);
        assert(leading_devices(devices, m - 1) == n);
    }
}

/// A stick axis as the game reads it: four times the average deflection (a
/// value in `-1.0..=1.0`) truncated toward zero, and whether the deflection is
/// below -0.5 or above 0.5.
#[derive(Clone, Copy, Debug)]
pub struct StickReading {
    pub average: i32,
    pub below_threshold: bool,
    pub above_threshold: bool,
}

/// The axis pushed fully to the negative side.
pub open spec fn stick_full_negative() -> StickReading {
    StickReading { average: -4i32, below_threshold: true, above_threshold: false }
}

/// The axis pushed fully to the positive side.
pub open spec fn stick_full_positive() -> StickReading {
    StickReading { average: 4i32, below_threshold: false, above_threshold: true }
}

/// One frame's readings of a gamepad: its buttons (1 when pressed), its
/// directional pad (-1, 0 or 1 on each axis) and its left stick.
#[derive(Clone, Copy, Debug)]
pub struct GamepadReadings {
    pub north: i32,
    pub south: i32,
    pub west: i32,
    pub east: i32,
    pub shoulder_left: i32,
    pub shoulder_right: i32,
    pub select: i32,
    pub hat_x: i32,
    pub hat_y: i32,
    pub stick_x: StickReading,
    pub stick_y: StickReading,
}

/// The horizontal stick after the directional pad: the pad, when pressed,
/// overrides the stick.
pub open spec fn effective_stick_x(r: GamepadReadings) -> StickReading {
    if r.hat_x == 1 {
        stick_full_positive()
    } else if r.hat_x == -1 {
        stick_full_negative()
    } else {
        r.stick_x
    }
}

/// The vertical stick after the directional pad: pad up reads as the stick
/// fully down the axis, pad down as fully up.
pub open spec fn effective_stick_y(r: GamepadReadings) -> StickReading {
    if r.hat_y == 1 {
        stick_full_negative()
    } else if r.hat_y == -1 {
        stick_full_positive()
    } else {
        r.stick_y
    }
}

/// The value a gamepad gives each button of the controller: the face,
/// shoulder and select buttons for the action, shoulder, start and back
/// buttons (start reads the north face button), and the stick past its
/// thresholds for the move buttons.
pub open spec fn gamepad_value(r: GamepadReadings, b: int) -> i32 {
    if b == ACTION_UP as int {
        r.north
    } else if b == ACTION_DOWN as int {
        r.south
    } else if b == ACTION_LEFT as int {
        r.west
    } else if b == ACTION_RIGHT as int {
        r.east
    } else if b == LEFT_SHOULDER as int {
        r.shoulder_left
    } else if b == RIGHT_SHOULDER as int {
        r.shoulder_right
    } else if b == START as int {
        r.north
    } else if b == BACK as int {
        r.select
    } else if b == MOVE_LEFT as int {
        if effective_stick_x(r).below_threshold { 1 } else { 0 }
    } else if b == MOVE_RIGHT as int {
        if effective_stick_x(r).above_threshold { 1 } else { 0 }
    } else if b == MOVE_UP as int {
        if effective_stick_y(r).below_threshold { 1 } else { 0 }
    } else {
        if effective_stick_y(r).above_threshold { 1 } else { 0 }
    }
}

fn override_stick(pad: i32, reading: StickReading, positive_when: i32) -> (s: StickReading)
    requires
        positive_when == 1 || positive_when == -1,
    ensures
        s == if pad == positive_when {
            stick_full_positive()
        } else if pad == -positive_when {
            stick_full_negative()
        } else {
            reading
        },
{
    if pad == positive_when {
        StickReading { average: 4, below_threshold: false, above_threshold: true }
    } else if pad == -positive_when {
        StickReading { average: -4, below_threshold: true, above_threshold: false }
    } else {
        reading
    }
}

/// Sets a gamepad's controller for the frame from its readings, against its
/// buttons in the last frame; without readings (the device could not be read)
/// the controller is disconnected and otherwise left as it was.
pub fn process_gamepad(old_controller: &ControllerInput, new_controller: &mut ControllerInput, readings: Option<GamepadReadings>)
    ensures
        match readings {
            Some(r) => {
                &&& final(new_controller).is_connected
                &&& final(new_controller).is_analog
                &&& final(new_controller).stick_average_x == effective_stick_x(r).average
                &&& final(new_controller).stick_average_y == effective_stick_y(r).average
                &&& forall|b: int| 0 <= b < BUTTON_COUNT ==> #[trigger] final(new_controller).buttons@[b]
                    == digital_button(old_controller.buttons@[b], gamepad_value(r, b))
            },
            None => {
                &&& !final(new_controller).is_connected
                &&& final(new_controller).is_analog == old(new_controller).is_analog
                &&& final(new_controller).stick_average_x == old(new_controller).stick_average_x
                &&& final(new_controller).stick_average_y == old(new_controller).stick_average_y
                &&& final(new_controller).buttons@ == old(new_controller).buttons@
            },
        },
{
    match readings {
        None => {
            new_controller.is_connected = false;
        },
        Some(r) => {
            new_controller.is_connected = true;
            new_controller.is_analog = true;
            let x = override_stick(r.hat_x, r.stick_x, 1);
            let y = override_stick(r.hat_y, r.stick_y, -1);
            new_controller.stick_average_x = x.average;
            new_controller.stick_average_y = y.average;
            let mut b: usize = 0;
            while b < BUTTON_COUNT
                invariant
                    b <= BUTTON_COUNT,
                    x == effective_stick_x(r),
                    y == effective_stick_y(r),
                    new_controller.is_connected,
                    new_controller.is_analog,
                    new_controller.stick_average_x == effective_stick_x(r).average,
                    new_controller.stick_average_y == effective_stick_y(r).average,
                    forall|i: int| 0 <= i < b ==> #[trigger] new_controller.buttons@[i]
                        == digital_button(old_controller.buttons@[i], gamepad_value(r, i)),
                decreases BUTTON_COUNT - b,
            {
                let value = gamepad_button_value(&r, &x, &y, b);
                process_input_digital_button(&old_controller.buttons[b], value, &mut new_controller.buttons[b]);
                b = b + 1;
            }
        },
    }
}

fn gamepad_button_value(r: &GamepadReadings, x: &StickReading, y: &StickReading, b: usize) -> (v: i32)
    requires
        *x == effective_stick_x(*r),
        *y == effective_stick_y(*r),
    ensures
        v == gamepad_value(*r, b as int),
{
    if b == ACTION_UP {
        r.north
    } else if b == ACTION_DOWN {
        r.south
    } else if b == ACTION_LEFT {
        r.west
    } else if b == ACTION_RIGHT {
        r.east
    } else if b == LEFT_SHOULDER {
        r.shoulder_left
    } else if b == RIGHT_SHOULDER {
        r.shoulder_right
    } else if b == START {
        r.north
    } else if b == BACK {
        r.select
    } else if b == MOVE_LEFT {
        if x.below_threshold { 1 } else { 0 }
    } else if b == MOVE_RIGHT {
        if x.above_threshold { 1 } else { 0 }
    } else if b == MOVE_UP {
        if y.below_threshold { 1 } else { 0 }
    } else {
        if y.above_threshold { 1 } else { 0 }
    }
}

/// What the simpler front end does after handling a frame's event.
#[derive(PartialEq, Eq, Structural, Clone, Copy, Debug)]
pub enum FrameControl {
    /// Leave the loop.
    Quit,
    /// Go on with the frame.
    Continue,
    /// Go on, reporting that escape is up.
    EscapeReleased,
    /// Go on, reporting that escape is down.
    EscapePressed,
}

/// The tone for a picture scrolled to `x_offset`, from a base of 512 Hz:
/// above the base when going up, below it when going down, by the offset's
/// remainder modulo 512.
pub open spec fn scroll_tone(x_offset: i32, up: bool) -> u32 {
    if up {
        (512 + (x_offset as int) % 512) as u32
    } else {
        (512 - (x_offset as int) % 512) as u32
    }
}

/// Whether handling `event` keeps the offsets within `i32`.
pub open spec fn event_fits(event: EventType, x_offset: i32, y_offset: i32) -> bool {
    event matches EventType::Keyboard(key, _) ==> match key_of_code(key) {
        Some(KeyCode::UP) => y_offset + 2 <= i32::MAX,
        Some(KeyCode::DOWN) => y_offset - 2 >= i32::MIN,
        Some(KeyCode::LEFT) => x_offset - 2 >= i32::MIN,
        Some(KeyCode::RIGHT) => x_offset + 2 <= i32::MAX,
        _ => true,
    }
}

/// Handles the pending event of the simpler front end: a close quits; the
/// arrow keys scroll the picture by two pixels, the vertical ones also retuning
/// the tone; escape is reported when it goes up or down; everything else is
/// ignored.
pub fn handle_event(event: EventType, x_offset: &mut i32, y_offset: &mut i32, tone_hz: &mut u32) -> (control: FrameControl)
    requires
        event_fits(event, *old(x_offset), *old(y_offset)),
    ensures
        match event {
            EventType::Close => {
                &&& control == FrameControl::Quit
                &&& *final(x_offset) == *old(x_offset)
                &&& *final(y_offset) == *old(y_offset)
                &&& *final(tone_hz) == *old(tone_hz)
            },
            EventType::Keyboard(key, key_state) => match key_of_code(key) {
                Some(KeyCode::UP) => {
                    &&& control == FrameControl::Continue
                    &&& *final(x_offset) == *old(x_offset)
                    &&& *final(y_offset) == *old(y_offset) + 2
                    &&& *final(tone_hz) == scroll_tone(*old(x_offset), true)
                },
                Some(KeyCode::DOWN) => {
                    &&& control == FrameControl::Continue
                    &&& *final(x_offset) == *old(x_offset)
                    &&& *final(y_offset) == *old(y_offset) - 2
                    &&& *final(tone_hz) == scroll_tone(*old(x_offset), false)
                },
                Some(KeyCode::LEFT) => {
                    &&& control == FrameControl::Continue
                    &&& *final(x_offset) == *old(x_offset) - 2
                    &&& *final(y_offset) == *old(y_offset)
                    &&& *final(tone_hz) == *old(tone_hz)
                },
                Some(KeyCode::RIGHT) => {
                    &&& control == FrameControl::Continue
                    &&& *final(x_offset) == *old(x_offset) + 2
                    &&& *final(y_offset) == *old(y_offset)
                    &&& *final(tone_hz) == *old(tone_hz)
                },
                Some(KeyCode::ESC) => {
                    &&& control == if key_state == 0 {
                        FrameControl::EscapeReleased
                    } else if key_state == 1 {
                        FrameControl::EscapePressed
                    } else {
                        FrameControl::Continue
                    }
                    &&& *final(x_offset) == *old(x_offset)
                    &&& *final(y_offset) == *old(y_offset)
                    &&& *final(tone_hz) == *old(tone_hz)
                },
                _ => {
                    &&& control == FrameControl::Continue
                    &&& *final(x_offset) == *old(x_offset)
                    &&& *final(y_offset) == *old(y_offset)
                    &&& *final(tone_hz) == *old(tone_hz)
                },
            },
            EventType::NoEvent => {
                &&& control == FrameControl::Continue
                &&& *final(x_offset) == *old(x_offset)
                &&& *final(y_offset) == *old(y_offset)
                &&& *final(tone_hz) == *old(tone_hz)
            },
        },
{
    match event {
        EventType::Close => FrameControl::Quit,
        EventType::Keyboard(key, key_state) => {
            match KeyCode::from_code(key) {
                Some(KeyCode::UP) => {
                    *y_offset = *y_offset + 2;
                    let r = (*x_offset).checked_rem_euclid(512).unwrap();
                    *tone_hz = 512 + r as u32;
                    FrameControl::Continue
                },
                Some(KeyCode::LEFT) => {
                    *x_offset = *x_offset - 2;
                    FrameControl::Continue
                },
                Some(KeyCode::DOWN) => {
                    *y_offset = *y_offset - 2;
                    let r = (*x_offset).checked_rem_euclid(512).unwrap();
                    *tone_hz = 512 - r as u32;
                    FrameControl::Continue
                },
                Some(KeyCode::RIGHT) => {
                    *x_offset = *x_offset + 2;
                    FrameControl::Continue
                },
                Some(KeyCode::ESC) => {
                    if key_state == 0 {
                        FrameControl::EscapeReleased
                    } else if key_state == 1 {
                        FrameControl::EscapePressed
                    } else {
                        FrameControl::Continue
                    }
                },
                _ => FrameControl::Continue,
            }
        },
        EventType::NoEvent => FrameControl::Continue,
    }
}

/// Draws the gradient into the back buffer's memory, `memory`, with the
/// back buffer's pitch and pixel size.
pub fn render_weird_gradient(x_offset: i32, y_offset: i32, buffer: &OffscreenBuffer, memory: &mut [u8])
    requires
        gradient_drawable(
            old(memory)@.len() as int,
            buffer.pitch as usize as int,
            buffer.bytes_per_pixel as usize as int,
            x_offset,
            y_offset,
        ),
    ensures
        final(memory)@ == gradient_result(
            old(memory)@,
            buffer.pitch as usize as int,
            buffer.bytes_per_pixel as usize as int,
            x_offset,
            y_offset,
        ),
{
    crate::game::render_weird_gradient(memory, buffer.pitch as usize, buffer.bytes_per_pixel as usize, x_offset, y_offset);
}

/// Scan codes and keys correspond one to one: a key's code names the key,
/// and a code that names a key is that key's code.
pub proof fn law_key_codes_roundtrip(k: KeyCode, code: u32)
    ensures
        key_of_code(key_code_value(k)) == Some(k),
        key_of_code(code) == Some(k) ==> key_code_value(k) == code,
{
    lemma_key_of_own_code(k);
}

/// Each key drives its own button of the keyboard controller.
pub proof fn law_keys_drive_distinct_buttons(k1: KeyCode, k2: KeyCode)
    ensures
        0 <= key_button(k1) < BUTTON_COUNT,
        k1 != k2 ==> key_button(k1) != key_button(k2),
{
}

/// A button read from a device changes at most once per frame, and reading
/// the same value again reports no change.
pub proof fn law_digital_button_settles(previous: ButtonState, value: i32)
    ensures
        0 <= digital_button(previous, value).half_transition_count <= 1,
        digital_button(digital_button(previous, value), value).half_transition_count == 0,
        digital_button(digital_button(previous, value), value).ended_down == digital_button(previous, value).ended_down,
{
}

/// A key pressed and released within a frame leaves its button up, having
/// changed twice.
pub proof fn law_press_and_release(b: ButtonState)
    requires
        !b.ended_down,
        b.half_transition_count < i32::MAX - 1,
    ensures
        !after_keyboard_message(after_keyboard_message(b, true), false).ended_down,
        after_keyboard_message(after_keyboard_message(b, true), false).half_transition_count == b.half_transition_count + 2,
{
}

/// The tone the arrow keys set lies between 1 Hz and 1023 Hz, so the wave
/// period derived from it is always defined.
pub proof fn law_scroll_tone_in_range(x_offset: i32, up: bool)
    ensures
        1 <= scroll_tone(x_offset, up) <= 1023,
        up ==> scroll_tone(x_offset, up) >= 512,
        !up ==> scroll_tone(x_offset, up) <= 512,
{
}

/// The keyboard follows the seat: once the seat's capabilities are handled,
/// with the keyboard the seat hands out when asked kept, a keyboard is held
/// exactly when the seat has one, and the same capabilities announced again
/// call for no change and leave the keyboard as it is.
pub proof fn law_keyboard_follows_seat(held: usize, capabilities: u32, fresh: usize, fresh_again: usize)
    requires
        fresh != 0,
    ensures
        ({
            let after = keyboard_after_capabilities(held, capabilities, fresh);
            &&& (after != 0) == seat_has_keyboard(capabilities)
            &&& !seat_calls_for_change(after, capabilities)
            &&& keyboard_after_capabilities(after, capabilities, fresh_again) == after
        }),
{
}

/// Whether the seat has a keyboard depends on the keyboard bit alone: two
/// capability sets with the same keyboard bit give the same answer, so a
/// pointer or touch bit never changes it; the keyboard bit alone means a
/// keyboard, no bits mean none.
pub proof fn law_keyboard_bit_decides(c: u32, d: u32)
    ensures
        (c & 2) == (d & 2) ==> seat_has_keyboard(c) == seat_has_keyboard(d),
        seat_has_keyboard(c | 1) == seat_has_keyboard(c),
        seat_has_keyboard(c | 4) == seat_has_keyboard(c),
        seat_has_keyboard(c | 2),
        seat_has_keyboard(2),
        !seat_has_keyboard(0),
        !seat_has_keyboard(5),
{
    assert(((c | 1) & 2) == (c & 2)) by (bit_vector);
    assert(((c | 4) & 2) == (c & 2)) by (bit_vector);
    assert(((c | 2) & 2) != 0) by (bit_vector);
    assert((2u32 & 2u32) != 0) by (bit_vector);
    assert((0u32 & 2u32) == 0) by (bit_vector);
    assert((5u32 & 2u32) == 0) by (bit_vector);
}

/// A button read from a device is down exactly when the device reads 1,
/// whatever it was in the last frame: a reading of 0 releases a held button.
/// It counts one transition exactly when that differs from the last frame.
pub proof fn law_reading_decides_button(previous: ButtonState, other: ButtonState, value: i32)
    ensures
        digital_button(previous, value).ended_down == (value == 1),
        value == 0 ==> !digital_button(previous, value).ended_down,
        digital_button(previous, value).ended_down == digital_button(other, value).ended_down,
        digital_button(previous, value).half_transition_count == if digital_button(previous, value).ended_down
            != previous.ended_down {
            1int
        } else {
            0int
        },
{
}

/// Each gamepad button drives its own controller button: the face buttons
/// north, south, west and east drive "action" up, down, left and right; the
/// shoulders drive the shoulders; north also drives start and select drives
/// back; the move buttons come from the stick (with the d-pad overriding it)
/// passing its thresholds.
pub proof fn law_gamepad_buttons_map(r: GamepadReadings)
    ensures
        gamepad_value(r, ACTION_UP as int) == r.north,
        gamepad_value(r, ACTION_DOWN as int) == r.south,
        gamepad_value(r, ACTION_LEFT as int) == r.west,
        gamepad_value(r, ACTION_RIGHT as int) == r.east,
        gamepad_value(r, LEFT_SHOULDER as int) == r.shoulder_left,
        gamepad_value(r, RIGHT_SHOULDER as int) == r.shoulder_right,
        gamepad_value(r, START as int) == r.north,
        gamepad_value(r, BACK as int) == r.select,
        (gamepad_value(r, MOVE_LEFT as int) == 1) == effective_stick_x(r).below_threshold,
        (gamepad_value(r, MOVE_RIGHT as int) == 1) == effective_stick_x(r).above_threshold,
        (gamepad_value(r, MOVE_UP as int) == 1) == effective_stick_y(r).below_threshold,
        (gamepad_value(r, MOVE_DOWN as int) == 1) == effective_stick_y(r).above_threshold,
{
}

} // verus!
