//! The Wayland core protocol as the platform layer speaks it: the object
//! types, and the requests it sends, each as an opcode with its arguments.
use vstd::prelude::*;

use crate::handle::Handle;

verus! {

/// A connection to the compositor.
#[allow(non_camel_case_types)]
pub struct wl_display {
    _opaque: (),
}

/// The compositor global.
#[allow(non_camel_case_types)]
pub struct wl_compositor {
    _opaque: (),
}

/// A surface on screen.
#[allow(non_camel_case_types)]
pub struct wl_surface {
    _opaque: (),
}

/// The shared memory global.
#[allow(non_camel_case_types)]
pub struct wl_shm {
    _opaque: (),
}

/// A pool of shared memory that buffers are carved from.
#[allow(non_camel_case_types)]
pub struct wl_shm_pool {
    _opaque: (),
}

/// The registry of globals.
#[allow(non_camel_case_types)]
pub struct wl_registry {
    _opaque: (),
}

/// Any protocol object, as the client library sees it.
#[allow(non_camel_case_types)]
pub struct wl_proxy {
    _opaque: (),
}

/// Any protocol object, as an argument of a request.
#[allow(non_camel_case_types)]
pub struct wl_object {
    _opaque: (),
}

/// A buffer of pixels that a surface can show.
#[allow(non_camel_case_types)]
pub struct wl_buffer {
    _opaque: (),
}

/// A group of input devices.
#[allow(non_camel_case_types)]
pub struct wl_seat {
    _opaque: (),
}

/// A seat's keyboard.
#[allow(non_camel_case_types)]
pub struct wl_keyboard {
    _opaque: (),
}

/// Pixel formats of shared memory buffers.
pub enum SHMFormat {
    /// 32-bit pixels, blue in the lowest byte, then green, then red, then padding.
    XRGB8888,
}

/// The protocol's code for a pixel format.
pub open spec fn shm_format_code(f: SHMFormat) -> u32 {
    match f {
        SHMFormat::XRGB8888 => 1,
    }
}

impl SHMFormat {
    /// The protocol's code for this format.
    pub fn code(&self) -> (c: u32)
        ensures
            c == shm_format_code(*self),
    {
        match self {
            SHMFormat::XRGB8888 => 1,
        }
    }
}

/// Request opcodes of the core protocol.
pub const WL_DISPLAY_GET_REGISTRY: u32 = 1;
pub const WL_COMPOSITOR_CREATE_SURFACE: u32 = 0;
pub const WL_REGISTRY_BIND: u32 = 0;
pub const WL_SURFACE_ATTACH: u32 = 1;
pub const WL_SURFACE_COMMIT: u32 = 6;
pub const WL_SURFACE_DAMAGE_BUFFER: u32 = 9;
pub const WL_SHM_CREATE_POOL: u32 = 0;
pub const WL_SHM_POOL_CREATE_BUFFER: u32 = 0;
pub const WL_SHM_POOL_DESTROY: u32 = 1;
pub const WL_BUFFER_DESTROY: u32 = 0;
pub const WL_SEAT_GET_KEYBOARD: u32 = 1;
pub const WL_KEYBOARD_RELEASE: u32 = 0;
/// The seat capability bit that says the seat has a keyboard.
pub const WL_SEAT_CAPABILITY_KEYBOARD: u32 = 2;

/// The interfaces of the objects that requests create or bind.
#[derive(PartialEq, Eq, Structural, Clone, Copy, Debug)]
pub enum Interface {
    Registry,
    Compositor,
    Surface,
    Shm,
    ShmPool,
    Buffer,
    Seat,
    Keyboard,
    WmBase,
    XdgSurface,
    XdgToplevel,
}

/// One argument of a request.
#[derive(Debug)]
pub enum Argument {
    /// A signed integer.
    Int(i32),
    /// An unsigned integer.
    Uint(u32),
    /// The id of the object the request creates.
    NewId,
    /// A file descriptor.
    Fd(i32),
    /// An existing object, by address.
    Object(usize),
    /// A string, its bytes ending in a zero byte.
    Str(Vec<u8>),
    /// No string.
    NullStr,
    /// The name of an interface.
    InterfaceName(Interface),
}

/// A request to an object: its opcode, the interface of the object it creates
/// (if any), the version to create it with (the target's own when none is
/// given), whether it destroys the target, and its arguments.
#[derive(Debug)]
pub struct Request {
    pub target: usize,
    pub opcode: u32,
    pub interface: Option<Interface>,
    pub version: Option<u32>,
    pub destroy: bool,
    pub args: Vec<Argument>,
}

/// Whether `r` is the request `opcode` to `target`, creating an object of
/// `interface` at the target's version, not destroying the target.
pub open spec fn is_request(r: Request, target: usize, opcode: u32, interface: Option<Interface>) -> bool {
    &&& r.target == target
    &&& r.opcode == opcode
    &&& r.interface == interface
    &&& r.version.is_none()
    &&& !r.destroy
}

/// Asks the display for the registry of globals.
pub fn display_get_registry(display: Handle<wl_display>) -> (r: Request)
    ensures
        is_request(r, display.addr, WL_DISPLAY_GET_REGISTRY, Some(Interface::Registry)),
        r.args@.len() == 0,
{
    Request { target: display.addr, opcode: WL_DISPLAY_GET_REGISTRY, interface: Some(Interface::Registry), version: None, destroy: false, args: Vec::new() }
}

/// Asks the compositor for a new surface.
pub fn compositor_create_surface(compositor: Handle<wl_compositor>) -> (r: Request)
    ensures
        is_request(r, compositor.addr, WL_COMPOSITOR_CREATE_SURFACE, Some(Interface::Surface)),
        r.args@.len() == 0,
{
    Request { target: compositor.addr, opcode: WL_COMPOSITOR_CREATE_SURFACE, interface: Some(Interface::Surface), version: None, destroy: false, args: Vec::new() }
}

/// Asks the shared memory global for a pool over the file `fd` of `size` bytes.
pub fn shm_create_pool(shm: Handle<wl_shm>, fd: i32, size: i32) -> (r: Request)
    ensures
        is_request(r, shm.addr, WL_SHM_CREATE_POOL, Some(Interface::ShmPool)),
        r.args@.len() == 3,
        r.args@[0] is NewId,
        r.args@[1] == Argument::Fd(fd),
        r.args@[2] == Argument::Int(size),
{
    let args = vec![Argument::NewId, Argument::Fd(fd), Argument::Int(size)];
    Request { target: shm.addr, opcode: WL_SHM_CREATE_POOL, interface: Some(Interface::ShmPool), version: None, destroy: false, args }
}

/// Destroys a pool; the buffers made from it stay.
pub fn shm_pool_destroy(pool: Handle<wl_shm_pool>) -> (r: Request)
    ensures
        r.target == pool.addr,
        r.opcode == WL_SHM_POOL_DESTROY,
        r.interface.is_none(),
        r.version.is_none(),
        r.destroy,
        r.args@.len() == 0,
{
    Request { target: pool.addr, opcode: WL_SHM_POOL_DESTROY, interface: None, version: None, destroy: true, args: Vec::new() }
}

/// Destroys a buffer.
pub fn buffer_destroy(buffer: Handle<wl_buffer>) -> (r: Request)
    ensures
        r.target == buffer.addr,
        r.opcode == WL_BUFFER_DESTROY,
        r.interface.is_none(),
        r.version.is_none(),
        r.destroy,
        r.args@.len() == 0,
{
    Request { target: buffer.addr, opcode: WL_BUFFER_DESTROY, interface: None, version: None, destroy: true, args: Vec::new() }
}

/// Attaches `buffer` to `surface` at (`x`, `y`).
pub fn surface_attach(surface: Handle<wl_surface>, buffer: Handle<wl_buffer>, x: i32, y: i32) -> (r: Request)
    ensures
        is_request(r, surface.addr, WL_SURFACE_ATTACH, None),
        r.args@.len() == 3,
        r.args@[0] == Argument::Object(buffer.addr),
        r.args@[1] == Argument::Int(x),
        r.args@[2] == Argument::Int(y),
{
    let args = vec![Argument::Object(buffer.addr), Argument::Int(x), Argument::Int(y)];
    Request { target: surface.addr, opcode: WL_SURFACE_ATTACH, interface: None, version: None, destroy: false, args }
}

/// Makes the surface's pending state current.
pub fn surface_commit(surface: Handle<wl_surface>) -> (r: Request)
    ensures
        is_request(r, surface.addr, WL_SURFACE_COMMIT, None),
        r.args@.len() == 0,
{
    Request { target: surface.addr, opcode: WL_SURFACE_COMMIT, interface: None, version: None, destroy: false, args: Vec::new() }
}

/// Marks the rectangle at (`x`, `y`) of `width` by `height` buffer pixels as changed.
pub fn surface_damage_buffer(surface: Handle<wl_surface>, x: i32, y: i32, width: i32, height: i32) -> (r: Request)
    ensures
        is_request(r, surface.addr, WL_SURFACE_DAMAGE_BUFFER, None),
        r.args@.len() == 4,
        r.args@[0] == Argument::Int(x),
        r.args@[1] == Argument::Int(y),
        r.args@[2] == Argument::Int(width),
        r.args@[3] == Argument::Int(height),
{
    let args = vec![Argument::Int(x), Argument::Int(y), Argument::Int(width), Argument::Int(height)];
    Request { target: surface.addr, opcode: WL_SURFACE_DAMAGE_BUFFER, interface: None, version: None, destroy: false, args }
}

/// Asks a pool for a buffer of `width` by `height` pixels, rows `stride` bytes
/// apart, starting `offset` bytes into the pool, in pixel format `format`.
pub fn shm_pool_create_buffer(pool: Handle<wl_shm_pool>, offset: i32, width: i32, height: i32, stride: i32, format: u32) -> (r: Request)
    ensures
        is_request(r, pool.addr, WL_SHM_POOL_CREATE_BUFFER, Some(Interface::Buffer)),
        r.args@.len() == 6,
        r.args@[0] is NewId,
        r.args@[1] == Argument::Int(offset),
        r.args@[2] == Argument::Int(width),
        r.args@[3] == Argument::Int(height),
        r.args@[4] == Argument::Int(stride),
        r.args@[5] == Argument::Uint(format),
{
    let args = vec![
        Argument::NewId,
        Argument::Int(offset),
        Argument::Int(width),
        Argument::Int(height),
        Argument::Int(stride),
        Argument::Uint(format),
    ];
    Request { target: pool.addr, opcode: WL_SHM_POOL_CREATE_BUFFER, interface: Some(Interface::Buffer), version: None, destroy: false, args }
}

/// Binds the global numbered `name` as an object of `interface` at `version`.
pub fn registry_bind(registry: Handle<wl_registry>, name: u32, interface: Interface, version: u32) -> (r: Request)
    ensures
        r.target == registry.addr,
        r.opcode == WL_REGISTRY_BIND,
        r.interface == Some(interface),
        r.version == Some(version),
        !r.destroy,
        r.args@.len() == 3,
        r.args@[0] == Argument::Uint(name),
        r.args@[1] == Argument::InterfaceName(interface),
        r.args@[2] == Argument::Uint(version),
{
    let args = vec![Argument::Uint(name), Argument::InterfaceName(interface), Argument::Uint(version)];
    Request { target: registry.addr, opcode: WL_REGISTRY_BIND, interface: Some(interface), version: Some(version), destroy: false, args }
}

/// Asks a seat for its keyboard.
pub fn seat_get_keyboard(seat: Handle<wl_seat>) -> (r: Request)
    ensures
        is_request(r, seat.addr, WL_SEAT_GET_KEYBOARD, Some(Interface::Keyboard)),
        r.args@.len() == 1,
        r.args@[0] is NewId,
{
    let args = vec![Argument::NewId];
    Request { target: seat.addr, opcode: WL_SEAT_GET_KEYBOARD, interface: Some(Interface::Keyboard), version: None, destroy: false, args }
}

/// Releases a keyboard.
pub fn keyboard_release(keyboard: Handle<wl_keyboard>) -> (r: Request)
    ensures
        r.target == keyboard.addr,
        r.opcode == WL_KEYBOARD_RELEASE,
        r.interface.is_none(),
        r.version.is_none(),
        r.destroy,
        r.args@.len() == 0,
{
    Request { target: keyboard.addr, opcode: WL_KEYBOARD_RELEASE, interface: None, version: None, destroy: true, args: Vec::new() }
}

/// The globals the platform layer binds.
#[derive(PartialEq, Eq, Structural, Clone, Copy, Debug)]
pub enum Global {
    Compositor,
    Shm,
    WmBase,
    Seat,
}

/// Whether two byte strings are equal.
pub fn bytes_equal(a: &[u8], b: &[u8]) -> (r: bool)
    ensures
        r == (a@ == b@),
{
    if a.len() != b.len() {
        return false;
    }
    let mut i: usize = 0;
    while i < a.len()
        invariant
            a@.len() == b@.len(),
            i <= a@.len(),
            forall|j: int| 0 <= j < i ==> a@[j] == b@[j],
        decreases a@.len() - i,
    {
        if a[i] != b[i] {
            return false;
        }
        i = i + 1;
    }
    assert(a@ =~= b@);
    true
}

/// Which of the globals the platform layer binds a registry announcement is,
/// by the announced interface name and the names of the four interfaces.
pub fn registry_global(interface: &[u8], compositor: &[u8], shm: &[u8], wm_base: &[u8], seat: &[u8]) -> (g: Option<Global>)
    ensures
        g == if interface@ == compositor@ {
            Some(Global::Compositor)
        } else if interface@ == shm@ {
            Some(Global::Shm)
        } else if interface@ == wm_base@ {
            Some(Global::WmBase)
        } else if interface@ == seat@ {
            Some(Global::Seat)
        } else {
            None
        },
{
    if bytes_equal(interface, compositor) {
        Some(Global::Compositor)
    } else if bytes_equal(interface, shm) {
        Some(Global::Shm)
    } else if bytes_equal(interface, wm_base) {
        Some(Global::WmBase)
    } else if bytes_equal(interface, seat) {
        Some(Global::Seat)
    } else {
        None
    }
}

/// The interface of the object bound for a global.
pub fn global_interface(g: Global) -> (i: Interface)
    ensures
        i == match g {
            Global::Compositor => Interface::Compositor,
            Global::Shm => Interface::Shm,
            Global::WmBase => Interface::WmBase,
            Global::Seat => Interface::Seat,
        },
{
    match g {
        Global::Compositor => Interface::Compositor,
        Global::Shm => Interface::Shm,
        Global::WmBase => Interface::WmBase,
        Global::Seat => Interface::Seat,
    }
}

/// The poll event bit that says the connection has data to read.
pub const POLLIN: i16 = 1;

/// After polling the connection without waiting: read the pending events
/// when the poll succeeded and saw any event, else cancel the read.
/// The only event expected is readable data.
pub fn read_after_poll(poll_result: i32, revents: i16) -> (read: bool)
    requires
        !(poll_result == -1 || revents == 0) ==> revents == POLLIN,
    ensures
        read == !(poll_result == -1 || revents == 0),
{
    !(poll_result == -1 || revents == 0)
}

/// After polling the connection while waiting for it: read the pending events
/// when the poll succeeded, else cancel the read. The only event expected is
/// readable data.
pub fn read_after_blocking_poll(poll_result: i32, revents: i16) -> (read: bool)
    requires
        poll_result != -1 ==> revents == POLLIN,
    ensures
        read == (poll_result != -1),
{
    poll_result != -1
}

} // verus!
