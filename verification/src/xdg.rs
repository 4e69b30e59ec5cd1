//! The desktop window protocol: window manager, window surfaces and
//! top-level windows, and the requests the platform layer sends them.
use vstd::prelude::*;

use vstd::string::StringSliceAdditionalSpecFns;

use crate::handle::Handle;
use crate::wl::{is_request, wl_surface, Argument, Interface, Request};

verus! {

/// The window manager global.
#[allow(non_camel_case_types)]
pub struct xdg_wm_base {
    _opaque: (),
}

/// A surface given a window role.
#[allow(non_camel_case_types)]
pub struct xdg_surface {
    _opaque: (),
}

/// A top-level window.
#[allow(non_camel_case_types)]
pub struct xdg_toplevel {
    _opaque: (),
}

/// Request opcodes of the window protocol.
pub const XDG_WM_BASE_GET_XDG_SURFACE: u32 = 2;
pub const XDG_WM_BASE_PONG: u32 = 3;
pub const XDG_SURFACE_GET_TOPLEVEL: u32 = 1;
pub const XDG_SURFACE_ACK_CONFIGURE: u32 = 4;
pub const XDG_TOPLEVEL_SET_TITLE: u32 = 2;

/// Gives `surface` a window role.
pub fn wm_get_xdg_surface(wm: Handle<xdg_wm_base>, surface: Handle<wl_surface>) -> (r: Request)
    ensures
        is_request(r, wm.addr, XDG_WM_BASE_GET_XDG_SURFACE, Some(Interface::XdgSurface)),
        r.args@.len() == 2,
        r.args@[0] is NewId,
        r.args@[1] == Argument::Object(surface.addr),
{
    let args = vec![Argument::NewId, Argument::Object(surface.addr)];
    Request { target: wm.addr, opcode: XDG_WM_BASE_GET_XDG_SURFACE, interface: Some(Interface::XdgSurface), version: None, destroy: false, args }
}

/// Makes a window surface a top-level window.
pub fn surface_get_toplevel(surface: Handle<xdg_surface>) -> (r: Request)
    ensures
        is_request(r, surface.addr, XDG_SURFACE_GET_TOPLEVEL, Some(Interface::XdgToplevel)),
        r.args@.len() == 0,
{
    Request { target: surface.addr, opcode: XDG_SURFACE_GET_TOPLEVEL, interface: Some(Interface::XdgToplevel), version: None, destroy: false, args: Vec::new() }
}

/// Whether `title` can be sent as a window title: empty (no title), or its
/// bytes ending in a zero byte.
pub open spec fn sendable_title(title: &str) -> bool {
    title.spec_bytes().len() == 0 || title.spec_bytes().last() == 0
}

/// Sets the window title; an empty title sends no string.
pub fn toplevel_set_title(toplevel: Handle<xdg_toplevel>, title: &str) -> (r: Request)
    requires
        sendable_title(title),
    ensures
        is_request(r, toplevel.addr, XDG_TOPLEVEL_SET_TITLE, Some(Interface::XdgToplevel)),
        r.args@.len() == 1,
        title.spec_bytes().len() == 0 ==> r.args@[0] is NullStr,
        title.spec_bytes().len() != 0 ==> (r.args@[0] matches Argument::Str(s) && s@ == title.spec_bytes()),
{
    let bytes = title.as_bytes();
    let arg = if bytes.len() == 0 {
        Argument::NullStr
    } else {
        Argument::Str(vstd::slice::slice_to_vec(bytes))
    };
    let args = vec![arg];
    Request { target: toplevel.addr, opcode: XDG_TOPLEVEL_SET_TITLE, interface: Some(Interface::XdgToplevel), version: None, destroy: false, args }
}

/// Answers the window manager's ping `serial`.
pub fn wm_pong(wm: Handle<xdg_wm_base>, serial: u32) -> (r: Request)
    ensures
        is_request(r, wm.addr, XDG_WM_BASE_PONG, None),
        r.args@.len() == 1,
        r.args@[0] == Argument::Uint(serial),
{
    let args = vec![Argument::Uint(serial)];
    Request { target: wm.addr, opcode: XDG_WM_BASE_PONG, interface: None, version: None, destroy: false, args }
}

/// Acknowledges the window configuration `serial`.
pub fn surface_ack_configure(surface: Handle<xdg_surface>, serial: u32) -> (r: Request)
    ensures
        is_request(r, surface.addr, XDG_SURFACE_ACK_CONFIGURE, None),
        r.args@.len() == 1,
        r.args@[0] == Argument::Uint(serial),
{
    let args = vec![Argument::Uint(serial)];
    Request { target: surface.addr, opcode: XDG_SURFACE_ACK_CONFIGURE, interface: None, version: None, destroy: false, args }
}

} // verus!
