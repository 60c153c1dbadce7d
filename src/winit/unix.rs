//! Transport choice for X11 windows on Unix, where one window can be reached
//! both through Xlib and through Xcb.
use vstd::prelude::*;

use crate::raw_window_handle::{
    dispatch, platform_supports, required_extensions as handle_extensions,
    surface_plan as handle_plan, variant_extension, variant_of, Platform, SurfacePlan, Variant, WindowHandle,
};
use crate::winit::{window_dispatch, WinitWindow};
use crate::{surface_extension, xcb_extension, SurfaceDescriptor, SurfaceError};

verus! {

/// The handle an X11 window is given a surface through. With `use_xcb` an
/// Xlib window is moved to Xcb, which needs an Xcb connection and a window id
/// that fits Xcb's 32 bits; without it the Xlib display must be present. A
/// missing transport is an error, never a fall back to the other one. Other
/// handles are used as they are.
pub open spec fn resolve_unix(w: WinitWindow, use_xcb: bool) -> Result<WindowHandle, SurfaceError> {
    match w.handle {
        WindowHandle::Xlib { window, display } => if use_xcb {
            match w.xcb_connection {
                Some(c) => if c != 0 && window <= u32::MAX {
                    Ok(WindowHandle::Xcb { window: window as u32, connection: c })
                } else {
                    Err(SurfaceError::UnsupportedTransport)
                },
                None => Err(SurfaceError::UnsupportedTransport),
            }
        } else if display != 0 {
            Ok(w.handle)
        } else {
            Err(SurfaceError::UnsupportedTransport)
        },
        _ => Ok(w.handle),
    }
}

/// Resolves the handle of an X11 `window`; `use_xcb` chooses Xcb over Xlib
/// (Wayland windows are not affected).
pub fn resolve_window_handle(window: &WinitWindow, use_xcb: bool) -> (r: Result<
    WindowHandle,
    SurfaceError,
>)
    ensures
        r == resolve_unix(*window, use_xcb),
{
    match window.handle {
        WindowHandle::Xlib { window: id, display } => {
            if use_xcb {
                match window.xcb_connection {
                    Some(c) => {
                        if c != 0 && id <= u32::MAX as u64 {
                            Ok(WindowHandle::Xcb { window: id as u32, connection: c })
                        } else {
                            Err(SurfaceError::UnsupportedTransport)
                        }
                    },
                    None => Err(SurfaceError::UnsupportedTransport),
                }
            } else if display != 0 {
                Ok(window.handle)
            } else {
                Err(SurfaceError::UnsupportedTransport)
            }
        },
        _ => Ok(window.handle),
    }
}

/// Decides how a surface is created for `window` on Unix.
pub fn surface_plan(window: &WinitWindow, use_xcb: bool) -> (r: Result<SurfacePlan, SurfaceError>)
    ensures
        resolve_unix(*window, use_xcb) matches Err(e) ==> r == Err::<SurfacePlan, SurfaceError>(e),
        resolve_unix(*window, use_xcb) matches Ok(h) ==> r == dispatch(h, Platform::Unix),
{
    let handle = resolve_window_handle(window, use_xcb)?;
    handle_plan(&handle, Platform::Unix)
}

/// The two extensions an instance needs to create a surface for `window` on
/// Unix, generic surface extension first; the error that resolving its handle
/// gives; or `UnsupportedVariant` when the resolved handle is not a Unix one.
pub fn required_extensions(window: &WinitWindow, use_xcb: bool) -> (r: Result<
    [&'static str; 2],
    SurfaceError,
>)
    ensures
        resolve_unix(*window, use_xcb) matches Err(e) ==> r == Err::<[&'static str; 2], SurfaceError>(e),
        resolve_unix(*window, use_xcb) matches Ok(h) ==> if platform_supports(Platform::Unix, variant_of(h)) {
            r matches Ok(names) && names@.len() == 2 && names[0]@ == surface_extension()
                && names[1]@ == variant_extension(variant_of(h))
        } else {
            r == Err::<[&'static str; 2], SurfaceError>(SurfaceError::UnsupportedVariant)
        },
{
    let handle = resolve_window_handle(window, use_xcb)?;
    handle_extensions(&handle, Platform::Unix)
}

/// When Xcb is preferred but the X11 window has no Xcb connection, resolving
/// and dispatching it fail with `UnsupportedTransport` and never fall back to
/// Xlib, whether or not its Xlib display is present.
pub proof fn lemma_no_fallback_to_xlib(w: WinitWindow)
    requires
        w.handle is Xlib,
        w.xcb_connection is None || w.xcb_connection == Some(0usize),
    ensures
        resolve_unix(w, true) == Err::<WindowHandle, SurfaceError>(SurfaceError::UnsupportedTransport),
        window_dispatch(w, Platform::Unix, true) == Err::<SurfacePlan, SurfaceError>(
            SurfaceError::UnsupportedTransport,
        ),
{
}

/// An X11 window that has both an Xlib display and an Xcb connection, with a
/// window id that fits Xcb's 32 bits, is given its surface through Xcb when
/// Xcb is preferred: the same window id on its Xcb connection, created by the
/// Xcb constructor, whose extension is the one reported for the resolved
/// handle.
pub proof fn lemma_xcb_preferred_with_both_transports(w: WinitWindow)
    requires
        w.handle matches WindowHandle::Xlib { window, display } && display != 0 && window
            <= u32::MAX,
        w.xcb_connection matches Some(c) && c != 0,
    ensures
        ({
            let id = w.handle->Xlib_window as u32;
            let c = w.xcb_connection->Some_0;
            &&& resolve_unix(w, true) == Ok::<WindowHandle, SurfaceError>(
                WindowHandle::Xcb { window: id, connection: c },
            )
            &&& window_dispatch(w, Platform::Unix, true) == Ok::<SurfacePlan, SurfaceError>(
                SurfacePlan::Create(SurfaceDescriptor::Xcb { connection: c, window: id }),
            )
            &&& id as u64 == w.handle->Xlib_window
            &&& platform_supports(Platform::Unix, Variant::Xcb)
            &&& variant_extension(Variant::Xcb) == xcb_extension()
        }),
{
}

} // verus!
