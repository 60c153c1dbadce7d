//! Resolution of the handles that winit reports for its windows.
use vstd::prelude::*;

use crate::raw_window_handle::{
    dispatch, platform_supports, required_extensions as handle_extensions,
    surface_plan as handle_plan, variant_extension, variant_of, Platform, SurfacePlan, WindowHandle,
};
use crate::{surface_extension, SurfaceError};

pub mod unix;

verus! {

/// What winit reports about one of its windows: its raw handle and, for an
/// X11 window, the Xcb connection behind its Xlib display, if it has one.
#[derive(Clone, Copy, Debug, PartialEq, Eq, Structural)]
pub struct WinitWindow {
    pub handle: WindowHandle,
    pub xcb_connection: Option<usize>,
}

/// The handle a winit window is given a surface through on `platform`. On
/// Unix, `use_xcb` chooses Xcb over Xlib for X11 windows; elsewhere the raw
/// handle is used as it is.
pub open spec fn resolve_spec(w: WinitWindow, platform: Platform, use_xcb: bool) -> Result<
    WindowHandle,
    SurfaceError,
> {
    if platform == Platform::Unix {
        unix::resolve_unix(w, use_xcb)
    } else {
        Ok(w.handle)
    }
}

/// The plan for a winit window: its resolved handle, dispatched on `platform`.
pub open spec fn window_dispatch(w: WinitWindow, platform: Platform, use_xcb: bool) -> Result<
    SurfacePlan,
    SurfaceError,
> {
    match resolve_spec(w, platform, use_xcb) {
        Ok(h) => dispatch(h, platform),
        Err(e) => Err(e),
    }
}

/// Resolves the handle of `window` on `platform`, choosing between Xlib and
/// Xcb on Unix by `use_xcb`.
pub fn resolve_window_handle(window: &WinitWindow, platform: Platform, use_xcb: bool) -> (r: Result<
    WindowHandle,
    SurfaceError,
>)
    ensures
        r == resolve_spec(*window, platform, use_xcb),
{
    match platform {
        Platform::Unix => unix::resolve_window_handle(window, use_xcb),
        _ => Ok(window.handle),
    }
}

/// Decides how a surface is created for `window` on `platform`.
pub fn surface_plan(window: &WinitWindow, platform: Platform, use_xcb: bool) -> (r: Result<
    SurfacePlan,
    SurfaceError,
>)
    ensures
        r == window_dispatch(*window, platform, use_xcb),
{
    let handle = resolve_window_handle(window, platform, use_xcb)?;
    handle_plan(&handle, platform)
}

/// The two extensions an instance needs to create a surface for `window` on
/// `platform`, generic surface extension first; the error that resolving its
/// handle gives; or `UnsupportedVariant` when the resolved handle's variant is
/// not reachable on `platform`.
pub fn required_extensions(window: &WinitWindow, platform: Platform, use_xcb: bool) -> (r: Result<
    [&'static str; 2],
    SurfaceError,
>)
    ensures
        resolve_spec(*window, platform, use_xcb) matches Err(e) ==> r == Err::<[&'static str; 2], SurfaceError>(e),
        resolve_spec(*window, platform, use_xcb) matches Ok(h) ==> if platform_supports(platform, variant_of(h)) {
            r matches Ok(names) && names@.len() == 2 && names[0]@ == surface_extension()
                && names[1]@ == variant_extension(variant_of(h))
        } else {
            r == Err::<[&'static str; 2], SurfaceError>(SurfaceError::UnsupportedVariant)
        },
{
    let handle = resolve_window_handle(window, platform, use_xcb)?;
    handle_extensions(&handle, platform)
}

/// Classifying a window is idempotent: the handle it resolves to resolves to
/// itself under the same preference, and dispatching it selects the same
/// plan as dispatching the window did.
pub proof fn lemma_classification_idempotent(w: WinitWindow, platform: Platform, use_xcb: bool)
    ensures
        resolve_spec(w, platform, use_xcb) matches Ok(h) ==> {
            let again = WinitWindow { handle: h, xcb_connection: w.xcb_connection };
            &&& resolve_spec(again, platform, use_xcb) == Ok::<WindowHandle, SurfaceError>(h)
            &&& window_dispatch(again, platform, use_xcb) == window_dispatch(w, platform, use_xcb)
        },
{
}

} // verus!
