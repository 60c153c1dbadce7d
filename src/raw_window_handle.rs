//! Classification of tagged native window handles and dispatch to the
//! matching surface constructor and extension pair.
use vstd::prelude::*;

use crate::{
    android_extension, appkit_layer_source, appkit_layer_source_spec, descriptor_extension,
    metal_descriptor_spec, metal_extension, required_extensions_android, required_extensions_ios,
    required_extensions_macos, required_extensions_wayland, required_extensions_win32,
    required_extensions_xcb, required_extensions_xlib, surface_extension, uikit_layer_source,
    uikit_layer_source_spec, wayland_extension, win32_extension, xcb_extension, xlib_extension,
    LayerSource, MetalLayer, SurfaceDescriptor, SurfaceError,
};

verus! {

/// A windowing-system family, each with its own surface constructor.
#[derive(Clone, Copy, Debug, PartialEq, Eq, Structural)]
pub enum Variant {
    MacOS,
    IOS,
    Xlib,
    Xcb,
    Wayland,
    Windows,
    Android,
}

/// An operating target, which decides the windowing systems reachable on it.
#[derive(Clone, Copy, Debug, PartialEq, Eq, Structural)]
pub enum Platform {
    MacOS,
    IOS,
    /// Linux and the BSDs.
    Unix,
    Windows,
    Android,
    /// WebAssembly in a browser, where no surface constructor is reachable.
    Web,
}

/// A native window, tagged with its windowing system. Each reference is the
/// address of the native object, `0` for a null reference. The references
/// must stay valid while a surface is created from the handle.
#[derive(Clone, Copy, Debug, PartialEq, Eq, Structural)]
pub enum WindowHandle {
    MacOS { ns_window: usize, ns_view: usize },
    IOS { ui_window: usize, ui_view: usize },
    Xlib { window: u64, display: usize },
    Xcb { window: u32, connection: usize },
    Wayland { surface: usize, display: usize },
    Windows { hwnd: usize, hinstance: usize },
    Android { a_native_window: usize },
}

/// What surface creation does next for a handle.
#[derive(Clone, Copy, Debug, PartialEq, Eq, Structural)]
pub enum SurfacePlan {
    /// Call the constructor of this descriptor.
    Create(SurfaceDescriptor),
    /// First obtain a compositing layer from this source and attach it to the
    /// view (a change to the native view that the caller must not repeat),
    /// then build the Metal descriptor from the outcome.
    PrepareLayer(LayerSource),
}

/// Whether windows of variant `v` can be given a surface on platform `p`.
pub open spec fn platform_supports(p: Platform, v: Variant) -> bool {
    match v {
        Variant::MacOS => p == Platform::MacOS,
        Variant::IOS => p == Platform::IOS,
        Variant::Xlib | Variant::Xcb | Variant::Wayland => p == Platform::Unix,
        Variant::Windows => p == Platform::Windows,
        Variant::Android => p == Platform::Android,
    }
}

/// The variant tag of a handle.
pub open spec fn variant_of(h: WindowHandle) -> Variant {
    match h {
        WindowHandle::MacOS { .. } => Variant::MacOS,
        WindowHandle::IOS { .. } => Variant::IOS,
        WindowHandle::Xlib { .. } => Variant::Xlib,
        WindowHandle::Xcb { .. } => Variant::Xcb,
        WindowHandle::Wayland { .. } => Variant::Wayland,
        WindowHandle::Windows { .. } => Variant::Windows,
        WindowHandle::Android { .. } => Variant::Android,
    }
}

/// The platform extension of the constructor of variant `v`.
pub open spec fn variant_extension(v: Variant) -> Seq<char> {
    match v {
        Variant::MacOS | Variant::IOS => metal_extension(),
        Variant::Xlib => xlib_extension(),
        Variant::Xcb => xcb_extension(),
        Variant::Wayland => wayland_extension(),
        Variant::Windows => win32_extension(),
        Variant::Android => android_extension(),
    }
}

/// The extensions reported for variant `v`.
pub open spec fn required_extension_set(v: Variant) -> Set<Seq<char>> {
    set![surface_extension(), variant_extension(v)]
}

/// The extensions the constructor consuming descriptor `d` depends on: the
/// generic surface extension, which owns the created surface, and the
/// extension that provides the constructor.
pub open spec fn descriptor_dependencies(d: SurfaceDescriptor) -> Set<Seq<char>> {
    set![surface_extension(), descriptor_extension(d)]
}

/// The plan for a handle whose variant is reachable.
pub open spec fn plan_of(h: WindowHandle) -> Result<SurfacePlan, SurfaceError> {
    match h {
        WindowHandle::MacOS { ns_window, ns_view } => match appkit_layer_source_spec(
            ns_window,
            ns_view,
        ) {
            Ok(s) => Ok(SurfacePlan::PrepareLayer(s)),
            Err(e) => Err(e),
        },
        WindowHandle::IOS { ui_window, ui_view } => match uikit_layer_source_spec(
            ui_window,
            ui_view,
        ) {
            Ok(s) => Ok(SurfacePlan::PrepareLayer(s)),
            Err(e) => Err(e),
        },
        WindowHandle::Xlib { window, display } => Ok(
            SurfacePlan::Create(SurfaceDescriptor::Xlib { dpy: display, window }),
        ),
        WindowHandle::Xcb { window, connection } => Ok(
            SurfacePlan::Create(SurfaceDescriptor::Xcb { connection, window }),
        ),
        WindowHandle::Wayland { surface, display } => Ok(
            SurfacePlan::Create(SurfaceDescriptor::Wayland { display, surface }),
        ),
        WindowHandle::Windows { hwnd, hinstance } => Ok(
            SurfacePlan::Create(SurfaceDescriptor::Win32 { hinstance, hwnd }),
        ),
        WindowHandle::Android { a_native_window } => Ok(
            SurfacePlan::Create(SurfaceDescriptor::Android { window: a_native_window }),
        ),
    }
}

/// The variant of `h`, or `UnsupportedVariant` when `p` cannot reach it.
pub open spec fn classify_spec(h: WindowHandle, p: Platform) -> Result<Variant, SurfaceError> {
    if platform_supports(p, variant_of(h)) {
        Ok(variant_of(h))
    } else {
        Err(SurfaceError::UnsupportedVariant)
    }
}

/// The plan for handle `h` on platform `p`.
pub open spec fn dispatch(h: WindowHandle, p: Platform) -> Result<SurfacePlan, SurfaceError> {
    if platform_supports(p, variant_of(h)) {
        plan_of(h)
    } else {
        Err(SurfaceError::UnsupportedVariant)
    }
}

/// The descriptor that surface creation hands to Vulkan for `h` on `p`, given
/// the outcome of the layer step where the plan asks for one.
pub open spec fn descriptor_for(h: WindowHandle, p: Platform, layer: MetalLayer) -> Result<
    SurfaceDescriptor,
    SurfaceError,
> {
    match dispatch(h, p) {
        Ok(SurfacePlan::Create(d)) => Ok(d),
        Ok(SurfacePlan::PrepareLayer(_)) => metal_descriptor_spec(layer),
        Err(e) => Err(e),
    }
}

impl Platform {
    /// Whether windows of variant `v` can be given a surface on this platform.
    pub fn supports(&self, v: Variant) -> (r: bool)
        ensures
            r == platform_supports(*self, v),
    {
        match v {
            Variant::MacOS => matches!(self, Platform::MacOS),
            Variant::IOS => matches!(self, Platform::IOS),
            Variant::Xlib | Variant::Xcb | Variant::Wayland => matches!(self, Platform::Unix),
            Variant::Windows => matches!(self, Platform::Windows),
            Variant::Android => matches!(self, Platform::Android),
        }
    }
}

impl WindowHandle {
    /// The variant tag of this handle.
    pub fn variant(&self) -> (r: Variant)
        ensures
            r == variant_of(*self),
    {
        match self {
            WindowHandle::MacOS { .. } => Variant::MacOS,
            WindowHandle::IOS { .. } => Variant::IOS,
            WindowHandle::Xlib { .. } => Variant::Xlib,
            WindowHandle::Xcb { .. } => Variant::Xcb,
            WindowHandle::Wayland { .. } => Variant::Wayland,
            WindowHandle::Windows { .. } => Variant::Windows,
            WindowHandle::Android { .. } => Variant::Android,
        }
    }
}

/// Classifies `handle` on `platform`: its variant, or `UnsupportedVariant`
/// when no surface constructor for that variant is reachable there.
pub fn classify(handle: &WindowHandle, platform: Platform) -> (r: Result<Variant, SurfaceError>)
    ensures
        r == classify_spec(*handle, platform),
{
    let v = handle.variant();
    if platform.supports(v) {
        Ok(v)
    } else {
        Err(SurfaceError::UnsupportedVariant)
    }
}

/// Decides how a surface is created for `handle` on `platform`: which
/// constructor runs and with which descriptor, or, for the layered
/// compositors, where the compositing layer comes from.
pub fn surface_plan(handle: &WindowHandle, platform: Platform) -> (r: Result<
    SurfacePlan,
    SurfaceError,
>)
    ensures
        r == dispatch(*handle, platform),
{
    let _ = classify(handle, platform)?;
    match *handle {
        WindowHandle::MacOS { ns_window, ns_view } => {
            let source = appkit_layer_source(ns_window, ns_view)?;
            Ok(SurfacePlan::PrepareLayer(source))
        },
        WindowHandle::IOS { ui_window, ui_view } => {
            let source = uikit_layer_source(ui_window, ui_view)?;
            Ok(SurfacePlan::PrepareLayer(source))
        },
        WindowHandle::Xlib { window, display } => Ok(
            SurfacePlan::Create(SurfaceDescriptor::Xlib { dpy: display, window }),
        ),
        WindowHandle::Xcb { window, connection } => Ok(
            SurfacePlan::Create(SurfaceDescriptor::Xcb { connection, window }),
        ),
        WindowHandle::Wayland { surface, display } => Ok(
            SurfacePlan::Create(SurfaceDescriptor::Wayland { display, surface }),
        ),
        WindowHandle::Windows { hwnd, hinstance } => Ok(
            SurfacePlan::Create(SurfaceDescriptor::Win32 { hinstance, hwnd }),
        ),
        WindowHandle::Android { a_native_window } => Ok(
            SurfacePlan::Create(SurfaceDescriptor::Android { window: a_native_window }),
        ),
    }
}

impl Variant {
    /// The two extensions an instance needs to create surfaces of this
    /// variant: the generic surface extension first, then the platform
    /// extension.
    pub fn required_extensions(&self) -> (r: [&'static str; 2])
        ensures
            r@.len() == 2,
            r[0]@ == surface_extension(),
            r[1]@ == variant_extension(*self),
    {
        match self {
            Variant::MacOS => required_extensions_macos(),
            Variant::IOS => required_extensions_ios(),
            Variant::Xlib => required_extensions_xlib(),
            Variant::Xcb => required_extensions_xcb(),
            Variant::Wayland => required_extensions_wayland(),
            Variant::Windows => required_extensions_win32(),
            Variant::Android => required_extensions_android(),
        }
    }
}

/// The two extensions an instance needs to create a surface for `handle` on
/// `platform`, generic surface extension first, or `UnsupportedVariant` when
/// no surface constructor for the handle's variant is reachable there.
pub fn required_extensions(handle: &WindowHandle, platform: Platform) -> (r: Result<
    [&'static str; 2],
    SurfaceError,
>)
    ensures
        platform_supports(platform, variant_of(*handle)) ==> (r matches Ok(names)
            && names@.len() == 2 && names[0]@ == surface_extension() && names[1]@
            == variant_extension(variant_of(*handle))),
        !platform_supports(platform, variant_of(*handle)) ==> r == Err::<
            [&'static str; 2],
            SurfaceError,
        >(SurfaceError::UnsupportedVariant),
{
    let variant = classify(handle, platform)?;
    Ok(variant.required_extensions())
}

/// Every descriptor that surface creation hands to Vulkan depends only on
/// extensions that `required_extensions` reports for the handle's variant.
pub proof fn lemma_descriptor_needs_only_reported_extensions(
    h: WindowHandle,
    p: Platform,
    layer: MetalLayer,
)
    ensures
        descriptor_for(h, p, layer) matches Ok(d) ==> descriptor_dependencies(d).subset_of(
            required_extension_set(variant_of(h)),
        ),
{
}

} // verus!
