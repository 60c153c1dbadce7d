//! Platform-specific glue between native windows and Vulkan surfaces.
//!
//! The library classifies a native window handle, decides which surface
//! constructor applies to it, builds that constructor's creation descriptor
//! and reports the instance extensions the constructor needs. Native
//! references (window, view, display and connection pointers) are carried as
//! their addresses; the address `0` stands for a null reference.
use vstd::prelude::*;

pub mod raw_window_handle;
pub mod winit;

verus! {

/// Whether Xcb is preferred over Xlib for X11 windows when the caller does not
/// say otherwise.
pub const UNIX_USE_XCB_DEFAULT: bool = false;

/// Why a surface could not be produced for a window.
#[derive(Clone, Copy, Debug, PartialEq, Eq, Structural)]
pub enum SurfaceError {
    /// The handle's windowing system has no surface constructor on the target.
    UnsupportedVariant,
    /// The preferred transport of a multi-transport window is not available.
    UnsupportedTransport,
    /// No compositing layer could be obtained for a layered window.
    LayerAttachment,
    /// The Vulkan creation call failed with this result code.
    Native(i32),
}

/// The creation descriptor handed to one of Vulkan's surface constructors.
#[derive(Clone, Copy, Debug, PartialEq, Eq, Structural)]
pub enum SurfaceDescriptor {
    /// `VkMetalSurfaceCreateInfoEXT`: a `CAMetalLayer`.
    Metal { layer: usize },
    /// `VkXlibSurfaceCreateInfoKHR`: an Xlib display and window.
    Xlib { dpy: usize, window: u64 },
    /// `VkXcbSurfaceCreateInfoKHR`: an Xcb connection and window.
    Xcb { connection: usize, window: u32 },
    /// `VkWaylandSurfaceCreateInfoKHR`: a Wayland display and surface.
    Wayland { display: usize, surface: usize },
    /// `VkWin32SurfaceCreateInfoKHR`: a module instance and window.
    Win32 { hinstance: usize, hwnd: usize },
    /// `VkAndroidSurfaceCreateInfoKHR`: a native window.
    Android { window: usize },
}

/// The native object a compositing layer is to be obtained from.
#[derive(Clone, Copy, Debug, PartialEq, Eq, Structural)]
pub enum LayerSource {
    /// An AppKit `NSView`.
    NsView(usize),
    /// An AppKit `NSWindow`; the layer goes on its content view.
    NsWindow(usize),
    /// A UIKit `UIView`.
    UiView(usize),
    /// A UIKit `UIWindow`.
    UiWindow(usize),
}

/// The outcome of the platform step that attaches a `CAMetalLayer` to a view.
#[derive(Clone, Copy, Debug, PartialEq, Eq, Structural)]
pub enum MetalLayer {
    /// The view already was, or already hosted, a metal layer.
    Existing(usize),
    /// A new layer was allocated, configured and attached to the view.
    Allocated(usize),
    /// No layer could be obtained.
    Unavailable,
}

/// The generic surface extension, needed by every surface constructor.
pub open spec fn surface_extension() -> Seq<char> {
    "VK_KHR_surface"@
}

/// The extension of the Metal surface constructor (macOS and iOS).
pub open spec fn metal_extension() -> Seq<char> {
    "VK_EXT_metal_surface"@
}

/// The extension of the Xlib surface constructor.
pub open spec fn xlib_extension() -> Seq<char> {
    "VK_KHR_xlib_surface"@
}

/// The extension of the Xcb surface constructor.
pub open spec fn xcb_extension() -> Seq<char> {
    "VK_KHR_xcb_surface"@
}

/// The extension of the Wayland surface constructor.
pub open spec fn wayland_extension() -> Seq<char> {
    "VK_KHR_wayland_surface"@
}

/// The extension of the Win32 surface constructor.
pub open spec fn win32_extension() -> Seq<char> {
    "VK_KHR_win32_surface"@
}

/// The extension of the Android surface constructor.
pub open spec fn android_extension() -> Seq<char> {
    "VK_KHR_android_surface"@
}

/// The platform extension whose loader consumes descriptor `d`.
pub open spec fn descriptor_extension(d: SurfaceDescriptor) -> Seq<char> {
    match d {
        SurfaceDescriptor::Metal { .. } => metal_extension(),
        SurfaceDescriptor::Xlib { .. } => xlib_extension(),
        SurfaceDescriptor::Xcb { .. } => xcb_extension(),
        SurfaceDescriptor::Wayland { .. } => wayland_extension(),
        SurfaceDescriptor::Win32 { .. } => win32_extension(),
        SurfaceDescriptor::Android { .. } => android_extension(),
    }
}

/// Where the layer of an AppKit window comes from: its view when there is
/// one, else its window; a window with neither cannot be layered.
pub open spec fn appkit_layer_source_spec(ns_window: usize, ns_view: usize) -> Result<
    LayerSource,
    SurfaceError,
> {
    if ns_view != 0 {
        Ok(LayerSource::NsView(ns_view))
    } else if ns_window != 0 {
        Ok(LayerSource::NsWindow(ns_window))
    } else {
        Err(SurfaceError::LayerAttachment)
    }
}

/// Where the layer of a UIKit window comes from, as for AppKit.
pub open spec fn uikit_layer_source_spec(ui_window: usize, ui_view: usize) -> Result<
    LayerSource,
    SurfaceError,
> {
    if ui_view != 0 {
        Ok(LayerSource::UiView(ui_view))
    } else if ui_window != 0 {
        Ok(LayerSource::UiWindow(ui_window))
    } else {
        Err(SurfaceError::LayerAttachment)
    }
}

/// The Metal descriptor for the outcome of the layer step; a missing or null
/// layer is never embedded in a descriptor.
pub open spec fn metal_descriptor_spec(layer: MetalLayer) -> Result<SurfaceDescriptor, SurfaceError> {
    match layer {
        MetalLayer::Existing(l) | MetalLayer::Allocated(l) => if l != 0 {
            Ok(SurfaceDescriptor::Metal { layer: l })
        } else {
            Err(SurfaceError::LayerAttachment)
        },
        MetalLayer::Unavailable => Err(SurfaceError::LayerAttachment),
    }
}

/// Relies on ash::extensions::khr::Surface::name: the name of the generic
/// surface extension.
#[verifier::external_body]
fn surface_extension_name() -> (r: &'static str)
    ensures
        r@ == surface_extension(),
{
    ash::extensions::khr::Surface::name().to_str().unwrap()
}

/// Relies on ash::extensions::ext::MetalSurface::name: the name of the Metal
/// surface extension.
#[verifier::external_body]
fn metal_extension_name() -> (r: &'static str)
    ensures
        r@ == metal_extension(),
{
    ash::extensions::ext::MetalSurface::name().to_str().unwrap()
}

/// Relies on ash::extensions::khr::XlibSurface::name: the name of the Xlib
/// surface extension.
#[verifier::external_body]
fn xlib_extension_name() -> (r: &'static str)
    ensures
        r@ == xlib_extension(),
{
    ash::extensions::khr::XlibSurface::name().to_str().unwrap()
}

/// Relies on ash::extensions::khr::XcbSurface::name: the name of the Xcb
/// surface extension.
#[verifier::external_body]
fn xcb_extension_name() -> (r: &'static str)
    ensures
        r@ == xcb_extension(),
{
    ash::extensions::khr::XcbSurface::name().to_str().unwrap()
}

/// Relies on ash::extensions::khr::WaylandSurface::name: the name of the
/// Wayland surface extension.
#[verifier::external_body]
fn wayland_extension_name() -> (r: &'static str)
    ensures
        r@ == wayland_extension(),
{
    ash::extensions::khr::WaylandSurface::name().to_str().unwrap()
}

/// Relies on ash::extensions::khr::Win32Surface::name: the name of the Win32
/// surface extension.
#[verifier::external_body]
fn win32_extension_name() -> (r: &'static str)
    ensures
        r@ == win32_extension(),
{
    ash::extensions::khr::Win32Surface::name().to_str().unwrap()
}

/// Relies on ash::extensions::khr::AndroidSurface::name: the name of the
/// Android surface extension.
#[verifier::external_body]
fn android_extension_name() -> (r: &'static str)
    ensures
        r@ == android_extension(),
{
    ash::extensions::khr::AndroidSurface::name().to_str().unwrap()
}

impl SurfaceDescriptor {
    /// The name of the platform extension this descriptor's loader needs.
    pub fn extension_name(&self) -> (r: &'static str)
        ensures
            r@ == descriptor_extension(*self),
    {
        match self {
            SurfaceDescriptor::Metal { .. } => metal_extension_name(),
            SurfaceDescriptor::Xlib { .. } => xlib_extension_name(),
            SurfaceDescriptor::Xcb { .. } => xcb_extension_name(),
            SurfaceDescriptor::Wayland { .. } => wayland_extension_name(),
            SurfaceDescriptor::Win32 { .. } => win32_extension_name(),
            SurfaceDescriptor::Android { .. } => android_extension_name(),
        }
    }
}

/// Chooses the native object that the layer of an AppKit window is obtained
/// from. Fails with `LayerAttachment` when both references are null.
pub fn appkit_layer_source(ns_window: usize, ns_view: usize) -> (r: Result<
    LayerSource,
    SurfaceError,
>)
    ensures
        r == appkit_layer_source_spec(ns_window, ns_view),
{
    if ns_view != 0 {
        Ok(LayerSource::NsView(ns_view))
    } else if ns_window != 0 {
        Ok(LayerSource::NsWindow(ns_window))
    } else {
        Err(SurfaceError::LayerAttachment)
    }
}

/// Chooses the native object that the layer of a UIKit window is obtained
/// from. Fails with `LayerAttachment` when both references are null.
pub fn uikit_layer_source(ui_window: usize, ui_view: usize) -> (r: Result<
    LayerSource,
    SurfaceError,
>)
    ensures
        r == uikit_layer_source_spec(ui_window, ui_view),
{
    if ui_view != 0 {
        Ok(LayerSource::UiView(ui_view))
    } else if ui_window != 0 {
        Ok(LayerSource::UiWindow(ui_window))
    } else {
        Err(SurfaceError::LayerAttachment)
    }
}

/// Builds the Metal descriptor once the layer step has run. Fails with
/// `LayerAttachment` when the step produced no layer, so that a null layer
/// never reaches Vulkan.
pub fn metal_descriptor(layer: MetalLayer) -> (r: Result<SurfaceDescriptor, SurfaceError>)
    ensures
        r == metal_descriptor_spec(layer),
{
    match layer {
        MetalLayer::Existing(l) | MetalLayer::Allocated(l) => {
            if l != 0 {
                Ok(SurfaceDescriptor::Metal { layer: l })
            } else {
                Err(SurfaceError::LayerAttachment)
            }
        },
        MetalLayer::Unavailable => Err(SurfaceError::LayerAttachment),
    }
}

/// The extensions an instance needs to create macOS surfaces.
pub fn required_extensions_macos() -> (r: [&'static str; 2])
    ensures
        r@.len() == 2,
        r[0]@ == surface_extension(),
        r[1]@ == metal_extension(),
{
    [surface_extension_name(), metal_extension_name()]
}

/// The extensions an instance needs to create Xlib surfaces.
pub fn required_extensions_xlib() -> (r: [&'static str; 2])
    ensures
        r@.len() == 2,
        r[0]@ == surface_extension(),
        r[1]@ == xlib_extension(),
{
    [surface_extension_name(), xlib_extension_name()]
}

/// The extensions an instance needs to create Xcb surfaces.
pub fn required_extensions_xcb() -> (r: [&'static str; 2])
    ensures
        r@.len() == 2,
        r[0]@ == surface_extension(),
        r[1]@ == xcb_extension(),
{
    [surface_extension_name(), xcb_extension_name()]
}

/// The extensions an instance needs to create Wayland surfaces.
pub fn required_extensions_wayland() -> (r: [&'static str; 2])
    ensures
        r@.len() == 2,
        r[0]@ == surface_extension(),
        r[1]@ == wayland_extension(),
{
    [surface_extension_name(), wayland_extension_name()]
}

/// The extensions an instance needs to create Win32 surfaces.
pub fn required_extensions_win32() -> (r: [&'static str; 2])
    ensures
        r@.len() == 2,
        r[0]@ == surface_extension(),
        r[1]@ == win32_extension(),
{
    [surface_extension_name(), win32_extension_name()]
}

/// The extensions an instance needs to create iOS surfaces.
pub fn required_extensions_ios() -> (r: [&'static str; 2])
    ensures
        r@.len() == 2,
        r[0]@ == surface_extension(),
        r[1]@ == metal_extension(),
{
    [surface_extension_name(), metal_extension_name()]
}

/// The extensions an instance needs to create Android surfaces.
pub fn required_extensions_android() -> (r: [&'static str; 2])
    ensures
        r@.len() == 2,
        r[0]@ == surface_extension(),
        r[1]@ == android_extension(),
{
    [surface_extension_name(), android_extension_name()]
}

} // verus!
