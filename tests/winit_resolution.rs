use vulkayes_window::raw_window_handle::{required_extensions as handle_extensions, surface_plan as handle_plan, Platform, SurfacePlan, WindowHandle};
use vulkayes_window::winit::{required_extensions, resolve_window_handle, surface_plan, unix, WinitWindow};
use vulkayes_window::{SurfaceDescriptor, SurfaceError, UNIX_USE_XCB_DEFAULT};

fn x11_window(connection: Option<usize>) -> WinitWindow {
    WinitWindow { handle: WindowHandle::Xlib { window: 0x400001, display: 0x1000 }, xcb_connection: connection }
}

#[test]
fn scenario_both_transports_prefer_xcb() {
    let window = x11_window(Some(0x2000));
    assert_eq!(
        surface_plan(&window, Platform::Unix, true),
        Ok(SurfacePlan::Create(SurfaceDescriptor::Xcb { connection: 0x2000, window: 0x400001 }))
    );
    assert_eq!(
        required_extensions(&window, Platform::Unix, true),
        Ok(["VK_KHR_surface", "VK_KHR_xcb_surface"])
    );
}

#[test]
fn scenario_only_xlib_prefer_xcb() {
    let window = x11_window(None);
    assert_eq!(surface_plan(&window, Platform::Unix, true), Err(SurfaceError::UnsupportedTransport));
    assert_eq!(required_extensions(&window, Platform::Unix, true), Err(SurfaceError::UnsupportedTransport));
}

#[test]
fn preferring_xcb_never_falls_back_to_xlib() {
    assert_eq!(unix::resolve_window_handle(&x11_window(None), true), Err(SurfaceError::UnsupportedTransport));
    assert_eq!(unix::resolve_window_handle(&x11_window(Some(0)), true), Err(SurfaceError::UnsupportedTransport));
    let wide = WinitWindow {
        handle: WindowHandle::Xlib { window: 0x1_0000_0000, display: 0x1000 },
        xcb_connection: Some(0x2000),
    };
    assert_eq!(unix::resolve_window_handle(&wide, true), Err(SurfaceError::UnsupportedTransport));
}

#[test]
fn xlib_is_kept_without_the_preference() {
    let window = x11_window(Some(0x2000));
    assert_eq!(resolve_window_handle(&window, Platform::Unix, false), Ok(window.handle));
    assert_eq!(
        unix::required_extensions(&window, false),
        Ok(["VK_KHR_surface", "VK_KHR_xlib_surface"])
    );
    assert_eq!(
        unix::surface_plan(&window, false),
        Ok(SurfacePlan::Create(SurfaceDescriptor::Xlib { dpy: 0x1000, window: 0x400001 }))
    );
    assert_eq!(
        resolve_window_handle(&window, Platform::Unix, UNIX_USE_XCB_DEFAULT),
        Ok(window.handle)
    );
}

#[test]
fn xlib_without_display_has_no_transport() {
    let window = WinitWindow { handle: WindowHandle::Xlib { window: 9, display: 0 }, xcb_connection: None };
    assert_eq!(unix::resolve_window_handle(&window, false), Err(SurfaceError::UnsupportedTransport));
    assert_eq!(unix::surface_plan(&window, false), Err(SurfaceError::UnsupportedTransport));
}

#[test]
fn other_handles_pass_through() {
    let wayland = WinitWindow { handle: WindowHandle::Wayland { surface: 1, display: 2 }, xcb_connection: None };
    assert_eq!(unix::resolve_window_handle(&wayland, true), Ok(wayland.handle));
    let xcb = WinitWindow { handle: WindowHandle::Xcb { window: 3, connection: 4 }, xcb_connection: None };
    assert_eq!(unix::resolve_window_handle(&xcb, false), Ok(xcb.handle));
    let win = WinitWindow { handle: WindowHandle::Windows { hwnd: 5, hinstance: 6 }, xcb_connection: None };
    assert_eq!(resolve_window_handle(&win, Platform::Windows, true), Ok(win.handle));
    assert_eq!(
        required_extensions(&win, Platform::Windows, true),
        Ok(["VK_KHR_surface", "VK_KHR_win32_surface"])
    );
    let mac = WinitWindow { handle: WindowHandle::Xlib { window: 7, display: 0 }, xcb_connection: None };
    assert_eq!(resolve_window_handle(&mac, Platform::MacOS, true), Ok(mac.handle));
    assert_eq!(surface_plan(&mac, Platform::MacOS, true), Err(SurfaceError::UnsupportedVariant));
}

#[test]
fn classification_is_idempotent() {
    for use_xcb in [false, true] {
        let window = x11_window(Some(0x2000));
        let first = resolve_window_handle(&window, Platform::Unix, use_xcb).unwrap();
        let again = WinitWindow { handle: first, xcb_connection: window.xcb_connection };
        assert_eq!(resolve_window_handle(&again, Platform::Unix, use_xcb), Ok(first));
        assert_eq!(surface_plan(&again, Platform::Unix, use_xcb), surface_plan(&window, Platform::Unix, use_xcb));
        assert_eq!(surface_plan(&window, Platform::Unix, use_xcb), handle_plan(&first, Platform::Unix));
        assert_eq!(required_extensions(&window, Platform::Unix, use_xcb), handle_extensions(&first, Platform::Unix));
    }
}

#[test]
fn unreachable_winit_window_reports_no_extensions() {
    let win = WinitWindow { handle: WindowHandle::Windows { hwnd: 5, hinstance: 6 }, xcb_connection: None };
    assert_eq!(required_extensions(&win, Platform::Unix, true), Err(SurfaceError::UnsupportedVariant));
    assert_eq!(unix::required_extensions(&win, false), Err(SurfaceError::UnsupportedVariant));
    assert_eq!(unix::surface_plan(&win, false), Err(SurfaceError::UnsupportedVariant));
    let android = WinitWindow { handle: WindowHandle::Android { a_native_window: 7 }, xcb_connection: Some(8) };
    assert_eq!(required_extensions(&android, Platform::MacOS, false), Err(SurfaceError::UnsupportedVariant));
}

#[test]
fn both_transports_through_the_unix_module() {
    let window = x11_window(Some(0x2000));
    assert_eq!(
        unix::resolve_window_handle(&window, true),
        Ok(WindowHandle::Xcb { window: 0x400001, connection: 0x2000 })
    );
    assert_eq!(unix::required_extensions(&window, true), Ok(["VK_KHR_surface", "VK_KHR_xcb_surface"]));
    assert_eq!(
        unix::surface_plan(&window, true),
        Ok(SurfacePlan::Create(SurfaceDescriptor::Xcb { connection: 0x2000, window: 0x400001 }))
    );
}
