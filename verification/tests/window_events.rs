use lib::protocol::{
    classify_interface, Action, Fatal, Global, Listener, Notice, Slot, BTN_LEFT, BTN_MIDDLE,
    BTN_RIGHT, BTN_SIDE, KEY_ESC, KEY_F11,
};
use lib::window::{CursorImage, WaylandWindow};

const DISPLAY: u64 = 0x1000;
const REGISTRY: u64 = 0x2000;

fn window() -> WaylandWindow {
    let mut w = WaylandWindow::new(DISPLAY, REGISTRY);
    w.object_made(Slot::Surface, 0x3000).unwrap();
    w.object_made(Slot::CursorSurface, 0x3100).unwrap();
    w.object_made(Slot::ShellSurface, 0x3200).unwrap();
    w.object_made(Slot::Toplevel, 0x3300).unwrap();
    w.object_made(Slot::Seat, 0x3400).unwrap();
    w
}

#[test]
fn new_window_starts_at_default_size() {
    let w = WaylandWindow::new(DISPLAY, REGISTRY);
    assert!(w.running);
    assert!(!w.is_restored);
    assert!(w.configured);
    assert!(!w.fullscreen);
    assert_eq!((w.window_width, w.window_height), (640, 360));
    assert_eq!((w.restore_width, w.restore_height), (640, 360));
    assert_eq!(w.wldisplay, DISPLAY);
    assert_eq!(w.registry, REGISTRY);
    assert_eq!(w.callback, 0);
    assert_eq!(w.start_time, 0);
}

#[test]
fn classify_known_interfaces() {
    assert_eq!(classify_interface("wl_compositor"), Some(Global::Compositor));
    assert_eq!(classify_interface("zxdg_shell_v6"), Some(Global::XdgShell));
    assert_eq!(classify_interface("wl_seat"), Some(Global::Seat));
    assert_eq!(classify_interface("wl_shm"), Some(Global::Shm));
    assert_eq!(classify_interface("wl_output"), None);
    assert_eq!(classify_interface("wl_sea"), None);
    assert_eq!(classify_interface(""), None);
}

#[test]
fn registry_binds_known_globals_only() {
    assert_eq!(
        WaylandWindow::registry_global(REGISTRY, 7, "wl_seat"),
        vec![Action::Bind { registry: REGISTRY, name: 7, global: Global::Seat }]
    );
    assert_eq!(WaylandWindow::registry_global(REGISTRY, 8, "wl_data_device_manager"), vec![]);
}

#[test]
fn shm_leads_to_cursor_theme_and_default_cursor() {
    let mut w = window();
    let a = w.object_made(Slot::Shm, 0x4000).unwrap();
    assert_eq!(w.shm, 0x4000);
    assert_eq!(a, vec![Action::LoadCursorTheme { shm: 0x4000, size: 16 }]);
    let a = w.object_made(Slot::CursorTheme, 0x4100).unwrap();
    assert_eq!(a, vec![Action::GetDefaultCursor { theme: 0x4100 }]);
    let a = w.object_made(Slot::DefaultCursor, 0x4200).unwrap();
    assert_eq!(a, vec![]);
    assert_eq!(w.default_cursor, 0x4200);
}

#[test]
fn missing_cursor_theme_is_reported() {
    let mut w = window();
    let a = w.object_made(Slot::CursorTheme, 0).unwrap();
    assert_eq!(
        a,
        vec![
            Action::PrintError { notice: Notice::NoCursorTheme },
            Action::GetDefaultCursor { theme: 0 },
        ]
    );
    assert_eq!(Notice::NoCursorTheme.text(), "unable to load default theme");
}

#[test]
fn missing_default_cursor_is_fatal() {
    let mut w = window();
    assert_eq!(w.object_made(Slot::DefaultCursor, 0), Err(Fatal::NoDefaultCursor));
    assert_eq!(Fatal::NoDefaultCursor.text(), "unable to load default left pointer");
}

#[test]
fn result_slots_and_listeners() {
    let bind = Action::Bind { registry: 1, name: 2, global: Global::XdgShell };
    assert_eq!(bind.result_slot(), Some(Slot::Shell));
    assert_eq!(bind.listener(), Some(Listener::ShellPing));
    let bind = Action::Bind { registry: 1, name: 2, global: Global::Compositor };
    assert_eq!(bind.result_slot(), Some(Slot::Compositor));
    assert_eq!(bind.listener(), None);
    assert_eq!(Action::GetPointer { seat: 1 }.result_slot(), Some(Slot::Pointer));
    assert_eq!(Action::GetKeyboard { seat: 1 }.listener(), Some(Listener::Keyboard));
    assert_eq!(Action::RequestFrame { surface: 1 }.result_slot(), Some(Slot::FrameCallback));
    assert_eq!(Action::RequestFrame { surface: 1 }.listener(), Some(Listener::Frame));
    assert_eq!(Action::Sync { display: 1 }.result_slot(), None);
    assert_eq!(Action::Sync { display: 1 }.listener(), Some(Listener::ConfigureDone));
    assert_eq!(Action::Redraw.result_slot(), None);
}

#[test]
fn escape_stops_running() {
    let mut w = window();
    let before = w;
    assert_eq!(w.keyboard_key(KEY_ESC, 0), vec![]);
    assert_eq!(w, before);
    assert_eq!(w.keyboard_key(KEY_ESC, 1), vec![]);
    assert!(!w.running);
    assert!(!w.should_dispatch(None));
    assert!(!w.should_dispatch(Some(0)));
}

#[test]
fn f11_toggles_fullscreen_twice() {
    let mut w = window();
    w.configured = false;
    let a = w.keyboard_key(KEY_F11, 1);
    assert_eq!(a, vec![Action::SetFullscreen { toplevel: 0x3300 }, Action::Sync { display: DISPLAY }]);
    assert!(w.fullscreen);
    assert!(w.configured);
    assert_eq!(w.keyboard_key(KEY_F11, 0), vec![]);
    let a = w.keyboard_key(KEY_F11, 1);
    assert_eq!(a, vec![Action::UnsetFullscreen { toplevel: 0x3300 }, Action::Sync { display: DISPLAY }]);
    assert!(!w.fullscreen);
}

#[test]
fn other_keys_do_nothing() {
    let mut w = window();
    let before = w;
    assert_eq!(w.keyboard_key(30, 1), vec![]);
    assert_eq!(w, before);
}

#[test]
fn main_loop_stops_on_dispatch_failure() {
    let w = window();
    assert!(w.should_dispatch(None));
    assert!(w.should_dispatch(Some(3)));
    assert!(!w.should_dispatch(Some(-1)));
}

#[test]
fn close_stops_running() {
    let mut w = window();
    w.toplevel_close();
    assert!(!w.running);
    assert!(!w.should_dispatch(None));
}

#[test]
fn left_press_in_title_bar_moves_window() {
    let mut w = window();
    // 39.5 pixels down, in 24.8 fixed point.
    w.pointer_motion(100 * 256, 39 * 256 + 128);
    assert_eq!(w.pointer_button(5, BTN_LEFT, 1), vec![Action::Move { toplevel: 0x3300, seat: 0x3400, serial: 5 }]);
    // exactly 40 pixels down is below the band.
    w.pointer_motion(100 * 256, 40 * 256);
    assert_eq!(w.pointer_button(6, BTN_LEFT, 1), vec![Action::Print { notice: Notice::Press }]);
    assert_eq!(w.pointer_button(7, BTN_LEFT, 0), vec![Action::Print { notice: Notice::Release }]);
    assert_eq!(Notice::Press.text(), "Press");
    assert_eq!(Notice::Release.text(), "Release");
}

#[test]
fn other_buttons() {
    let w = window();
    assert_eq!(w.pointer_button(1, BTN_RIGHT, 1), vec![]);
    assert_eq!(w.pointer_button(1, BTN_MIDDLE, 1), vec![]);
    assert_eq!(w.pointer_button(1, BTN_SIDE, 0), vec![]);
    assert_eq!(w.pointer_button(1, 0x200, 1), vec![Action::PrintError { notice: Notice::UnknownButton }]);
    assert_eq!(Notice::UnknownButton.text(), "Unknown");
}

#[test]
fn pointer_enter_shows_cursor() {
    let w = window();
    let image = CursorImage { width: 24, height: 24, hotspot_x: 3, hotspot_y: 4 };
    assert_eq!(w.pointer_enter(0x5000, 9, image, 0), vec![]);
    assert_eq!(
        w.pointer_enter(0x5000, 9, image, 0x6000),
        vec![
            Action::SetCursor { pointer: 0x5000, serial: 9, surface: 0x3100, hotspot_x: 3, hotspot_y: 4 },
            Action::Attach { surface: 0x3100, buffer: 0x6000 },
            Action::Damage { surface: 0x3100, width: 24, height: 24 },
            Action::Commit { surface: 0x3100 },
        ]
    );
}

#[test]
fn ping_and_configure_are_answered() {
    assert_eq!(WaylandWindow::shell_ping(0x10, 42), Action::Pong { shell: 0x10, serial: 42 });
    assert_eq!(WaylandWindow::surface_configure(0x11, 43), Action::AckConfigure { xdg_surface: 0x11, serial: 43 });
}

#[test]
fn seat_capabilities_ask_and_release() {
    let mut w = window();
    let a = w.seat_capabilities(0x3400, 3);
    assert_eq!(a, vec![Action::GetPointer { seat: 0x3400 }, Action::GetKeyboard { seat: 0x3400 }]);
    w.object_made(Slot::Pointer, 0x7000).unwrap();
    w.object_made(Slot::Keyboard, 0x7100).unwrap();
    // The same announcement again asks for nothing.
    let before = w;
    assert_eq!(w.seat_capabilities(0x3400, 3), vec![]);
    assert_eq!(w, before);
    // The keyboard goes away; touch alone is not handled.
    let a = w.seat_capabilities(0x3400, 1 | 4);
    assert_eq!(a, vec![Action::DestroyProxy { object: 0x7100 }]);
    assert_eq!(w.keyboard, 0);
    assert_eq!(w.pointer, 0x7000);
    let a = w.seat_capabilities(0x3400, 0);
    assert_eq!(a, vec![Action::DestroyProxy { object: 0x7000 }]);
    assert_eq!(w.pointer, 0);
}

#[test]
fn first_configure_with_egl_window_resizes_it() {
    let mut w = window();
    w.object_made(Slot::EglWindow, 0x8000).unwrap();
    let a = w.toplevel_configure(1920, 1080);
    assert_eq!(a, vec![Action::ResizeEglWindow { egl_window: 0x8000, width: 1920, height: 1080 }]);
    assert!(!w.configured);
    assert_eq!((w.window_width, w.window_height), (1920, 1080));
    // restore size untouched
    assert_eq!((w.restore_width, w.restore_height), (640, 360));
}

#[test]
fn unmaximize_restores_previous_size() {
    let mut w = window();
    w.object_made(Slot::EglWindow, 0x8000).unwrap();
    w.configured = false;
    // leave the size to the window: restore size
    let a = w.toplevel_configure(0, 0);
    assert_eq!(
        a,
        vec![
            Action::ResizeEglWindow { egl_window: 0x8000, width: 640, height: 360 },
            Action::Viewport { width: 640, height: 360 },
        ]
    );
    assert!(w.is_restored);
    // the user resizes by hand
    w.toplevel_configure(800, 600);
    assert!(!w.is_restored);
    assert_eq!((w.restore_width, w.restore_height), (640, 360));
    // maximized
    let a = w.toplevel_configure(1920, 1080);
    assert_eq!(
        a,
        vec![
            Action::ResizeEglWindow { egl_window: 0x8000, width: 1920, height: 1080 },
            Action::Viewport { width: 1920, height: 1080 },
        ]
    );
    assert_eq!((w.restore_width, w.restore_height), (640, 360));
    // unmaximized
    w.toplevel_configure(0, 0);
    assert_eq!((w.window_width, w.window_height), (640, 360));
}

#[test]
fn restored_size_is_kept_when_resized() {
    let mut w = window();
    w.configured = false;
    w.is_restored = true;
    w.window_width = 700;
    w.window_height = 500;
    let a = w.toplevel_configure(1024, 768);
    assert_eq!(a, vec![Action::Viewport { width: 1024, height: 768 }]);
    assert_eq!((w.restore_width, w.restore_height), (700, 500));
    w.toplevel_configure(0, 768);
    assert_eq!((w.window_width, w.window_height), (700, 500));
    assert!(w.is_restored);
}

#[test]
fn fullscreen_configure_keeps_size() {
    let mut w = window();
    w.configured = false;
    w.fullscreen = true;
    let before = w;
    let a = w.toplevel_configure(1920, 1080);
    assert_eq!(a, vec![Action::Viewport { width: 640, height: 360 }]);
    assert_eq!(w, before);
}

#[test]
fn frames_report_elapsed_time() {
    let mut w = window();
    // A configuration finishes while no frame is pending: the first frame.
    let a = w.configure_done(0x9000, 500);
    assert_eq!(
        a,
        vec![
            Action::DestroyProxy { object: 0x9000 },
            Action::Viewport { width: 640, height: 360 },
            Action::RunFrame { nanos: 0 },
            Action::RequestFrame { surface: 0x3000 },
            Action::Redraw,
        ]
    );
    assert_eq!(w.start_time, 0);
    assert_eq!(w.last_millis, 500);
    w.object_made(Slot::FrameCallback, 0x9100).unwrap();
    // The first frame callback starts the clock.
    let a = w.frame_done(0x9100, 516);
    assert_eq!(
        a,
        vec![
            Action::DestroyProxy { object: 0x9100 },
            Action::RunFrame { nanos: 0 },
            Action::RequestFrame { surface: 0x3000 },
            Action::Redraw,
        ]
    );
    assert_eq!(w.start_time, 516);
    assert_eq!(w.callback, 0);
    w.object_made(Slot::FrameCallback, 0x9200).unwrap();
    let a = w.frame_done(0x9200, 533);
    assert_eq!(a[1], Action::RunFrame { nanos: 17_000_000 });
    assert_eq!(w.last_millis, 533);
    // A configuration while a frame is pending draws nothing.
    w.object_made(Slot::FrameCallback, 0x9300).unwrap();
    let before = w;
    let a = w.configure_done(0x9400, 540);
    assert_eq!(a, vec![Action::DestroyProxy { object: 0x9400 }, Action::Viewport { width: 640, height: 360 }]);
    assert_eq!(w, before);
}

#[test]
fn frame_time_wraps_around() {
    let mut w = window();
    w.start_time = 1;
    w.last_millis = u32::MAX - 9;
    w.object_made(Slot::FrameCallback, 0x9100).unwrap();
    let a = w.frame_done(0x9100, 5);
    assert_eq!(a[1], Action::RunFrame { nanos: 15_000_000 });
}

#[test]
fn longest_frame_interval_fits() {
    let mut w = window();
    w.start_time = 1;
    w.last_millis = 1;
    w.object_made(Slot::FrameCallback, 0x9100).unwrap();
    let a = w.frame_done(0x9100, 0);
    assert_eq!(a[1], Action::RunFrame { nanos: (u32::MAX as u64) * 1_000_000 });
}

#[test]
fn egl_window_request_uses_window_size() {
    let mut w = window();
    w.toplevel_configure(0, 0);
    assert_eq!(
        w.egl_window_request(),
        Action::CreateEglWindow { surface: 0x3000, width: 640, height: 360 }
    );
}

#[test]
fn teardown_releases_everything() {
    let mut w = window();
    assert_eq!(
        w.teardown(),
        vec![
            Action::DestroySurface { surface: 0x3000 },
            Action::DestroyEglWindow { egl_window: 0 },
            Action::DestroyXdgSurface { xdg_surface: 0x3200 },
            Action::DestroySurface { surface: 0x3100 },
            Action::DestroyProxy { object: REGISTRY },
            Action::FlushDisplay { display: DISPLAY },
            Action::DisconnectDisplay { display: DISPLAY },
        ]
    );
    w.object_made(Slot::FrameCallback, 0xa0).unwrap();
    w.object_made(Slot::CursorTheme, 0xa1).unwrap();
    w.object_made(Slot::Shell, 0xa2).unwrap();
    w.object_made(Slot::Compositor, 0xa3).unwrap();
    w.object_made(Slot::EglWindow, 0xa4).unwrap();
    assert_eq!(
        w.teardown(),
        vec![
            Action::DestroySurface { surface: 0x3000 },
            Action::DestroyEglWindow { egl_window: 0xa4 },
            Action::DestroyXdgSurface { xdg_surface: 0x3200 },
            Action::DestroyProxy { object: 0xa0 },
            Action::DestroySurface { surface: 0x3100 },
            Action::DestroyCursorTheme { theme: 0xa1 },
            Action::DestroyProxy { object: 0xa2 },
            Action::DestroyProxy { object: 0xa3 },
            Action::DestroyProxy { object: REGISTRY },
            Action::FlushDisplay { display: DISPLAY },
            Action::DisconnectDisplay { display: DISPLAY },
        ]
    );
}

#[test]
fn frame_intervals_add_up_across_wrap() {
    let mut w = window();
    w.start_time = 7;
    w.last_millis = u32::MAX - 3;
    w.object_made(Slot::FrameCallback, 0x9100).unwrap();
    let a = w.frame_done(0x9100, u32::MAX);
    assert_eq!(a[1], Action::RunFrame { nanos: 3_000_000 });
    w.object_made(Slot::FrameCallback, 0x9200).unwrap();
    let b = w.frame_done(0x9200, 6);
    assert_eq!(b[1], Action::RunFrame { nanos: 7_000_000 });
    // 3 + 7 milliseconds from u32::MAX - 3 to 6 on the wrapping clock.
}
