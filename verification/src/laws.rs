//! Properties of the window that span several events.
use vstd::prelude::*;
use crate::protocol::{
    BTN_LEFT, BTN_MIDDLE, BTN_RIGHT, BTN_SIDE, global_interface, spec_classify_interface, Action, Global, Slot, KEY_ESC, KEY_F11,
};
use crate::window::{
    button_actions, initial_window, made_followups, configure_done_step, elapsed, enter_actions, global_actions, CursorImage, frame_millis, frame_step, has_keyboard, has_pointer, key_step,
    restore_size, seat_step, spec_should_dispatch, teardown_actions, toplevel_configure_step,
    with_handle, WaylandWindow,
};

verus! {

/// Pressing F11 twice leaves the window as it was, fullscreen or not, with a
/// configuration asked for; the first press asks for the opposite of the
/// current mode and the second undoes it.
pub proof fn lemma_fullscreen_toggle_twice(s: WaylandWindow, first: u32, second: u32)
    requires
        first != 0,
        second != 0,
    ensures
        ({
            let (s1, a1) = key_step(s, KEY_F11, first);
            let (s2, a2) = key_step(s1, KEY_F11, second);
            &&& s1.fullscreen == !s.fullscreen
            &&& s2 == (WaylandWindow { configured: true, ..s })
            &&& a1 + a2 == if s.fullscreen {
                seq![
                    Action::UnsetFullscreen { toplevel: s.toplevel },
                    Action::Sync { display: s.wldisplay },
                    Action::SetFullscreen { toplevel: s.toplevel },
                    Action::Sync { display: s.wldisplay },
                ]
            } else {
                seq![
                    Action::SetFullscreen { toplevel: s.toplevel },
                    Action::Sync { display: s.wldisplay },
                    Action::UnsetFullscreen { toplevel: s.toplevel },
                    Action::Sync { display: s.wldisplay },
                ]
            }
        }),
{
    let (s1, a1) = key_step(s, KEY_F11, first);
    let (s2, a2) = key_step(s1, KEY_F11, second);
    if s.fullscreen {
        assert(a1 + a2 =~= seq![
            Action::UnsetFullscreen { toplevel: s.toplevel },
            Action::Sync { display: s.wldisplay },
            Action::SetFullscreen { toplevel: s.toplevel },
            Action::Sync { display: s.wldisplay },
        ]);
    } else {
        assert(a1 + a2 =~= seq![
            Action::SetFullscreen { toplevel: s.toplevel },
            Action::Sync { display: s.wldisplay },
            Action::UnsetFullscreen { toplevel: s.toplevel },
            Action::Sync { display: s.wldisplay },
        ]);
    }
}

/// Pressing Escape stops the program and changes nothing else: the main
/// loop dispatches no more events, whatever the last dispatch returned.
pub proof fn lemma_escape_stops_main_loop(s: WaylandWindow, state: u32, last: Option<i32>)
    requires
        state != 0,
    ensures
        key_step(s, KEY_ESC, state).0 == (WaylandWindow { running: false, ..s }),
        key_step(s, KEY_ESC, state).1 == Seq::<Action>::empty(),
        !spec_should_dispatch(key_step(s, KEY_ESC, state).0, last),
{
    assert(key_step(s, KEY_ESC, state).1 =~= Seq::<Action>::empty());
}

/// Closing the toplevel stops the main loop too.
pub proof fn lemma_close_stops_main_loop(s: WaylandWindow, last: Option<i32>)
    ensures
        !spec_should_dispatch(WaylandWindow { running: false, ..s }, last),
{
}

/// Leaving the size to the window after the compositor gave it one brings
/// back the size the window had before, when it was at its restored size,
/// and the restore size kept from earlier otherwise.
pub proof fn lemma_unmaximize_restores_size(s: WaylandWindow, width: i32, height: i32)
    requires
        !(s.egl_window != 0 && s.configured),
        !s.fullscreen,
        width != 0,
        height != 0,
    ensures
        ({
            let s1 = toplevel_configure_step(s, width, height).0;
            let s2 = toplevel_configure_step(s1, 0, 0).0;
            &&& s1.window_width == width && s1.window_height == height
            &&& !s1.is_restored
            &&& s2.is_restored
            &&& (s2.window_width, s2.window_height) == if s.is_restored {
                (s.window_width, s.window_height)
            } else {
                restore_size(s)
            }
        }),
{
}

/// Once the devices that a seat announcement asks for are made, the same
/// announcement asks for nothing more and changes nothing: the window's
/// pointer and keyboard then match the seat's capabilities.
pub proof fn lemma_seat_capabilities_settle(
    s: WaylandWindow,
    seat: u64,
    caps: u32,
    pointer: u64,
    keyboard: u64,
)
    requires
        pointer != 0,
        keyboard != 0,
    ensures
        ({
            let s1 = seat_step(s, seat, caps).0;
            let s2 = if has_pointer(caps) && s.pointer == 0 {
                with_handle(s1, Slot::Pointer, pointer)
            } else {
                s1
            };
            let s3 = if has_keyboard(caps) && s.keyboard == 0 {
                with_handle(s2, Slot::Keyboard, keyboard)
            } else {
                s2
            };
            &&& (s3.pointer != 0) == has_pointer(caps)
            &&& (s3.keyboard != 0) == has_keyboard(caps)
            &&& seat_step(s3, seat, caps).0 == s3
            &&& seat_step(s3, seat, caps).1 == Seq::<Action>::empty()
        }),
{
    let s1 = seat_step(s, seat, caps).0;
    let s2 = if has_pointer(caps) && s.pointer == 0 {
        with_handle(s1, Slot::Pointer, pointer)
    } else {
        s1
    };
    let s3 = if has_keyboard(caps) && s.keyboard == 0 {
        with_handle(s2, Slot::Keyboard, keyboard)
    } else {
        s2
    };
    assert(seat_step(s3, seat, caps).1 =~= Seq::<Action>::empty());
}

/// The first frame started by a frame callback reports no time and starts
/// the clock at its own time.
pub proof fn lemma_first_frame_starts_clock(s: WaylandWindow, callback: u64, millis: u32)
    requires
        callback != 0,
        s.start_time == 0,
    ensures
        frame_millis(s, callback, millis) == 0,
        frame_step(s, callback, millis).0.start_time == millis,
        frame_step(s, callback, millis).0.last_millis == millis,
{
}

/// The times reported to two frames in a row add up, on the wrapping 32-bit
/// clock, to the time from the frame before them to the second one.
pub proof fn lemma_frame_intervals_add_up(
    s: WaylandWindow,
    first: u64,
    m1: u32,
    second: u64,
    m2: u32,
)
    requires
        s.callback == first,
        first != 0,
        second != 0,
        s.start_time != 0,
    ensures
        ({
            let s1 = with_handle(frame_step(s, first, m1).0, Slot::FrameCallback, second);
            &&& s1.callback == second
            &&& (frame_millis(s, first, m1) + frame_millis(s1, second, m2)) % 0x1_0000_0000
                == elapsed(m2, s.last_millis)
        }),
{
}

/// A finished configuration draws a frame exactly when no frame is pending,
/// and never leaves two frames pending.
pub proof fn lemma_configure_draws_only_when_idle(s: WaylandWindow, callback: u64, time: u32)
    ensures
        configure_done_step(s, callback, time).1.contains(Action::RequestFrame { surface: s.surface })
            <==> s.callback == 0,
        s.callback != 0 ==> configure_done_step(s, callback, time).0 == s,
        s.callback == 0 ==> configure_done_step(s, callback, time).0.callback == 0,
{
    let a = configure_done_step(s, callback, time).1;
    if s.callback == 0 {
        assert(a[3] == Action::RequestFrame { surface: s.surface });
    } else {
        assert(a.len() == 2);
        assert(a[0] != Action::RequestFrame { surface: s.surface });
        assert(a[1] != Action::RequestFrame { surface: s.surface });
    }
}

/// Releasing the window releases every object it still holds and ends by
/// flushing and then disconnecting the display.
pub proof fn lemma_teardown_releases_all(s: WaylandWindow)
    ensures
        ({
            let a = teardown_actions(s);
            &&& a.last() == (Action::DisconnectDisplay { display: s.wldisplay })
            &&& a[a.len() - 2] == (Action::FlushDisplay { display: s.wldisplay })
            &&& a.contains(Action::DestroySurface { surface: s.surface })
            &&& a.contains(Action::DestroySurface { surface: s.cursor_surface })
            &&& a.contains(Action::DestroyXdgSurface { xdg_surface: s.shell_surface })
            &&& a.contains(Action::DestroyEglWindow { egl_window: s.egl_window })
            &&& a.contains(Action::DestroyProxy { object: s.registry })
            &&& s.callback != 0 ==> a.contains(Action::DestroyProxy { object: s.callback })
            &&& s.cursor_theme != 0 ==> a.contains(Action::DestroyCursorTheme { theme: s.cursor_theme })
            &&& s.shell != 0 ==> a.contains(Action::DestroyProxy { object: s.shell })
            &&& s.compositor != 0 ==> a.contains(Action::DestroyProxy { object: s.compositor })
        }),
{
    let a = teardown_actions(s);
    let n = a.len() as int;
    assert(a[0] == Action::DestroySurface { surface: s.surface });
    assert(a[1] == Action::DestroyEglWindow { egl_window: s.egl_window });
    assert(a[2] == Action::DestroyXdgSurface { xdg_surface: s.shell_surface });
    assert(a[n - 3] == Action::DestroyProxy { object: s.registry });
    let c: int = if s.callback != 0 { 1 } else { 0 };
    if s.callback != 0 {
        assert(a[3] == Action::DestroyProxy { object: s.callback });
    }
    assert(a[3 + c] == Action::DestroySurface { surface: s.cursor_surface });
    let t: int = if s.cursor_theme != 0 { 1 } else { 0 };
    if s.cursor_theme != 0 {
        assert(a[4 + c] == Action::DestroyCursorTheme { theme: s.cursor_theme });
    }
    let h: int = if s.shell != 0 { 1 } else { 0 };
    if s.shell != 0 {
        assert(a[4 + c + t] == Action::DestroyProxy { object: s.shell });
    }
    if s.compositor != 0 {
        assert(a[4 + c + t + h] == Action::DestroyProxy { object: s.compositor });
    }
}

/// When a configuration is done, the viewport is set to the window's
/// current size, right after the sync callback is released.
pub proof fn lemma_configure_done_viewport_is_window_size(s: WaylandWindow, callback: u64, time: u32)
    ensures
        ({
            let a = configure_done_step(s, callback, time).1;
            &&& a.len() >= 2
            &&& a[0] == (Action::DestroyProxy { object: callback })
            &&& a[1] == (Action::Viewport { width: s.window_width, height: s.window_height })
        }),
{
}

/// Unless the EGL window awaits its first configuration, a toplevel
/// configure ends by setting the viewport to the size the window then has;
/// a sized configure of a window that is not fullscreen gives it that size,
/// and a fullscreen window keeps its state and its viewport at its size.
pub proof fn lemma_toplevel_configure_viewport_follows_size(s: WaylandWindow, width: i32, height: i32)
    requires
        !(s.egl_window != 0 && s.configured),
    ensures
        ({
            let (s1, a) = toplevel_configure_step(s, width, height);
            &&& a.len() >= 1
            &&& a.last() == (Action::Viewport { width: s1.window_width, height: s1.window_height })
            &&& (!s.fullscreen && width != 0 && height != 0) ==> s1.window_width == width
                && s1.window_height == height
            &&& s.fullscreen ==> s1 == s && a == seq![
                Action::Viewport { width: s.window_width, height: s.window_height },
            ]
        }),
{
}

/// A seat announcement keeps or asks for the keyboard exactly when the
/// keyboard bit (2) of the capability mask is set, and likewise the pointer
/// with the pointer bit (1); a device whose bit is clear is released.
pub proof fn lemma_seat_follows_capability_bits(s: WaylandWindow, seat: u64, caps: u32)
    ensures
        ({
            let (s1, a) = seat_step(s, seat, caps);
            &&& caps & 2u32 != 0 && s.keyboard == 0 ==> a.contains(Action::GetKeyboard { seat })
            &&& caps & 2u32 != 0 ==> s1.keyboard == s.keyboard
            &&& caps & 2u32 == 0 ==> s1.keyboard == 0
            &&& caps & 2u32 == 0 ==> !a.contains(Action::GetKeyboard { seat })
            &&& caps & 1u32 != 0 && s.pointer == 0 ==> a.contains(Action::GetPointer { seat })
            &&& caps & 1u32 != 0 ==> s1.pointer == s.pointer
            &&& caps & 1u32 == 0 ==> s1.pointer == 0
            &&& caps & 1u32 == 0 ==> !a.contains(Action::GetPointer { seat })
        }),
{
    let (s1, a) = seat_step(s, seat, caps);
    let pa: Seq<Action> = if has_pointer(caps) && s.pointer == 0 {
        seq![Action::GetPointer { seat }]
    } else if !has_pointer(caps) && s.pointer != 0 {
        seq![Action::DestroyProxy { object: s.pointer }]
    } else {
        seq![]
    };
    let ka: Seq<Action> = if has_keyboard(caps) && s.keyboard == 0 {
        seq![Action::GetKeyboard { seat }]
    } else if !has_keyboard(caps) && s.keyboard != 0 {
        seq![Action::DestroyProxy { object: s.keyboard }]
    } else {
        seq![]
    };
    assert(a =~= pa + ka);
    if caps & 2u32 != 0 && s.keyboard == 0 {
        assert(a[a.len() - 1] == Action::GetKeyboard { seat });
    }
    if caps & 1u32 != 0 && s.pointer == 0 {
        assert(a[0] == Action::GetPointer { seat });
    }
    if caps & 2u32 == 0 {
        assert forall|i: int| 0 <= i < a.len() implies a[i] != (Action::GetKeyboard { seat }) by {
            if i < pa.len() {
                assert(a[i] == pa[i]);
            } else {
                assert(a[i] == ka[i - pa.len()]);
            }
        }
    }
    if caps & 1u32 == 0 {
        assert forall|i: int| 0 <= i < a.len() implies a[i] != (Action::GetPointer { seat }) by {
            if i < pa.len() {
                assert(a[i] == pa[i]);
            } else {
                assert(a[i] == ka[i - pa.len()]);
            }
        }
    }
}

/// Only the pointer and keyboard bits of a capability mask matter: two masks
/// that agree on them lead to the same state and the same requests.
pub proof fn lemma_seat_ignores_other_capabilities(s: WaylandWindow, seat: u64, caps1: u32, caps2: u32)
    requires
        caps1 & 3u32 == caps2 & 3u32,
    ensures
        seat_step(s, seat, caps1) == seat_step(s, seat, caps2),
{
    assert(caps1 & 3u32 == caps2 & 3u32 ==> (caps1 & 1u32 == caps2 & 1u32 && caps1 & 2u32 == caps2 & 2u32))
        by (bit_vector);
    assert(has_pointer(caps1) == has_pointer(caps2));
    assert(has_keyboard(caps1) == has_keyboard(caps2));
}

/// A key other than Escape and F11, and any key release, changes nothing and
/// asks for nothing.
pub proof fn lemma_other_keys_are_ignored(s: WaylandWindow, key: u32, state: u32)
    requires
        (key != KEY_ESC && key != KEY_F11) || state == 0,
    ensures
        key_step(s, key, state).0 == s,
        key_step(s, key, state).1 == Seq::<Action>::empty(),
{
    assert(key_step(s, key, state).1 =~= Seq::<Action>::empty());
}

/// The registry binds a global only for its own interface name: an
/// announced name that is none of the four known ones is ignored.
pub proof fn lemma_only_known_names_are_bound(interface: Seq<char>, registry: u64, name: u32)
    ensures
        spec_classify_interface(interface) matches Some(k) ==> interface == global_interface(k),
        (forall|k: Global| interface != #[trigger] global_interface(k)) ==> {
            &&& spec_classify_interface(interface) is None
            &&& global_actions(registry, name, interface) == Seq::<Action>::empty()
        },
        global_interface(Global::Compositor) == "wl_compositor"@,
        global_interface(Global::XdgShell) == "zxdg_shell_v6"@,
        global_interface(Global::Seat) == "wl_seat"@,
        global_interface(Global::Shm) == "wl_shm"@,
{
    if forall|k: Global| interface != #[trigger] global_interface(k) {
        assert(interface != global_interface(Global::Compositor));
        assert(interface != global_interface(Global::XdgShell));
        assert(interface != global_interface(Global::Seat));
        assert(interface != global_interface(Global::Shm));
        assert(global_actions(registry, name, interface) =~= Seq::<Action>::empty());
    }
}

/// A frame releases its frame callback first (if it has one), then runs the
/// user's frame function with the time since the last frame — zero for the
/// first frame or one not started by a callback, otherwise the milliseconds
/// from the last frame on the wrapping 32-bit clock, in nanoseconds — then
/// asks for the next frame and redraws; the window records the frame time
/// and has no frame pending.
pub proof fn lemma_frame_reports_time_since_last_frame(s: WaylandWindow, callback: u64, millis: u32)
    ensures
        ({
            let (s1, a) = frame_step(s, callback, millis);
            let k: int = if callback != 0 { 1 } else { 0 };
            let nanos: int = if callback != 0 && s.start_time != 0 {
                ((millis as int + 0x1_0000_0000 - s.last_millis as int) % 0x1_0000_0000) * 1_000_000
            } else {
                0
            };
            &&& a.len() == k + 3
            &&& callback != 0 ==> a[0] == (Action::DestroyProxy { object: callback })
            &&& a[k] == (Action::RunFrame { nanos: nanos as u64 })
            &&& a[k + 1] == (Action::RequestFrame { surface: s.surface })
            &&& a[k + 2] == Action::Redraw
            &&& s1.last_millis == millis
            &&& s1.callback == 0
            &&& s1.window_width == s.window_width && s1.window_height == s.window_height
            &&& s1.running == s.running
        }),
{
    let (s1, a) = frame_step(s, callback, millis);
    if callback != 0 && s.start_time != 0 {
        let d = elapsed(millis, s.last_millis);
        assert(d == (millis as int + 0x1_0000_0000 - s.last_millis as int) % 0x1_0000_0000);
    }
}

/// A left press moves the window exactly when the pointer is less than 40
/// pixels (10240 in 24.8 fixed point) from its top, and otherwise prints
/// "Press"; a left release prints "Release"; the right, middle and side
/// buttons do nothing; any other button is reported as unknown.
pub proof fn lemma_button_moves_only_in_title_band(s: WaylandWindow, serial: u32, button: u32, state: u32)
    ensures
        button == BTN_LEFT && state != 0 && s.pointer_y < 40 * 256 ==> button_actions(s, serial, button, state)
            == seq![Action::Move { toplevel: s.toplevel, seat: s.seat, serial }],
        button == BTN_LEFT && state != 0 && s.pointer_y >= 40 * 256 ==> button_actions(s, serial, button, state)
            == seq![Action::Print { notice: crate::protocol::Notice::Press }],
        button == BTN_LEFT && state == 0 ==> button_actions(s, serial, button, state)
            == seq![Action::Print { notice: crate::protocol::Notice::Release }],
        button == BTN_RIGHT || button == BTN_MIDDLE || button == BTN_SIDE ==> button_actions(s, serial, button, state)
            == Seq::<Action>::empty(),
        button != BTN_LEFT && button != BTN_RIGHT && button != BTN_MIDDLE && button != BTN_SIDE ==> button_actions(
            s,
            serial,
            button,
            state,
        ) == seq![Action::PrintError { notice: crate::protocol::Notice::UnknownButton }],
{
    assert(Seq::<Action>::empty() =~= seq![]);
}

/// When the pointer enters, the cursor image is shown on the cursor surface
/// with its hotspot and size, unless it has no buffer, in which case nothing
/// is asked for.
pub proof fn lemma_enter_shows_cursor_image(s: WaylandWindow, pointer: u64, serial: u32, image: CursorImage, buffer: u64)
    ensures
        buffer == 0 ==> enter_actions(s, pointer, serial, image, buffer).len() == 0,
        buffer != 0 ==> ({
            let a = enter_actions(s, pointer, serial, image, buffer);
            &&& a.len() == 4
            &&& a[0] == (Action::SetCursor {
                pointer,
                serial,
                surface: s.cursor_surface,
                hotspot_x: image.hotspot_x,
                hotspot_y: image.hotspot_y,
            })
            &&& a[1] == (Action::Attach { surface: s.cursor_surface, buffer })
            &&& a[2] == (Action::Damage { surface: s.cursor_surface, width: image.width, height: image.height })
            &&& a[3] == (Action::Commit { surface: s.cursor_surface })
        }),
{
}

/// A made object is kept in the field of its slot, and no other field changes.
pub proof fn lemma_made_object_is_kept(s: WaylandWindow, slot: Slot, handle: u64)
    ensures
        ({
            let s1 = with_handle(s, slot, handle);
            &&& s1.compositor == if slot == Slot::Compositor { handle } else { s.compositor }
            &&& s1.shell == if slot == Slot::Shell { handle } else { s.shell }
            &&& s1.seat == if slot == Slot::Seat { handle } else { s.seat }
            &&& s1.shm == if slot == Slot::Shm { handle } else { s.shm }
            &&& s1.pointer == if slot == Slot::Pointer { handle } else { s.pointer }
            &&& s1.keyboard == if slot == Slot::Keyboard { handle } else { s.keyboard }
            &&& s1.cursor_theme == if slot == Slot::CursorTheme { handle } else { s.cursor_theme }
            &&& s1.default_cursor == if slot == Slot::DefaultCursor { handle } else { s.default_cursor }
            &&& s1.callback == if slot == Slot::FrameCallback { handle } else { s.callback }
            &&& s1.egl_window == if slot == Slot::EglWindow { handle } else { s.egl_window }
            &&& s1.surface == if slot == Slot::Surface { handle } else { s.surface }
            &&& s1.cursor_surface == if slot == Slot::CursorSurface { handle } else { s.cursor_surface }
            &&& s1.shell_surface == if slot == Slot::ShellSurface { handle } else { s.shell_surface }
            &&& s1.toplevel == if slot == Slot::Toplevel { handle } else { s.toplevel }
            &&& s1.wldisplay == s.wldisplay && s1.registry == s.registry
            &&& s1.running == s.running && s1.fullscreen == s.fullscreen && s1.configured == s.configured
            &&& s1.is_restored == s.is_restored
            &&& s1.window_width == s.window_width && s1.window_height == s.window_height
            &&& s1.restore_width == s.restore_width && s1.restore_height == s.restore_height
            &&& s1.last_millis == s.last_millis && s1.start_time == s.start_time
            &&& s1.pointer_x == s.pointer_x && s1.pointer_y == s.pointer_y
        }),
{
}

/// The main loop dispatches again exactly while the program runs and the
/// last dispatch did not fail (-1).
pub proof fn lemma_dispatch_while_running(s: WaylandWindow, last: Option<i32>)
    ensures
        spec_should_dispatch(s, last) <==> (s.running && !(last matches Some(r) && r == -1)),
{
}

/// Shared memory leads to loading the cursor theme at size 16 from it; a
/// theme leads to looking its default cursor up, with a warning when the
/// theme is missing; a missing default cursor is fatal; any other object
/// leads to nothing.
pub proof fn lemma_made_object_followups(slot: Slot, handle: u64)
    ensures
        slot == Slot::Shm ==> made_followups(slot, handle) == Ok::<Seq<Action>, crate::protocol::Fatal>(
            seq![Action::LoadCursorTheme { shm: handle, size: 16 }],
        ),
        slot == Slot::CursorTheme && handle != 0 ==> made_followups(slot, handle) == Ok::<
            Seq<Action>,
            crate::protocol::Fatal,
        >(seq![Action::GetDefaultCursor { theme: handle }]),
        slot == Slot::CursorTheme && handle == 0 ==> made_followups(slot, handle) == Ok::<
            Seq<Action>,
            crate::protocol::Fatal,
        >(
            seq![
                Action::PrintError { notice: crate::protocol::Notice::NoCursorTheme },
                Action::GetDefaultCursor { theme: 0 },
            ],
        ),
        slot == Slot::DefaultCursor ==> (made_followups(slot, handle) is Err <==> handle == 0),
        slot != Slot::Shm && slot != Slot::CursorTheme ==> (made_followups(slot, handle) matches Ok(v)
            ==> v.len() == 0),
{
    if slot == Slot::CursorTheme {
        if handle == 0 {
            assert(made_followups(slot, handle)->Ok_0 =~= seq![
                Action::PrintError { notice: crate::protocol::Notice::NoCursorTheme },
                Action::GetDefaultCursor { theme: 0 },
            ]);
        } else {
            assert(made_followups(slot, handle)->Ok_0 =~= seq![Action::GetDefaultCursor { theme: handle }]);
        }
    }
}

/// A new window runs, is 640 by 360 and restores to that size, awaits its
/// first configuration, is not fullscreen, and holds no object but its
/// display and registry.
pub proof fn lemma_new_window(display: u64, registry: u64)
    ensures
        ({
            let w = initial_window(display, registry);
            &&& w.running && w.configured && !w.fullscreen && !w.is_restored
            &&& w.window_width == 640 && w.window_height == 360
            &&& w.restore_width == 640 && w.restore_height == 360
            &&& w.start_time == 0 && w.last_millis == 0
            &&& w.wldisplay == display && w.registry == registry
            &&& w.callback == 0 && w.egl_window == 0 && w.surface == 0 && w.pointer == 0 && w.keyboard == 0
            &&& w.compositor == 0 && w.shell == 0 && w.seat == 0 && w.shm == 0 && w.toplevel == 0
        }),
{
}

} // verus!
