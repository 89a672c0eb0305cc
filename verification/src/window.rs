//! The state of a Wayland window and what each event of the compositor does
//! to it.  Every handler changes the state in place and returns, in order,
//! the requests that its caller sends on the window's behalf.
use vstd::prelude::*;
use crate::protocol::{
    classify_interface, spec_classify_interface, Action, Fatal, Notice, Slot, BTN_LEFT, BTN_MIDDLE, BTN_RIGHT,
    BTN_SIDE, CURSOR_THEME_SIZE, KEY_ESC, KEY_F11, SEAT_CAPABILITY_KEYBOARD, SEAT_CAPABILITY_POINTER,
};

verus! {

/// Width and height of a new window, and of the size it is restored to.
pub const INITIAL_WIDTH: i32 = 640;

pub const INITIAL_HEIGHT: i32 = 360;

/// Height of the band at the top of the window in which a left press moves
/// the window: 40 pixels, in the 24.8 fixed-point unit of pointer events.
pub const TITLE_BAR_FIXED: i32 = 10240;

/// Nanoseconds in a millisecond.
pub const NANOS_PER_MILLI: u64 = 1_000_000;

/// The image of the cursor shown while the pointer is over the window.
#[derive(Clone, Copy, Debug, PartialEq, Eq, Structural)]
pub struct CursorImage {
    pub width: u32,
    pub height: u32,
    pub hotspot_x: u32,
    pub hotspot_y: u32,
}

/// A Wayland window.  Protocol objects are held by their handles, zero for
/// none; the pointer position is held in the 24.8 fixed-point unit in which
/// the compositor sends it.
#[derive(Clone, Copy, Debug, PartialEq, Eq, Structural)]
pub struct WaylandWindow {
    /// Is the program still running?
    pub running: bool,
    /// Is the window at its restored size (neither maximized nor resized)?
    pub is_restored: bool,
    pub window_width: i32,
    pub window_height: i32,
    /// Size to go back to when the compositor leaves the size to the window.
    pub restore_width: i32,
    pub restore_height: i32,
    /// Compositor time, in milliseconds, of the last frame.
    pub last_millis: u32,
    /// Compositor time of the first frame, zero before it.
    pub start_time: u32,
    pub pointer_x: i32,
    pub pointer_y: i32,
    pub egl_window: u64,
    pub surface: u64,
    pub shell_surface: u64,
    /// Pending frame callback.
    pub callback: u64,
    /// Is a configuration of the window asked for and not yet seen?
    pub configured: bool,
    pub fullscreen: bool,
    pub wldisplay: u64,
    pub registry: u64,
    pub compositor: u64,
    pub shell: u64,
    pub seat: u64,
    pub pointer: u64,
    pub keyboard: u64,
    pub shm: u64,
    pub cursor_theme: u64,
    pub default_cursor: u64,
    pub cursor_surface: u64,
    pub toplevel: u64,
}

/// A window just connected to `display`, with `registry` as its registry.
pub open spec fn initial_window(display: u64, registry: u64) -> WaylandWindow {
    WaylandWindow {
        running: true,
        is_restored: false,
        window_width: INITIAL_WIDTH,
        window_height: INITIAL_HEIGHT,
        restore_width: INITIAL_WIDTH,
        restore_height: INITIAL_HEIGHT,
        last_millis: 0,
        start_time: 0,
        pointer_x: 0,
        pointer_y: 0,
        egl_window: 0,
        surface: 0,
        shell_surface: 0,
        callback: 0,
        configured: true,
        fullscreen: false,
        wldisplay: display,
        registry: registry,
        compositor: 0,
        shell: 0,
        seat: 0,
        pointer: 0,
        keyboard: 0,
        shm: 0,
        cursor_theme: 0,
        default_cursor: 0,
        cursor_surface: 0,
        toplevel: 0,
    }
}

/// Milliseconds from `before` to `now` on a 32-bit clock that wraps around.
pub open spec fn elapsed(now: u32, before: u32) -> u32 {
    if now >= before {
        (now - before) as u32
    } else {
        (now + 0x1_0000_0000 - before) as u32
    }
}

/// Milliseconds reported to a frame: none for the first frame or for a
/// frame not started by a frame callback.
pub open spec fn frame_millis(s: WaylandWindow, callback: u64, millis: u32) -> u32 {
    if callback != 0 && s.start_time != 0 {
        elapsed(millis, s.last_millis)
    } else {
        0
    }
}

/// A frame: the frame callback `callback` (zero when the frame is not started
/// by one) is done at compositor time `millis`.
pub open spec fn frame_step(s: WaylandWindow, callback: u64, millis: u32) -> (WaylandWindow, Seq<Action>) {
    let s1 = WaylandWindow {
        start_time: if callback != 0 && s.start_time == 0 { millis } else { s.start_time },
        last_millis: millis,
        callback: 0,
        ..s
    };
    let destroy: Seq<Action> = if callback != 0 { seq![Action::DestroyProxy { object: callback }] } else { seq![] };
    let nanos = (frame_millis(s, callback, millis) * NANOS_PER_MILLI) as u64;
    (s1, destroy + seq![
        Action::RunFrame { nanos },
        Action::RequestFrame { surface: s.surface },
        Action::Redraw,
    ])
}

/// The configuration asked for with the sync callback `callback` is done.
pub open spec fn configure_done_step(s: WaylandWindow, callback: u64, time: u32) -> (WaylandWindow, Seq<Action>) {
    let head = seq![
        Action::DestroyProxy { object: callback },
        Action::Viewport { width: s.window_width, height: s.window_height },
    ];
    if s.callback == 0 {
        let f = frame_step(s, 0, time);
        (f.0, head + f.1)
    } else {
        (s, head)
    }
}

/// The size the window takes when the compositor leaves the size to it.
pub open spec fn restore_size(s: WaylandWindow) -> (i32, i32) {
    (s.restore_width, s.restore_height)
}

/// The toplevel is configured to `width` by `height` (zero for either: the
/// window chooses).
pub open spec fn toplevel_configure_step(s: WaylandWindow, width: i32, height: i32) -> (WaylandWindow, Seq<Action>) {
    if s.egl_window != 0 && s.configured {
        (
            WaylandWindow { configured: false, window_width: width, window_height: height, ..s },
            seq![Action::ResizeEglWindow { egl_window: s.egl_window, width, height }],
        )
    } else if s.fullscreen {
        (s, seq![Action::Viewport { width: s.window_width, height: s.window_height }])
    } else if width != 0 && height != 0 {
        let s1 = WaylandWindow {
            restore_width: if s.is_restored { s.window_width } else { s.restore_width },
            restore_height: if s.is_restored { s.window_height } else { s.restore_height },
            is_restored: false,
            window_width: width,
            window_height: height,
            ..s
        };
        let resize: Seq<Action> = if s.egl_window != 0 {
            seq![Action::ResizeEglWindow { egl_window: s.egl_window, width, height }]
        } else {
            seq![]
        };
        (s1, resize + seq![Action::Viewport { width, height }])
    } else {
        let s1 = WaylandWindow {
            window_width: s.restore_width,
            window_height: s.restore_height,
            is_restored: true,
            ..s
        };
        let resize: Seq<Action> = if s.egl_window != 0 {
            seq![Action::ResizeEglWindow { egl_window: s.egl_window, width: s.restore_width, height: s.restore_height }]
        } else {
            seq![]
        };
        (s1, resize + seq![Action::Viewport { width: s.restore_width, height: s.restore_height }])
    }
}

/// A key changes state: `state` is zero for a release.
pub open spec fn key_step(s: WaylandWindow, key: u32, state: u32) -> (WaylandWindow, Seq<Action>) {
    if key == KEY_ESC && state != 0 {
        (WaylandWindow { running: false, ..s }, seq![])
    } else if key == KEY_F11 && state != 0 {
        let toggle = if s.fullscreen {
            Action::UnsetFullscreen { toplevel: s.toplevel }
        } else {
            Action::SetFullscreen { toplevel: s.toplevel }
        };
        (
            WaylandWindow { configured: true, fullscreen: !s.fullscreen, ..s },
            seq![toggle, Action::Sync { display: s.wldisplay }],
        )
    } else {
        (s, seq![])
    }
}

/// Is the pointer in the band at the top of the window that moves it?
pub open spec fn in_title_bar(s: WaylandWindow) -> bool {
    s.pointer_y < TITLE_BAR_FIXED
}

/// What a pointer button event asks for: `state` is zero for a release.
pub open spec fn button_actions(s: WaylandWindow, serial: u32, button: u32, state: u32) -> Seq<Action> {
    if button == BTN_LEFT {
        if state != 0 {
            if in_title_bar(s) {
                seq![Action::Move { toplevel: s.toplevel, seat: s.seat, serial }]
            } else {
                seq![Action::Print { notice: Notice::Press }]
            }
        } else {
            seq![Action::Print { notice: Notice::Release }]
        }
    } else if button == BTN_RIGHT || button == BTN_MIDDLE || button == BTN_SIDE {
        seq![]
    } else {
        seq![Action::PrintError { notice: Notice::UnknownButton }]
    }
}

/// What the pointer entering the window asks for: show the cursor image,
/// whose buffer is `buffer` (zero when it has none).
pub open spec fn enter_actions(s: WaylandWindow, pointer: u64, serial: u32, image: CursorImage, buffer: u64) -> Seq<Action> {
    if buffer == 0 {
        seq![]
    } else {
        seq![
            Action::SetCursor {
                pointer,
                serial,
                surface: s.cursor_surface,
                hotspot_x: image.hotspot_x,
                hotspot_y: image.hotspot_y,
            },
            Action::Attach { surface: s.cursor_surface, buffer },
            Action::Damage { surface: s.cursor_surface, width: image.width, height: image.height },
            Action::Commit { surface: s.cursor_surface },
        ]
    }
}

pub open spec fn has_pointer(caps: u32) -> bool {
    caps & SEAT_CAPABILITY_POINTER != 0
}

pub open spec fn has_keyboard(caps: u32) -> bool {
    caps & SEAT_CAPABILITY_KEYBOARD != 0
}

/// The seat `seat` announces the capabilities `caps`: input devices that
/// appear are asked for, those that are gone are released.
pub open spec fn seat_step(s: WaylandWindow, seat: u64, caps: u32) -> (WaylandWindow, Seq<Action>) {
    let (pointer, pointer_actions): (u64, Seq<Action>) = if has_pointer(caps) && s.pointer == 0 {
        (s.pointer, seq![Action::GetPointer { seat }])
    } else if !has_pointer(caps) && s.pointer != 0 {
        (0, seq![Action::DestroyProxy { object: s.pointer }])
    } else {
        (s.pointer, seq![])
    };
    let (keyboard, keyboard_actions): (u64, Seq<Action>) = if has_keyboard(caps) && s.keyboard == 0 {
        (s.keyboard, seq![Action::GetKeyboard { seat }])
    } else if !has_keyboard(caps) && s.keyboard != 0 {
        (0, seq![Action::DestroyProxy { object: s.keyboard }])
    } else {
        (s.keyboard, seq![])
    };
    (WaylandWindow { pointer, keyboard, ..s }, pointer_actions + keyboard_actions)
}

/// What the registry announcing global `name` with interface `interface` asks for.
pub open spec fn global_actions(registry: u64, name: u32, interface: Seq<char>) -> Seq<Action> {
    match spec_classify_interface(interface) {
        Some(global) => seq![Action::Bind { registry, name, global }],
        None => seq![],
    }
}

/// The window with `handle` kept in `slot`.
pub open spec fn with_handle(s: WaylandWindow, slot: Slot, handle: u64) -> WaylandWindow {
    match slot {
        Slot::Compositor => WaylandWindow { compositor: handle, ..s },
        Slot::Shell => WaylandWindow { shell: handle, ..s },
        Slot::Seat => WaylandWindow { seat: handle, ..s },
        Slot::Shm => WaylandWindow { shm: handle, ..s },
        Slot::Pointer => WaylandWindow { pointer: handle, ..s },
        Slot::Keyboard => WaylandWindow { keyboard: handle, ..s },
        Slot::CursorTheme => WaylandWindow { cursor_theme: handle, ..s },
        Slot::DefaultCursor => WaylandWindow { default_cursor: handle, ..s },
        Slot::FrameCallback => WaylandWindow { callback: handle, ..s },
        Slot::EglWindow => WaylandWindow { egl_window: handle, ..s },
        Slot::Surface => WaylandWindow { surface: handle, ..s },
        Slot::CursorSurface => WaylandWindow { cursor_surface: handle, ..s },
        Slot::ShellSurface => WaylandWindow { shell_surface: handle, ..s },
        Slot::Toplevel => WaylandWindow { toplevel: handle, ..s },
    }
}

/// What follows from an object being made and kept in `slot`: shared memory
/// leads to the cursor theme, the theme to its default cursor, and a missing
/// default cursor is fatal.
pub open spec fn made_followups(slot: Slot, handle: u64) -> Result<Seq<Action>, Fatal> {
    match slot {
        Slot::Shm => Ok(seq![Action::LoadCursorTheme { shm: handle, size: CURSOR_THEME_SIZE }]),
        Slot::CursorTheme => {
            let warn: Seq<Action> = if handle == 0 {
                seq![Action::PrintError { notice: Notice::NoCursorTheme }]
            } else {
                seq![]
            };
            Ok(warn + seq![Action::GetDefaultCursor { theme: handle }])
        },
        Slot::DefaultCursor => if handle == 0 { Err(Fatal::NoDefaultCursor) } else { Ok(seq![]) },
        _ => Ok(seq![]),
    }
}

/// The requests that release the window, in order; the display goes last.
pub open spec fn teardown_actions(s: WaylandWindow) -> Seq<Action> {
    seq![
        Action::DestroySurface { surface: s.surface },
        Action::DestroyEglWindow { egl_window: s.egl_window },
        Action::DestroyXdgSurface { xdg_surface: s.shell_surface },
    ]
    + (if s.callback != 0 { seq![Action::DestroyProxy { object: s.callback }] } else { seq![] })
    + seq![Action::DestroySurface { surface: s.cursor_surface }]
    + (if s.cursor_theme != 0 { seq![Action::DestroyCursorTheme { theme: s.cursor_theme }] } else { seq![] })
    + (if s.shell != 0 { seq![Action::DestroyProxy { object: s.shell }] } else { seq![] })
    + (if s.compositor != 0 { seq![Action::DestroyProxy { object: s.compositor }] } else { seq![] })
    + seq![
        Action::DestroyProxy { object: s.registry },
        Action::FlushDisplay { display: s.wldisplay },
        Action::DisconnectDisplay { display: s.wldisplay },
    ]
}

/// Does the main loop dispatch events again, after the last dispatch
/// returned `last` (`None` before the first)?
pub open spec fn spec_should_dispatch(s: WaylandWindow, last: Option<i32>) -> bool {
    s.running && last != Some(-1i32)
}

impl WaylandWindow {
    /// A window just connected to `display`, with `registry` as its registry.
    pub fn new(wldisplay: u64, registry: u64) -> (w: WaylandWindow)
        ensures
            w == initial_window(wldisplay, registry),
    {
        WaylandWindow {
            running: true,
            is_restored: false,
            window_width: INITIAL_WIDTH,
            window_height: INITIAL_HEIGHT,
            restore_width: INITIAL_WIDTH,
            restore_height: INITIAL_HEIGHT,
            last_millis: 0,
            start_time: 0,
            pointer_x: 0,
            pointer_y: 0,
            egl_window: 0,
            surface: 0,
            shell_surface: 0,
            callback: 0,
            configured: true,
            fullscreen: false,
            wldisplay,
            registry,
            compositor: 0,
            shell: 0,
            seat: 0,
            pointer: 0,
            keyboard: 0,
            shm: 0,
            cursor_theme: 0,
            default_cursor: 0,
            cursor_surface: 0,
            toplevel: 0,
        }
    }

    /// The toplevel is configured to `width` by `height`; zero for either
    /// leaves the size to the window, which takes its restore size.
    pub fn toplevel_configure(&mut self, width: i32, height: i32) -> (actions: Vec<Action>)
        ensures
            *final(self) == toplevel_configure_step(*old(self), width, height).0,
            actions@ == toplevel_configure_step(*old(self), width, height).1,
            !(old(self).egl_window != 0 && old(self).configured) ==> actions@.len() >= 1
                && actions@.last() == (Action::Viewport {
                    width: final(self).window_width,
                    height: final(self).window_height,
                }),
            old(self).fullscreen && !(old(self).egl_window != 0 && old(self).configured) ==> {
                &&& *final(self) == *old(self)
                &&& actions@ == seq![Action::Viewport { width: old(self).window_width, height: old(self).window_height }]
            },
    {
        let mut actions: Vec<Action> = Vec::new();
        if self.egl_window != 0 && self.configured {
            actions.push(Action::ResizeEglWindow { egl_window: self.egl_window, width, height });
            self.configured = false;
            self.window_width = width;
            self.window_height = height;
        } else {
            if self.fullscreen {
            } else if width != 0 && height != 0 {
                if self.is_restored {
                    self.restore_width = self.window_width;
                    self.restore_height = self.window_height;
                }
                self.is_restored = false;
                if self.egl_window != 0 {
                    actions.push(Action::ResizeEglWindow { egl_window: self.egl_window, width, height });
                }
                self.window_width = width;
                self.window_height = height;
            } else {
                self.window_width = self.restore_width;
                self.window_height = self.restore_height;
                self.is_restored = true;
                if self.egl_window != 0 {
                    actions.push(
                        Action::ResizeEglWindow {
                            egl_window: self.egl_window,
                            width: self.restore_width,
                            height: self.restore_height,
                        },
                    );
                }
            }
            actions.push(Action::Viewport { width: self.window_width, height: self.window_height });
        }
        proof {
            assert(actions@ =~= toplevel_configure_step(*old(self), width, height).1);
        }
        actions
    }

    /// A frame is due at compositor time `millis`: the frame callback
    /// `callback` is done, or, with `callback` zero, a configuration asks
    /// for a frame while none is pending.  Reports the time since the last
    /// frame and asks for the next one.
    pub fn frame_done(&mut self, callback: u64, millis: u32) -> (actions: Vec<Action>)
        requires
            old(self).callback == callback,
        ensures
            *final(self) == frame_step(*old(self), callback, millis).0,
            actions@ == frame_step(*old(self), callback, millis).1,
    {
        let mut actions: Vec<Action> = Vec::new();
        let diff_millis: u32 = if callback != 0 {
            actions.push(Action::DestroyProxy { object: callback });
            if self.start_time == 0 {
                self.start_time = millis;
                0
            } else if millis >= self.last_millis {
                millis - self.last_millis
            } else {
                // The compositor clock wrapped around since the last frame.
                ((millis as u64 + 0x1_0000_0000u64) - self.last_millis as u64) as u32
            }
        } else {
            0
        };
        self.callback = 0;
        let diff_nanos: u64 = diff_millis as u64 * NANOS_PER_MILLI;
        self.last_millis = millis;
        actions.push(Action::RunFrame { nanos: diff_nanos });
        actions.push(Action::RequestFrame { surface: self.surface });
        actions.push(Action::Redraw);
        proof {
            assert(actions@ =~= frame_step(*old(self), callback, millis).1);
        }
        actions
    }

    /// The configuration asked for with the sync callback `callback` is done
    /// at compositor time `time`: the viewport follows the window size, and a
    /// frame is drawn unless one is already pending.
    pub fn configure_done(&mut self, callback: u64, time: u32) -> (actions: Vec<Action>)
        ensures
            *final(self) == configure_done_step(*old(self), callback, time).0,
            actions@ == configure_done_step(*old(self), callback, time).1,
            actions@.len() >= 2,
            actions@[0] == (Action::DestroyProxy { object: callback }),
            actions@[1] == (Action::Viewport { width: old(self).window_width, height: old(self).window_height }),
    {
        let mut actions: Vec<Action> = Vec::new();
        actions.push(Action::DestroyProxy { object: callback });
        actions.push(Action::Viewport { width: self.window_width, height: self.window_height });
        if self.callback == 0 {
            let mut frame = self.frame_done(0, time);
            actions.append(&mut frame);
        }
        proof {
            assert(actions@ =~= configure_done_step(*old(self), callback, time).1);
        }
        actions
    }

    /// A key changes state (`state` zero for a release).  Escape stops the
    /// program; F11 toggles fullscreen and asks to be told when the new
    /// configuration is done.
    pub fn keyboard_key(&mut self, key: u32, state: u32) -> (actions: Vec<Action>)
        ensures
            *final(self) == key_step(*old(self), key, state).0,
            actions@ == key_step(*old(self), key, state).1,
            (key != KEY_ESC && key != KEY_F11) || state == 0 ==> {
                &&& *final(self) == *old(self)
                &&& actions@.len() == 0
            },
    {
        let mut actions: Vec<Action> = Vec::new();
        if key == KEY_ESC && state != 0 {
            self.running = false;
        } else if key == KEY_F11 && state != 0 {
            self.configured = true;
            if self.fullscreen {
                actions.push(Action::UnsetFullscreen { toplevel: self.toplevel });
                self.fullscreen = false;
            } else {
                actions.push(Action::SetFullscreen { toplevel: self.toplevel });
                self.fullscreen = true;
            }
            actions.push(Action::Sync { display: self.wldisplay });
        }
        proof {
            assert(actions@ =~= key_step(*old(self), key, state).1);
        }
        actions
    }

    /// The pointer moves to `(x, y)`, in 24.8 fixed point.
    pub fn pointer_motion(&mut self, x: i32, y: i32)
        ensures
            *final(self) == (WaylandWindow { pointer_x: x, pointer_y: y, ..*old(self) }),
    {
        self.pointer_x = x;
        self.pointer_y = y;
    }

    /// A pointer button changes state (`state` zero for a release).  A left
    /// press in the title band moves the window.
    pub fn pointer_button(&self, serial: u32, button: u32, state: u32) -> (actions: Vec<Action>)
        ensures
            actions@ == button_actions(*self, serial, button, state),
    {
        let mut actions: Vec<Action> = Vec::new();
        if button == BTN_LEFT {
            if state != 0 {
                if self.pointer_y < TITLE_BAR_FIXED {
                    actions.push(Action::Move { toplevel: self.toplevel, seat: self.seat, serial });
                } else {
                    actions.push(Action::Print { notice: Notice::Press });
                }
            } else {
                actions.push(Action::Print { notice: Notice::Release });
            }
        } else if button == BTN_RIGHT || button == BTN_MIDDLE || button == BTN_SIDE {
        } else {
            actions.push(Action::PrintError { notice: Notice::UnknownButton });
        }
        proof {
            assert(actions@ =~= button_actions(*self, serial, button, state));
        }
        actions
    }

    /// The pointer `pointer` enters the window: it shows the cursor `image`,
    /// whose buffer is `buffer`, unless the image has no buffer (zero).
    pub fn pointer_enter(&self, pointer: u64, serial: u32, image: CursorImage, buffer: u64) -> (actions: Vec<Action>)
        ensures
            actions@ == enter_actions(*self, pointer, serial, image, buffer),
    {
        let mut actions: Vec<Action> = Vec::new();
        if buffer == 0 {
            return actions;
        }
        actions.push(
            Action::SetCursor {
                pointer,
                serial,
                surface: self.cursor_surface,
                hotspot_x: image.hotspot_x,
                hotspot_y: image.hotspot_y,
            },
        );
        actions.push(Action::Attach { surface: self.cursor_surface, buffer });
        actions.push(Action::Damage { surface: self.cursor_surface, width: image.width, height: image.height });
        actions.push(Action::Commit { surface: self.cursor_surface });
        proof {
            assert(actions@ =~= enter_actions(*self, pointer, serial, image, buffer));
        }
        actions
    }

    /// The toplevel is asked to close: the program stops running.
    pub fn toplevel_close(&mut self)
        ensures
            *final(self) == (WaylandWindow { running: false, ..*old(self) }),
    {
        self.running = false;
    }

    /// The shell `shell` checks that the client is alive: it answers the ping.
    pub fn shell_ping(shell: u64, serial: u32) -> (a: Action)
        ensures
            a == (Action::Pong { shell, serial }),
    {
        Action::Pong { shell, serial }
    }

    /// The xdg surface `xdg_surface` is configured: the configuration is acknowledged.
    pub fn surface_configure(xdg_surface: u64, serial: u32) -> (a: Action)
        ensures
            a == (Action::AckConfigure { xdg_surface, serial }),
    {
        Action::AckConfigure { xdg_surface, serial }
    }

    /// The seat `seat` announces its capabilities `caps`: a pointer or
    /// keyboard that appears is asked for, one that is gone is released.
    pub fn seat_capabilities(&mut self, seat: u64, caps: u32) -> (actions: Vec<Action>)
        ensures
            *final(self) == seat_step(*old(self), seat, caps).0,
            actions@ == seat_step(*old(self), seat, caps).1,
            caps & 2u32 != 0 && old(self).keyboard == 0 ==> actions@.contains(Action::GetKeyboard { seat }),
            caps & 2u32 != 0 ==> final(self).keyboard == old(self).keyboard,
            caps & 2u32 == 0 ==> final(self).keyboard == 0,
            caps & 1u32 != 0 && old(self).pointer == 0 ==> actions@.contains(Action::GetPointer { seat }),
            caps & 1u32 != 0 ==> final(self).pointer == old(self).pointer,
            caps & 1u32 == 0 ==> final(self).pointer == 0,
    {
        let mut actions: Vec<Action> = Vec::new();
        let has_pointer = (caps & SEAT_CAPABILITY_POINTER) != 0;
        if has_pointer && self.pointer == 0 {
            actions.push(Action::GetPointer { seat });
        } else if !has_pointer && self.pointer != 0 {
            actions.push(Action::DestroyProxy { object: self.pointer });
            self.pointer = 0;
        }
        let has_keyboard = (caps & SEAT_CAPABILITY_KEYBOARD) != 0;
        if has_keyboard && self.keyboard == 0 {
            actions.push(Action::GetKeyboard { seat });
        } else if !has_keyboard && self.keyboard != 0 {
            actions.push(Action::DestroyProxy { object: self.keyboard });
            self.keyboard = 0;
        }
        proof {
            assert(actions@ =~= seat_step(*old(self), seat, caps).1);
            if has_keyboard && old(self).keyboard == 0 {
                assert(actions@[actions@.len() - 1] == Action::GetKeyboard { seat });
            }
            if has_pointer && old(self).pointer == 0 {
                assert(actions@[0] == Action::GetPointer { seat });
            }
        }
        actions
    }

    /// The registry `registry` announces global `name` with interface
    /// `interface`: the compositor, the xdg shell, the seat and shared
    /// memory are bound, anything else is ignored.
    pub fn registry_global(registry: u64, name: u32, interface: &str) -> (actions: Vec<Action>)
        ensures
            actions@ == global_actions(registry, name, interface@),
    {
        let mut actions: Vec<Action> = Vec::new();
        match classify_interface(interface) {
            Some(global) => actions.push(Action::Bind { registry, name, global }),
            None => {},
        }
        proof {
            assert(actions@ =~= global_actions(registry, name, interface@));
        }
        actions
    }

    /// The object with handle `handle` was made for `slot`: it is kept there,
    /// and what follows from it is returned; a missing default cursor is fatal.
    pub fn object_made(&mut self, slot: Slot, handle: u64) -> (r: Result<Vec<Action>, Fatal>)
        ensures
            *final(self) == with_handle(*old(self), slot, handle),
            match (r, made_followups(slot, handle)) {
                (Ok(v), Ok(w)) => v@ == w,
                (Err(e), Err(f)) => e == f,
                _ => false,
            },
    {
        match slot {
            Slot::Compositor => self.compositor = handle,
            Slot::Shell => self.shell = handle,
            Slot::Seat => self.seat = handle,
            Slot::Shm => self.shm = handle,
            Slot::Pointer => self.pointer = handle,
            Slot::Keyboard => self.keyboard = handle,
            Slot::CursorTheme => self.cursor_theme = handle,
            Slot::DefaultCursor => self.default_cursor = handle,
            Slot::FrameCallback => self.callback = handle,
            Slot::EglWindow => self.egl_window = handle,
            Slot::Surface => self.surface = handle,
            Slot::CursorSurface => self.cursor_surface = handle,
            Slot::ShellSurface => self.shell_surface = handle,
            Slot::Toplevel => self.toplevel = handle,
        }
        let mut actions: Vec<Action> = Vec::new();
        match slot {
            Slot::Shm => {
                actions.push(Action::LoadCursorTheme { shm: handle, size: CURSOR_THEME_SIZE });
            },
            Slot::CursorTheme => {
                if handle == 0 {
                    actions.push(Action::PrintError { notice: Notice::NoCursorTheme });
                }
                actions.push(Action::GetDefaultCursor { theme: handle });
            },
            Slot::DefaultCursor => {
                if handle == 0 {
                    return Err(Fatal::NoDefaultCursor);
                }
            },
            _ => {},
        }
        proof {
            match made_followups(slot, handle) {
                Ok(w) => assert(actions@ =~= w),
                Err(_) => {},
            }
        }
        Ok(actions)
    }

    /// Asks for the EGL window of the surface, at the window's size.
    pub fn egl_window_request(&self) -> (a: Action)
        ensures
            a == (Action::CreateEglWindow {
                surface: self.surface,
                width: self.window_width,
                height: self.window_height,
            }),
    {
        Action::CreateEglWindow { surface: self.surface, width: self.window_width, height: self.window_height }
    }

    /// Does the main loop dispatch events again, after the last dispatch
    /// returned `last` (`None` before the first)?  It stops once the program
    /// no longer runs or a dispatch fails.
    pub fn should_dispatch(&self, last: Option<i32>) -> (b: bool)
        ensures
            b == spec_should_dispatch(*self, last),
    {
        if !self.running {
            return false;
        }
        match last {
            Some(r) => r != -1,
            None => true,
        }
    }

    /// The requests that release the window, in order.
    pub fn teardown(&self) -> (actions: Vec<Action>)
        ensures
            actions@ == teardown_actions(*self),
    {
        let mut actions: Vec<Action> = Vec::new();
        actions.push(Action::DestroySurface { surface: self.surface });
        actions.push(Action::DestroyEglWindow { egl_window: self.egl_window });
        actions.push(Action::DestroyXdgSurface { xdg_surface: self.shell_surface });
        if self.callback != 0 {
            actions.push(Action::DestroyProxy { object: self.callback });
        }
        actions.push(Action::DestroySurface { surface: self.cursor_surface });
        if self.cursor_theme != 0 {
            actions.push(Action::DestroyCursorTheme { theme: self.cursor_theme });
        }
        if self.shell != 0 {
            actions.push(Action::DestroyProxy { object: self.shell });
        }
        if self.compositor != 0 {
            actions.push(Action::DestroyProxy { object: self.compositor });
        }
        actions.push(Action::DestroyProxy { object: self.registry });
        actions.push(Action::FlushDisplay { display: self.wldisplay });
        actions.push(Action::DisconnectDisplay { display: self.wldisplay });
        proof {
            assert(actions@ =~= teardown_actions(*self));
        }
        actions
    }
}

} // verus!
