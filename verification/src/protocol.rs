//! The vocabulary that the window logic shares with the code that talks to
//! the compositor: protocol constants, the globals the window binds, and the
//! actions that an event handler asks its caller to perform.
use vstd::prelude::*;

verus! {

/// Linux input event code of the Escape key.
pub const KEY_ESC: u32 = 1;

/// Linux input event code of the F11 key.
pub const KEY_F11: u32 = 87;

/// Linux input event codes of the pointer buttons the window knows.
pub const BTN_LEFT: u32 = 0x110;

pub const BTN_RIGHT: u32 = 0x111;

pub const BTN_MIDDLE: u32 = 0x112;

pub const BTN_SIDE: u32 = 0x113;

/// Bits of the `wl_seat.capabilities` bit mask.
pub const SEAT_CAPABILITY_POINTER: u32 = 1;

pub const SEAT_CAPABILITY_KEYBOARD: u32 = 2;

pub const SEAT_CAPABILITY_TOUCH: u32 = 4;

/// Request opcodes of the core protocol and of `zxdg_shell_v6`.
pub const WL_DISPLAY_SYNC: u32 = 0;

pub const WL_DISPLAY_GET_REGISTRY: u32 = 1;

pub const WL_REGISTRY_BIND: u32 = 0;

pub const WL_COMPOSITOR_CREATE_SURFACE: u32 = 0;

pub const WL_SURFACE_DESTROY: u32 = 0;

pub const WL_SURFACE_ATTACH: u32 = 1;

pub const WL_SURFACE_DAMAGE: u32 = 2;

pub const WL_SURFACE_FRAME: u32 = 3;

pub const WL_SURFACE_COMMIT: u32 = 6;

pub const WL_SEAT_GET_POINTER: u32 = 0;

pub const WL_SEAT_GET_KEYBOARD: u32 = 1;

pub const WL_POINTER_SET_CURSOR: u32 = 0;

pub const ZXDG_SHELL_V6_GET_XDG_SURFACE: u32 = 2;

pub const ZXDG_SHELL_V6_PONG: u32 = 3;

pub const ZXDG_SURFACE_V6_DESTROY: u32 = 0;

pub const ZXDG_SURFACE_V6_GET_TOPLEVEL: u32 = 1;

pub const ZXDG_SURFACE_V6_ACK_CONFIGURE: u32 = 4;

pub const ZXDG_TOPLEVEL_V6_SET_TITLE: u32 = 2;

pub const ZXDG_TOPLEVEL_V6_SET_APP_ID: u32 = 3;

pub const ZXDG_TOPLEVEL_V6_MOVE: u32 = 5;

pub const ZXDG_TOPLEVEL_V6_SET_MAXIMIZED: u32 = 9;

pub const ZXDG_TOPLEVEL_V6_SET_FULLSCREEN: u32 = 11;

pub const ZXDG_TOPLEVEL_V6_UNSET_FULLSCREEN: u32 = 12;

/// Version with which every global is bound.
pub const BIND_VERSION: u32 = 1;

/// Size, in pixels, of the cursor theme that is loaded.
pub const CURSOR_THEME_SIZE: i32 = 16;

/// A global of the compositor that the window binds when the registry
/// announces it.
#[derive(Clone, Copy, Debug, PartialEq, Eq, Structural)]
pub enum Global {
    Compositor,
    XdgShell,
    Seat,
    Shm,
}

/// The event listener that is attached to an object right after it is made.
#[derive(Clone, Copy, Debug, PartialEq, Eq, Structural)]
pub enum Listener {
    Registry,
    ShellPing,
    Seat,
    Pointer,
    Keyboard,
    XdgSurface,
    Toplevel,
    Frame,
    ConfigureDone,
}

/// A place of the window in which the handle of a newly made object is kept.
#[derive(Clone, Copy, Debug, PartialEq, Eq, Structural)]
pub enum Slot {
    Compositor,
    Shell,
    Seat,
    Shm,
    Pointer,
    Keyboard,
    CursorTheme,
    DefaultCursor,
    FrameCallback,
    EglWindow,
    Surface,
    CursorSurface,
    ShellSurface,
    Toplevel,
}

/// A line that the window writes for its user.
#[derive(Clone, Copy, Debug, PartialEq, Eq, Structural)]
pub enum Notice {
    Press,
    Release,
    UnknownButton,
    NoCursorTheme,
}

/// A condition under which the window cannot go on.
#[derive(Clone, Copy, Debug, PartialEq, Eq, Structural)]
pub enum Fatal {
    NoDefaultCursor,
}

/// One effect that an event handler of the window asks its caller to
/// perform, in order.  Handles are the addresses of the protocol objects,
/// zero standing for a null object.
#[allow(inconsistent_fields)]
#[derive(Clone, Copy, Debug, PartialEq, Eq, Structural)]
pub enum Action {
    /// `wl_proxy_destroy`.
    DestroyProxy { object: u64 },
    /// `wl_surface.destroy`, then `wl_proxy_destroy`.
    DestroySurface { surface: u64 },
    /// `zxdg_surface_v6.destroy`, then `wl_proxy_destroy`.
    DestroyXdgSurface { xdg_surface: u64 },
    DestroyEglWindow { egl_window: u64 },
    DestroyCursorTheme { theme: u64 },
    FlushDisplay { display: u64 },
    DisconnectDisplay { display: u64 },
    /// `wl_registry.bind` of the global `name`, at version `BIND_VERSION`.
    Bind { registry: u64, name: u32, global: Global },
    GetPointer { seat: u64 },
    GetKeyboard { seat: u64 },
    /// Load the default cursor theme at the given size.
    LoadCursorTheme { shm: u64, size: i32 },
    /// Look the `left_ptr` cursor up in the theme.
    GetDefaultCursor { theme: u64 },
    CreateEglWindow { surface: u64, width: i32, height: i32 },
    ResizeEglWindow { egl_window: u64, width: i32, height: i32 },
    /// Set the drawing viewport to `(0, 0, width, height)`.
    Viewport { width: i32, height: i32 },
    SetCursor { pointer: u64, serial: u32, surface: u64, hotspot_x: u32, hotspot_y: u32 },
    /// Attach `buffer` at offset `(0, 0)`.
    Attach { surface: u64, buffer: u64 },
    /// Damage the rectangle `(0, 0, width, height)`.
    Damage { surface: u64, width: u32, height: u32 },
    Commit { surface: u64 },
    /// Start an interactive move of the toplevel.
    Move { toplevel: u64, seat: u64, serial: u32 },
    SetFullscreen { toplevel: u64 },
    UnsetFullscreen { toplevel: u64 },
    /// `wl_display.sync`, whose callback tells that a configuration is done.
    Sync { display: u64 },
    /// `wl_surface.frame`, whose callback tells when to draw the next frame.
    RequestFrame { surface: u64 },
    /// Run the user's frame function with the nanoseconds since the last frame.
    RunFrame { nanos: u64 },
    /// Redraw the drawing context on the screen.
    Redraw,
    Pong { shell: u64, serial: u32 },
    AckConfigure { xdg_surface: u64, serial: u32 },
    /// Write the notice to standard output.
    Print { notice: Notice },
    /// Write the notice to standard error.
    PrintError { notice: Notice },
}

/// The interface name under which the registry announces a global.
pub open spec fn global_interface(g: Global) -> Seq<char> {
    match g {
        Global::Compositor => "wl_compositor"@,
        Global::XdgShell => "zxdg_shell_v6"@,
        Global::Seat => "wl_seat"@,
        Global::Shm => "wl_shm"@,
    }
}

/// The global whose interface is `interface`, if the window binds it.
pub open spec fn spec_classify_interface(interface: Seq<char>) -> Option<Global> {
    if interface == global_interface(Global::Compositor) {
        Some(Global::Compositor)
    } else if interface == global_interface(Global::XdgShell) {
        Some(Global::XdgShell)
    } else if interface == global_interface(Global::Seat) {
        Some(Global::Seat)
    } else if interface == global_interface(Global::Shm) {
        Some(Global::Shm)
    } else {
        None
    }
}

/// Tells which global, if any, the window binds for an announced interface name.
pub fn classify_interface(interface: &str) -> (g: Option<Global>)
    ensures
        g == spec_classify_interface(interface@),
        g matches Some(k) ==> interface@ == global_interface(k),
        (forall|k: Global| interface@ != #[trigger] global_interface(k)) ==> g is None,
{
    let name = interface.to_owned();
    if name == "wl_compositor".to_owned() {
        Some(Global::Compositor)
    } else if name == "zxdg_shell_v6".to_owned() {
        Some(Global::XdgShell)
    } else if name == "wl_seat".to_owned() {
        Some(Global::Seat)
    } else if name == "wl_shm".to_owned() {
        Some(Global::Shm)
    } else {
        None
    }
}

/// The four interface names are distinct, so a global is found exactly by its name.
pub proof fn lemma_global_interfaces_distinct(a: Global, b: Global)
    ensures
        global_interface(a) == global_interface(b) <==> a == b,
        spec_classify_interface(global_interface(a)) == Some(a),
{
    reveal_strlit("wl_compositor");
    reveal_strlit("zxdg_shell_v6");
    reveal_strlit("wl_seat");
    reveal_strlit("wl_shm");
    assert("wl_compositor"@[0] != "zxdg_shell_v6"@[0]);
    assert("wl_seat"@.len() != "wl_shm"@.len());
}

pub open spec fn global_slot(g: Global) -> Slot {
    match g {
        Global::Compositor => Slot::Compositor,
        Global::XdgShell => Slot::Shell,
        Global::Seat => Slot::Seat,
        Global::Shm => Slot::Shm,
    }
}

/// The slot in which the handle of the object that an action makes is kept.
pub open spec fn spec_result_slot(a: Action) -> Option<Slot> {
    match a {
        Action::Bind { global, .. } => Some(global_slot(global)),
        Action::GetPointer { .. } => Some(Slot::Pointer),
        Action::GetKeyboard { .. } => Some(Slot::Keyboard),
        Action::LoadCursorTheme { .. } => Some(Slot::CursorTheme),
        Action::GetDefaultCursor { .. } => Some(Slot::DefaultCursor),
        Action::CreateEglWindow { .. } => Some(Slot::EglWindow),
        Action::RequestFrame { .. } => Some(Slot::FrameCallback),
        _ => None,
    }
}

/// The listener attached to the object that an action makes.
pub open spec fn spec_listener(a: Action) -> Option<Listener> {
    match a {
        Action::Bind { global: Global::XdgShell, .. } => Some(Listener::ShellPing),
        Action::Bind { global: Global::Seat, .. } => Some(Listener::Seat),
        Action::GetPointer { .. } => Some(Listener::Pointer),
        Action::GetKeyboard { .. } => Some(Listener::Keyboard),
        Action::RequestFrame { .. } => Some(Listener::Frame),
        Action::Sync { .. } => Some(Listener::ConfigureDone),
        _ => None,
    }
}

pub open spec fn notice_text(n: Notice) -> Seq<char> {
    match n {
        Notice::Press => "Press"@,
        Notice::Release => "Release"@,
        Notice::UnknownButton => "Unknown"@,
        Notice::NoCursorTheme => "unable to load default theme"@,
    }
}

pub open spec fn fatal_text(f: Fatal) -> Seq<char> {
    match f {
        Fatal::NoDefaultCursor => "unable to load default left pointer"@,
    }
}

impl Action {
    /// Where the handle of the object this action makes is to be kept, if anywhere.
    pub fn result_slot(&self) -> (s: Option<Slot>)
        ensures
            s == spec_result_slot(*self),
    {
        match self {
            Action::Bind { global, .. } => match global {
                Global::Compositor => Some(Slot::Compositor),
                Global::XdgShell => Some(Slot::Shell),
                Global::Seat => Some(Slot::Seat),
                Global::Shm => Some(Slot::Shm),
            },
            Action::GetPointer { .. } => Some(Slot::Pointer),
            Action::GetKeyboard { .. } => Some(Slot::Keyboard),
            Action::LoadCursorTheme { .. } => Some(Slot::CursorTheme),
            Action::GetDefaultCursor { .. } => Some(Slot::DefaultCursor),
            Action::CreateEglWindow { .. } => Some(Slot::EglWindow),
            Action::RequestFrame { .. } => Some(Slot::FrameCallback),
            _ => None,
        }
    }

    /// The listener to attach to the object this action makes, if any.
    pub fn listener(&self) -> (l: Option<Listener>)
        ensures
            l == spec_listener(*self),
    {
        match self {
            Action::Bind { global, .. } => match global {
                Global::XdgShell => Some(Listener::ShellPing),
                Global::Seat => Some(Listener::Seat),
                _ => None,
            },
            Action::GetPointer { .. } => Some(Listener::Pointer),
            Action::GetKeyboard { .. } => Some(Listener::Keyboard),
            Action::RequestFrame { .. } => Some(Listener::Frame),
            Action::Sync { .. } => Some(Listener::ConfigureDone),
            _ => None,
        }
    }
}

impl Notice {
    /// The line written for this notice.
    pub fn text(&self) -> (t: &'static str)
        ensures
            t@ == notice_text(*self),
    {
        match self {
            Notice::Press => "Press",
            Notice::Release => "Release",
            Notice::UnknownButton => "Unknown",
            Notice::NoCursorTheme => "unable to load default theme",
        }
    }
}

impl Fatal {
    /// The message with which the window gives up.
    pub fn text(&self) -> (t: &'static str)
        ensures
            t@ == fatal_text(*self),
    {
        match self {
            Fatal::NoDefaultCursor => "unable to load default left pointer",
        }
    }
}

} // verus!
