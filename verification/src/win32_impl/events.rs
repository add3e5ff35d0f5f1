//! The input state of the GUI library as plain values: the flags the platform
//! layer reads, the fields it sets, and the queue of events it fills.

use vstd::prelude::*;
use crate::win32_impl::input::{Key, MouseButton};

verus! {

/// Backend flag: the platform layer honours the GUI library's cursor shapes.
pub const HAS_MOUSE_CURSORS: u32 = 0x2;

/// Backend flag: the renderer honours a vertex offset in each draw batch.
pub const RENDERER_HAS_VTX_OFFSET: u32 = 0x8;

/// One input event for the GUI library.
#[derive(Debug, Clone, Copy, PartialEq, Eq, Structural)]
pub enum InputEvent {
    /// The pointer is at `(x, y)`.  With `screen` unset these are client
    /// coordinates.  With `screen` set they are screen coordinates: the
    /// embedding program converts them to client coordinates first, and drops
    /// the event if the conversion fails.
    MousePos { x: i32, y: i32, screen: bool },
    /// A mouse button went down or up.
    MouseButton { button: MouseButton, down: bool },
    /// The wheel turned by `x` units sideways and `y` units vertically, in
    /// units of which `WHEEL_DELTA` make one notch.
    MouseWheel { x: i32, y: i32 },
    /// A key went down or up.
    Key { key: Key, down: bool },
    /// A character was typed.
    Character { c: char },
}

/// The part of the GUI library's input/output state that the platform layer
/// reads and writes.
pub struct Io {
    /// The GUI wants mouse input for itself.
    pub want_capture_mouse: bool,
    /// The GUI wants keyboard input for itself.
    pub want_capture_keyboard: bool,
    /// The GUI wants typed characters for itself.
    pub want_text_input: bool,
    /// The window has lost input focus.
    pub app_focus_lost: bool,
    /// What the backends have announced they can do.
    pub backend_flags: u32,
    /// How the GUI library is configured.
    pub config_flags: u32,
    /// Width and height of the client area in pixels.
    pub display_size: (i64, i64),
    /// Nanoseconds since the previous frame.
    pub delta_time: u64,
    /// Events not yet handed to the GUI library, oldest first.
    pub events: Vec<InputEvent>,
}

impl Io {
    /// A state with no flag set and no event queued.
    pub fn new() -> (io: Self)
        ensures
            !io.want_capture_mouse,
            !io.want_capture_keyboard,
            !io.want_text_input,
            !io.app_focus_lost,
            io.backend_flags == 0,
            io.config_flags == 0,
            io.display_size == (0i64, 0i64),
            io.delta_time == 0,
            io.events@ == Seq::<InputEvent>::empty(),
    {
        Io {
            want_capture_mouse: false,
            want_capture_keyboard: false,
            want_text_input: false,
            app_focus_lost: false,
            backend_flags: 0,
            config_flags: 0,
            display_size: (0, 0),
            delta_time: 0,
            events: Vec::new(),
        }
    }

    /// Everything but the event queue is the same in `self` and `other`.
    pub open spec fn same_settings(&self, other: &Io) -> bool {
        &&& self.want_capture_mouse == other.want_capture_mouse
        &&& self.want_capture_keyboard == other.want_capture_keyboard
        &&& self.want_text_input == other.want_text_input
        &&& self.app_focus_lost == other.app_focus_lost
        &&& self.backend_flags == other.backend_flags
        &&& self.config_flags == other.config_flags
        &&& self.display_size == other.display_size
        &&& self.delta_time == other.delta_time
    }
}

} // verus!
