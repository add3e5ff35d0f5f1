//! The platform layer of the overlay: it turns window messages into input
//! events and samples window size, time and cursor once per frame.

use vstd::prelude::*;
use crate::types::{Handle, Rect};
use crate::win32_impl::events::{InputEvent, Io, HAS_MOUSE_CURSORS};
use crate::win32_impl::input::{
    key_of_scancode, key_of_virtual_key, scancode_to_key, virtual_key_to_key, Key, MouseButton,
    WM_CHAR, WM_KEYDOWN, WM_KEYUP, WM_KILLFOCUS, WM_LBUTTONDBLCLK, WM_LBUTTONDOWN, WM_LBUTTONUP,
    WM_MBUTTONDBLCLK, WM_MBUTTONDOWN, WM_MBUTTONUP, WM_MOUSEHWHEEL, WM_MOUSEMOVE, WM_MOUSEWHEEL,
    WM_NCMOUSEMOVE, WM_RBUTTONDBLCLK, WM_RBUTTONDOWN, WM_RBUTTONUP, WM_SETFOCUS, WM_SYSKEYDOWN,
    WM_SYSKEYUP, WM_XBUTTONDBLCLK, WM_XBUTTONDOWN, WM_XBUTTONUP, XBUTTON1,
};

verus! {

/// Name under which the platform layer registers with the GUI library.
pub const PLATFORM_NAME: &'static str = "riri-imgui-hook-win32";

/// Pixel size of the font that the platform layer asks the GUI library for.
pub const DEFAULT_FONT_SIZE_PIXELS: u32 = 13;

/// Bits 0 to 15 of `v`, as a number from 0 to 65535.
pub open spec fn low_word(v: int) -> int {
    v % 0x1_0000
}

/// Bits 16 to 31 of `v`, as a number from 0 to 65535.
pub open spec fn high_word(v: int) -> int {
    (v / 0x1_0000) % 0x1_0000
}

/// A 16-bit pattern read as a signed number.
pub open spec fn as_signed_word(w: int) -> int {
    if w < 0x8000 {
        w
    } else {
        w - 0x1_0000
    }
}

/// The low word of a message's `wparam`.
pub fn wparam_get_low_word(wparam: usize) -> (word: u16)
    ensures
        word == low_word(wparam as int),
{
    assert(wparam & 0xffff == wparam % 0x1_0000) by (bit_vector);
    (wparam & 0xffff) as u16
}

/// The high word of a message's `wparam`.
pub fn wparam_get_high_word(wparam: usize) -> (word: u16)
    ensures
        word == high_word(wparam as int),
{
    assert((wparam >> 16) & 0xffff == (wparam / 0x1_0000) % 0x1_0000) by (bit_vector);
    ((wparam >> 16) & 0xffff) as u16
}

/// The low word of a message's `lparam`, read as a signed number.
pub fn lparam_get_low_word(lparam: isize) -> (word: i16)
    ensures
        word == as_signed_word(low_word(lparam as int)),
{
    let w: isize = lparam & 0xffff;
    assert(w == lparam % 0x1_0000 && 0 <= w < 0x1_0000) by (bit_vector)
        requires
            w == lparam & 0xffff,
    ;
    if w < 0x8000 {
        w as i16
    } else {
        (w - 0x1_0000) as i16
    }
}

/// The high word of a message's `lparam`, read as a signed number.
pub fn lparam_get_high_word(lparam: isize) -> (word: i16)
    ensures
        word == as_signed_word(high_word(lparam as int)),
{
    let w: isize = (lparam >> 16) & 0xffff;
    assert(w == (lparam / 0x1_0000) % 0x1_0000 && 0 <= w < 0x1_0000) by (bit_vector)
        requires
            w == (lparam >> 16) & 0xffff,
    ;
    if w < 0x8000 {
        w as i16
    } else {
        (w - 0x1_0000) as i16
    }
}

/// The event that says that the replacement character was typed.
fn replacement_character() -> (event: InputEvent)
    ensures
        event == (InputEvent::Character { c: '\u{FFFD}' }),
{
    InputEvent::Character { c: '\u{FFFD}' }
}

/// `char::from_u32`: the character with code point `u`, which exists when `u`
/// is a Unicode scalar value, that is, at most 0x10FFFF and not a surrogate.
#[verifier::external_body]
fn char_from_u32(u: u32) -> (c: Option<char>)
    ensures
        c == (if is_scalar_value(u as int) {
            Some(u as char)
        } else {
            None::<char>
        }),
{
    char::from_u32(u)
}

/// `u` is a Unicode scalar value.
pub open spec fn is_scalar_value(u: int) -> bool {
    (0 <= u <= 0xD7FF) || (0xE000 <= u <= 0x10_FFFF)
}

/// The key that a key message names: the one of its virtual-key code, which is
/// the low word of `wparam`, or else the one of its scan code, which is bits 16
/// to 23 of `lparam`.
pub open spec fn key_of_message(wparam: usize, lparam: isize) -> Option<Key> {
    match key_of_virtual_key(low_word(wparam as int) as u16) {
        Some(key) => Some(key),
        None => key_of_scancode((high_word(lparam as int) % 0x100) as u8),
    }
}

/// The button that a button message names.  For the extended buttons the high
/// word of `wparam` tells which one it is.
pub open spec fn button_of_message(umsg: u32, wparam: usize) -> MouseButton {
    if umsg == WM_LBUTTONDOWN || umsg == WM_LBUTTONDBLCLK || umsg == WM_LBUTTONUP {
        MouseButton::Left
    } else if umsg == WM_RBUTTONDOWN || umsg == WM_RBUTTONDBLCLK || umsg == WM_RBUTTONUP {
        MouseButton::Right
    } else if umsg == WM_MBUTTONDOWN || umsg == WM_MBUTTONDBLCLK || umsg == WM_MBUTTONUP {
        MouseButton::Middle
    } else if high_word(wparam as int) == XBUTTON1 {
        MouseButton::Extra1
    } else {
        MouseButton::Extra2
    }
}

/// The message says that a mouse button went down.
pub open spec fn is_button_down(umsg: u32) -> bool {
    umsg == WM_LBUTTONDOWN || umsg == WM_LBUTTONDBLCLK || umsg == WM_RBUTTONDOWN || umsg
        == WM_RBUTTONDBLCLK || umsg == WM_MBUTTONDOWN || umsg == WM_MBUTTONDBLCLK || umsg
        == WM_XBUTTONDOWN || umsg == WM_XBUTTONDBLCLK
}

/// The message says that a mouse button went up.
pub open spec fn is_button_up(umsg: u32) -> bool {
    umsg == WM_LBUTTONUP || umsg == WM_RBUTTONUP || umsg == WM_MBUTTONUP || umsg == WM_XBUTTONUP
}

/// The message is about the mouse wheel.
pub open spec fn is_wheel(umsg: u32) -> bool {
    umsg == WM_MOUSEWHEEL || umsg == WM_MOUSEHWHEEL
}

/// The message says that a key went down or up.
pub open spec fn is_key(umsg: u32) -> bool {
    umsg == WM_KEYDOWN || umsg == WM_KEYUP || umsg == WM_SYSKEYDOWN || umsg == WM_SYSKEYUP
}

/// `unit` is the first half of a surrogate pair.
pub open spec fn is_high_surrogate(unit: int) -> bool {
    0xD800 <= unit <= 0xDBFF
}

/// `unit` is the second half of a surrogate pair.
pub open spec fn is_low_surrogate(unit: int) -> bool {
    0xDC00 <= unit <= 0xDFFF
}

/// The code point that the surrogate pair of `high` and `low` stands for.
pub open spec fn combine_surrogates(high: int, low: int) -> int {
    0x1_0000 + (high - 0xD800) * 0x400 + (low - 0xDC00)
}

/// The characters that a character message carries, as the events that say
/// that they were typed.
///
/// A Unicode window sends one UTF-16 code unit in 1..=0xFFFF; any other value
/// carries nothing.  `pending` is the first half of a surrogate pair that the
/// message before it left behind.  A first half carries nothing by itself.
/// A second half that follows a first half carries the one character that the
/// pair stands for.  Any half without its other half stands for the
/// replacement character: a second half that follows no first half, and a
/// first half that is followed by anything but a second half.  A unit that is
/// no half of a pair carries its character.
///
/// Any other window sends a code point in the low 32 bits, which carries a
/// character when it is a scalar value.
pub open spec fn characters_of_message(pending: Option<u16>, wparam: usize, unicode: bool) -> Seq<
    InputEvent,
> {
    let replacement = InputEvent::Character { c: '\u{FFFD}' };
    if unicode {
        if 0 < wparam <= 0xFFFF {
            let lone: Seq<InputEvent> = if pending is Some {
                seq![replacement]
            } else {
                Seq::empty()
            };
            if is_high_surrogate(wparam as int) {
                lone
            } else if is_low_surrogate(wparam as int) {
                match pending {
                    Some(high) => seq![
                        InputEvent::Character {
                            c: combine_surrogates(high as int, wparam as int) as char,
                        },
                    ],
                    None => seq![replacement],
                }
            } else {
                lone.push(InputEvent::Character { c: wparam as char })
            }
        } else {
            Seq::empty()
        }
    } else {
        let code = wparam as int % 0x1_0000_0000;
        if is_scalar_value(code) {
            seq![InputEvent::Character { c: code as char }]
        } else {
            Seq::empty()
        }
    }
}

/// A surrogate pair is one character.  The first half queues nothing and is
/// left behind; the second half, coming next, queues the one character that the
/// pair stands for, which is a character beyond the basic plane, and leaves
/// nothing behind.
pub proof fn lemma_surrogate_pair(high: usize, low: usize)
    requires
        is_high_surrogate(high as int),
        is_low_surrogate(low as int),
    ensures
        characters_of_message(None, high, true) == Seq::<InputEvent>::empty(),
        pending_after(None, WM_CHAR, high, true) == Some(high as u16),
        characters_of_message(Some(high as u16), low, true) == seq![
            InputEvent::Character { c: combine_surrogates(high as int, low as int) as char },
        ],
        pending_after(Some(high as u16), WM_CHAR, low, true) is None,
        0x1_0000 <= combine_surrogates(high as int, low as int) <= 0x10_FFFF,
        is_scalar_value(combine_surrogates(high as int, low as int)),
{
}

/// The first half of a surrogate pair that a message leaves behind for the
/// next character message.  Only a character message of a Unicode window that
/// carries a code unit changes it: a first half is left behind, and any other
/// unit leaves nothing.
pub open spec fn pending_after(pending: Option<u16>, umsg: u32, wparam: usize, unicode: bool) -> Option<
    u16,
> {
    if umsg == WM_CHAR && unicode && 0 < wparam <= 0xFFFF {
        if is_high_surrogate(wparam as int) {
            Some(wparam as u16)
        } else {
            None
        }
    } else {
        pending
    }
}

/// The input event that a window message other than a character message
/// stands for, if it stands for one.
pub open spec fn event_of_message(umsg: u32, wparam: usize, lparam: isize, unicode: bool) -> Option<
    InputEvent,
> {
    if umsg == WM_MOUSEMOVE || umsg == WM_NCMOUSEMOVE {
        Some(
            InputEvent::MousePos {
                x: low_word(lparam as int) as i32,
                y: high_word(lparam as int) as i32,
                screen: umsg == WM_NCMOUSEMOVE,
            },
        )
    } else if is_button_down(umsg) {
        Some(InputEvent::MouseButton { button: button_of_message(umsg, wparam), down: true })
    } else if is_button_up(umsg) {
        Some(InputEvent::MouseButton { button: button_of_message(umsg, wparam), down: false })
    } else if umsg == WM_MOUSEWHEEL {
        Some(InputEvent::MouseWheel { x: 0, y: as_signed_word(high_word(wparam as int)) as i32 })
    } else if umsg == WM_MOUSEHWHEEL {
        Some(
            InputEvent::MouseWheel { x: (-as_signed_word(high_word(wparam as int))) as i32, y: 0 },
        )
    } else if is_key(umsg) {
        if wparam < 256 {
            match key_of_message(wparam, lparam) {
                Some(key) => Some(
                    InputEvent::Key { key, down: umsg == WM_KEYDOWN || umsg == WM_SYSKEYDOWN },
                ),
                None => None,
            }
        } else {
            None
        }
    } else {
        None
    }
}

/// The input events that a window message stands for, oldest first.  `pending`
/// is the first half of a surrogate pair that the message before it left
/// behind.
pub open spec fn events_of_message(
    pending: Option<u16>,
    umsg: u32,
    wparam: usize,
    lparam: isize,
    unicode: bool,
) -> Seq<InputEvent> {
    if umsg == WM_CHAR {
        characters_of_message(pending, wparam, unicode)
    } else {
        match event_of_message(umsg, wparam, lparam, unicode) {
            Some(e) => seq![e],
            None => Seq::empty(),
        }
    }
}

/// The GUI keeps the message for itself: the host's own window procedure must
/// not see it.
pub open spec fn message_captured(umsg: u32, io: &Io) -> bool {
    if is_button_down(umsg) || is_button_up(umsg) || is_wheel(umsg) {
        io.want_capture_mouse
    } else if is_key(umsg) {
        io.want_capture_keyboard
    } else if umsg == WM_CHAR {
        io.want_text_input
    } else {
        false
    }
}

/// What the queue of `io` holds once `event` has been added to it.
pub open spec fn queue_with(events: Seq<InputEvent>, event: Option<InputEvent>) -> Seq<InputEvent> {
    match event {
        Some(e) => events.push(e),
        None => events,
    }
}

/// The platform layer for one window.
#[derive(Debug)]
pub struct Win32Impl {
    last_frame: u64,
    hwnd: Handle,
    wnd_proc: usize,
    surrogate: Option<u16>,
}

impl Win32Impl {
    #[verifier::type_invariant]
    spec fn pending_is_first_half(&self) -> bool {
        self.surrogate matches Some(high) ==> is_high_surrogate(high as int)
    }

    /// The first half of a surrogate pair that the last character message left
    /// behind, if it left one.
    pub closed spec fn pending_surrogate(&self) -> Option<u16> {
        self.surrogate
    }

    /// The window that the overlay lives in.
    pub closed spec fn window(&self) -> Handle {
        self.hwnd
    }

    /// The address of the window procedure that the window had at start.
    pub closed spec fn window_procedure(&self) -> usize {
        self.wnd_proc
    }

    /// When the last frame began, in nanoseconds of a monotonic clock.
    pub closed spec fn last_frame_time(&self) -> u64 {
        self.last_frame
    }

    /// Starts the platform layer for the window `hwnd`, whose window procedure
    /// is at `wnd_proc`, at the time `now`, and announces to the GUI library
    /// that cursor shapes are honoured.
    pub fn new(io: &mut Io, hwnd: Handle, wnd_proc: usize, now: u64) -> (platform: Self)
        ensures
            platform.window() == hwnd,
            platform.window_procedure() == wnd_proc,
            platform.last_frame_time() == now,
            platform.pending_surrogate() is None,
            final(io).backend_flags == old(io).backend_flags | HAS_MOUSE_CURSORS,
            final(io).want_capture_mouse == old(io).want_capture_mouse,
            final(io).want_capture_keyboard == old(io).want_capture_keyboard,
            final(io).want_text_input == old(io).want_text_input,
            final(io).app_focus_lost == old(io).app_focus_lost,
            final(io).display_size == old(io).display_size,
            final(io).config_flags == old(io).config_flags,
            final(io).delta_time == old(io).delta_time,
            final(io).events@ == old(io).events@,
    {
        io.backend_flags = io.backend_flags | HAS_MOUSE_CURSORS;
        Self { last_frame: now, hwnd, wnd_proc, surrogate: None }
    }

    /// The address of the window procedure that the window had at start.
    pub fn get_wnd_proc(&self) -> (address: usize)
        ensures
            address == self.window_procedure(),
    {
        self.wnd_proc
    }

    /// The window that the overlay lives in.
    pub fn get_hwnd(&self) -> (hwnd: Handle)
        ensures
            hwnd == self.window(),
    {
        self.hwnd
    }

    /// The platform layer `after` and the input state `io_after` are what
    /// beginning a frame makes of this platform layer and of `io`: the size of
    /// the client area `client` is recorded, the time since the previous frame,
    /// which is never negative, and the pointer event of the frame is queued.
    pub open spec fn begins_frame(
        &self,
        after: &Win32Impl,
        io: &Io,
        io_after: &Io,
        client: Rect,
        now: u64,
        foreground: Handle,
        cursor: Option<(i32, i32)>,
    ) -> bool {
        &&& after.window() == self.window()
        &&& after.window_procedure() == self.window_procedure()
        &&& after.last_frame_time() == now
        &&& after.pending_surrogate() == self.pending_surrogate()
        &&& io_after.display_size.0 == client.right - client.left
        &&& io_after.display_size.1 == client.bottom - client.top
        &&& io_after.delta_time == (if now >= self.last_frame_time() {
            now - self.last_frame_time()
        } else {
            0
        })
        &&& io_after.events@ == queue_with(io.events@, self.cursor_event(foreground, cursor))
        &&& io_after.want_capture_mouse == io.want_capture_mouse
        &&& io_after.want_capture_keyboard == io.want_capture_keyboard
        &&& io_after.want_text_input == io.want_text_input
        &&& io_after.app_focus_lost == io.app_focus_lost
        &&& io_after.backend_flags == io.backend_flags
        &&& io_after.config_flags == io.config_flags
    }

    /// Begins a frame: records the size of the client area `client`, the time
    /// since the previous frame, and - only while this window is the
    /// foreground window - where the cursor is.  `cursor` is the cursor in
    /// client coordinates, or `None` if it could not be had.
    pub fn new_frame(
        &mut self,
        io: &mut Io,
        client: Rect,
        now: u64,
        foreground: Handle,
        cursor: Option<(i32, i32)>,
    )
        ensures
            old(self).begins_frame(final(self), old(io), final(io), client, now, foreground, cursor),
    {
        io.display_size = (
            client.right as i64 - client.left as i64,
            client.bottom as i64 - client.top as i64,
        );
        proof {
            use_type_invariant(&*self);
        }
        io.delta_time = now.saturating_sub(self.last_frame);
        self.last_frame = now;
        self.update_mouse_pos(io, foreground, cursor);
    }

    /// The pointer event of a frame: the cursor position, when this window is
    /// the foreground window and the position could be had.
    pub open spec fn cursor_event(&self, foreground: Handle, cursor: Option<(i32, i32)>) -> Option<
        InputEvent,
    > {
        match cursor {
            Some(point) if foreground == self.window() => Some(
                InputEvent::MousePos { x: point.0, y: point.1, screen: false },
            ),
            _ => None,
        }
    }

    /// Queues the cursor position while this window is the foreground window.
    pub fn update_mouse_pos(&self, io: &mut Io, foreground: Handle, cursor: Option<(i32, i32)>)
        ensures
            final(io).events@ == queue_with(old(io).events@, self.cursor_event(foreground, cursor)),
            final(io).same_settings(old(io)),
    {
        if foreground == self.hwnd {
            match cursor {
                Some(point) => {
                    io.events.push(InputEvent::MousePos { x: point.0, y: point.1, screen: false });
                },
                None => {},
            }
        }
    }

    /// The button that a button message names.
    fn button_from_message(umsg: u32, wparam: usize) -> (button: MouseButton)
        ensures
            button == button_of_message(umsg, wparam),
    {
        match umsg {
            WM_LBUTTONDOWN | WM_LBUTTONDBLCLK | WM_LBUTTONUP => MouseButton::Left,
            WM_RBUTTONDOWN | WM_RBUTTONDBLCLK | WM_RBUTTONUP => MouseButton::Right,
            WM_MBUTTONDOWN | WM_MBUTTONDBLCLK | WM_MBUTTONUP => MouseButton::Middle,
            _ => {
                if wparam_get_high_word(wparam) == XBUTTON1 {
                    MouseButton::Extra1
                } else {
                    MouseButton::Extra2
                }
            },
        }
    }

    /// Takes one character message: queues the characters it carries and
    /// keeps the first half of a surrogate pair for the message that follows.
    fn take_character(&mut self, io: &mut Io, wparam: usize, unicode: bool)
        ensures
            final(io).events@ == old(io).events@ + characters_of_message(
                old(self).pending_surrogate(),
                wparam,
                unicode,
            ),
            final(io).same_settings(old(io)),
            final(self).pending_surrogate() == pending_after(
                old(self).pending_surrogate(),
                WM_CHAR,
                wparam,
                unicode,
            ),
            final(self).window() == old(self).window(),
            final(self).window_procedure() == old(self).window_procedure(),
            final(self).last_frame_time() == old(self).last_frame_time(),
    {
        proof {
            use_type_invariant(&*self);
        }
        let ghost before = io.events@;
        let ghost carried = characters_of_message(self.surrogate, wparam, unicode);
        if !unicode {
            let code: u32 = #[verifier::truncate]
            (wparam as u32);
            assert(code == wparam as int % 0x1_0000_0000) by (bit_vector)
                requires
                    code == wparam as u32,
            ;
            match char_from_u32(code) {
                Some(c) => {
                    io.events.push(InputEvent::Character { c });
                },
                None => {},
            }
        } else if wparam > 0 && wparam <= 0xFFFF {
            let unit: u16 = wparam as u16;
            if 0xD800 <= unit && unit <= 0xDBFF {
                if self.surrogate.is_some() {
                    io.events.push(replacement_character());
                }
                self.surrogate = Some(unit);
            } else {
                match self.surrogate {
                    Some(high) if 0xDC00 <= unit && unit <= 0xDFFF => {
                        let code: u32 = 0x1_0000 + (high as u32 - 0xD800) * 0x400 + (unit as u32
                            - 0xDC00);
                        assert(code == combine_surrogates(high as int, wparam as int));
                        match char_from_u32(code) {
                            Some(c) => {
                                io.events.push(InputEvent::Character { c });
                            },
                            None => {},
                        }
                    },
                    pending => {
                        if pending.is_some() {
                            io.events.push(replacement_character());
                        }
                        match char_from_u32(unit as u32) {
                            Some(c) => {
                                io.events.push(InputEvent::Character { c });
                            },
                            None => {
                                io.events.push(replacement_character());
                            },
                        }
                    },
                }
                self.surrogate = None;
            }
        }
        assert(io.events@ =~= before + carried);
    }

    /// The platform layer `after`, the input state `io_after` and `result` are
    /// what handling a window message makes of this platform layer and of
    /// `io`.  The events that the message stands for are queued, a focus
    /// message sets whether the focus is lost, and a character message leaves
    /// the first half of a surrogate pair behind.  The result is `Some(0)`
    /// exactly when the GUI keeps the message.
    pub open spec fn handles_message(
        &self,
        after: &Win32Impl,
        io: &Io,
        io_after: &Io,
        umsg: u32,
        wparam: usize,
        lparam: isize,
        unicode: bool,
        result: Option<isize>,
    ) -> bool {
        &&& io_after.events@ == io.events@ + events_of_message(
            self.pending_surrogate(),
            umsg,
            wparam,
            lparam,
            unicode,
        )
        &&& io_after.app_focus_lost == (if umsg == WM_SETFOCUS || umsg == WM_KILLFOCUS {
            umsg == WM_KILLFOCUS
        } else {
            io.app_focus_lost
        })
        &&& io_after.want_capture_mouse == io.want_capture_mouse
        &&& io_after.want_capture_keyboard == io.want_capture_keyboard
        &&& io_after.want_text_input == io.want_text_input
        &&& io_after.backend_flags == io.backend_flags
        &&& io_after.display_size == io.display_size
        &&& io_after.config_flags == io.config_flags
        &&& io_after.delta_time == io.delta_time
        &&& after.pending_surrogate() == pending_after(
            self.pending_surrogate(),
            umsg,
            wparam,
            unicode,
        )
        &&& after.window() == self.window()
        &&& after.window_procedure() == self.window_procedure()
        &&& after.last_frame_time() == self.last_frame_time()
        &&& result == (if message_captured(umsg, io) {
            Some(0isize)
        } else {
            None
        })
    }

    /// Handles one window message: queues the input events it stands for,
    /// notes a change of focus, and says whether the GUI keeps the message.
    /// `unicode` tells whether the window is a Unicode window.  The result is
    /// `Some(0)` when the GUI keeps the message, which is then the value to
    /// return to the system, and `None` when the message goes on to the window
    /// procedure of the host.
    pub fn wnd_proc(&mut self, io: &mut Io, umsg: u32, wparam: usize, lparam: isize, unicode: bool) -> (result:
        Option<isize>)
        ensures
            old(self).handles_message(
                final(self),
                old(io),
                final(io),
                umsg,
                wparam,
                lparam,
                unicode,
                result,
            ),
    {
        let ghost before = io.events@;
        let ghost pending = self.pending_surrogate();
        let result = match umsg {
            WM_MOUSEMOVE | WM_NCMOUSEMOVE => {
                let x: isize = lparam & 0xffff;
                let y: isize = (lparam >> 16) & 0xffff;
                assert(x == low_word(lparam as int) && y == high_word(lparam as int) && 0 <= x
                    < 0x1_0000 && 0 <= y < 0x1_0000) by (bit_vector)
                    requires
                        x == lparam & 0xffff,
                        y == (lparam >> 16) & 0xffff,
                ;
                io.events.push(
                    InputEvent::MousePos { x: x as i32, y: y as i32, screen: umsg == WM_NCMOUSEMOVE },
                );
                None
            },
            WM_LBUTTONDOWN | WM_LBUTTONDBLCLK | WM_RBUTTONDOWN | WM_RBUTTONDBLCLK | WM_MBUTTONDOWN
            | WM_MBUTTONDBLCLK | WM_XBUTTONDOWN | WM_XBUTTONDBLCLK => {
                let button = Self::button_from_message(umsg, wparam);
                io.events.push(InputEvent::MouseButton { button, down: true });
                if io.want_capture_mouse {
                    Some(0)
                } else {
                    None
                }
            },
            WM_LBUTTONUP | WM_RBUTTONUP | WM_MBUTTONUP | WM_XBUTTONUP => {
                let button = Self::button_from_message(umsg, wparam);
                io.events.push(InputEvent::MouseButton { button, down: false });
                if io.want_capture_mouse {
                    Some(0)
                } else {
                    None
                }
            },
            WM_MOUSEWHEEL | WM_MOUSEHWHEEL => {
                let high = wparam_get_high_word(wparam);
                let delta: i32 = if high < 0x8000 {
                    high as i32
                } else {
                    high as i32 - 0x1_0000
                };
                if umsg == WM_MOUSEWHEEL {
                    io.events.push(InputEvent::MouseWheel { x: 0, y: delta });
                } else {
                    io.events.push(InputEvent::MouseWheel { x: -delta, y: 0 });
                }
                if io.want_capture_mouse {
                    Some(0)
                } else {
                    None
                }
            },
            WM_SETFOCUS | WM_KILLFOCUS => {
                io.app_focus_lost = umsg == WM_KILLFOCUS;
                None
            },
            WM_KEYDOWN | WM_KEYUP | WM_SYSKEYDOWN | WM_SYSKEYUP => {
                let down = umsg == WM_KEYDOWN || umsg == WM_SYSKEYDOWN;
                if wparam < 256 {
                    match Self::from_key_event(wparam, lparam) {
                        Some(key) => {
                            io.events.push(InputEvent::Key { key, down });
                        },
                        None => {},
                    }
                }
                if io.want_capture_keyboard {
                    Some(0)
                } else {
                    None
                }
            },
            WM_CHAR => {
                self.take_character(io, wparam, unicode);
                if io.want_text_input {
                    Some(0)
                } else {
                    None
                }
            },
            _ => None,
        };
        assert(io.events@ =~= before + events_of_message(pending, umsg, wparam, lparam, unicode));
        result
    }

    /// The key that a key message names.
    pub fn from_key_event(wparam: usize, lparam: isize) -> (key: Option<Key>)
        ensures
            key == key_of_message(wparam, lparam),
    {
        let vk = wparam_get_low_word(wparam);
        match virtual_key_to_key(vk) {
            Some(key) => Some(key),
            None => {
                let high = lparam_get_high_word(lparam);
                let low: i16 = high & 0xff;
                assert(low == high % 0x100 && 0 <= low < 0x100) by (bit_vector)
                    requires
                        low == high & 0xff,
                ;
                let scancode: u8 = low as u8;
                scancode_to_key(scancode)
            },
        }
    }
}

} // verus!
