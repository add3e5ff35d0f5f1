//! What is set in the GUI library before its first frame, whichever renderer
//! draws it.

use vstd::prelude::*;
use crate::registry::RegistryEntry;
use crate::win32_impl::events::Io;

verus! {

/// The file, in the directory of the overlay, in which the GUI library keeps
/// its settings.
pub const INI_FILE_NAME: &'static str = "imgui.ini";

/// The font file that is looked for in the directory of the overlay.
pub const FONT_FILE_NAME: &'static str = "NotoSansCJKjp-Medium.otf";

/// Pixel size at which the font of the overlay's own is loaded.
pub const CUSTOM_FONT_SIZE_PIXELS: u32 = 15;

/// The font that the GUI library draws with.
#[derive(Debug, Clone, Copy, PartialEq, Eq, Structural)]
pub enum FontChoice {
    /// The font of the overlay's own, at `size_pixels`, with the glyphs for
    /// Japanese.
    Custom { size_pixels: u32 },
    /// The font that is built into the GUI library.
    BuiltIn,
}

/// Configures the GUI library for the host that `registry` describes: the
/// configuration flags of the host are switched on, and the font is chosen.
/// `font_found` tells whether the font file could be read; without it the
/// built-in font is used.
pub fn imgui_common_init(io: &mut Io, registry: &RegistryEntry, font_found: bool) -> (font: FontChoice)
    ensures
        final(io).config_flags == old(io).config_flags | registry@.config_flags,
        font == (if font_found {
            FontChoice::Custom { size_pixels: CUSTOM_FONT_SIZE_PIXELS }
        } else {
            FontChoice::BuiltIn
        }),
        final(io).events@ == old(io).events@,
        final(io).backend_flags == old(io).backend_flags,
        final(io).want_capture_mouse == old(io).want_capture_mouse,
        final(io).want_capture_keyboard == old(io).want_capture_keyboard,
        final(io).want_text_input == old(io).want_text_input,
        final(io).app_focus_lost == old(io).app_focus_lost,
        final(io).display_size == old(io).display_size,
        final(io).delta_time == old(io).delta_time,
{
    io.config_flags = io.config_flags | registry.get_config_flags_to_set();
    if font_found {
        FontChoice::Custom { size_pixels: CUSTOM_FONT_SIZE_PIXELS }
    } else {
        FontChoice::BuiltIn
    }
}

} // verus!
