//! The font atlas objects of the immediate-context renderer.

use vstd::prelude::*;
use crate::types::Handle;

verus! {

/// The texture identifier under which the GUI library knows the font atlas.
pub const FONT_TEX_ID: usize = usize::MAX;

/// Bytes in one pixel of the font atlas.
pub const BYTES_PER_PIXEL: u32 = 4;

/// The bytes in one row of an atlas that is `width` pixels wide, if a texture
/// description can hold the number.
pub open spec fn row_pitch_of(width: u32) -> Option<u32> {
    if width * BYTES_PER_PIXEL <= u32::MAX {
        Some((width * BYTES_PER_PIXEL) as u32)
    } else {
        None
    }
}

/// The sampler and the shader-resource view of the font atlas.
#[derive(Debug, Clone, Copy, PartialEq, Eq, Structural)]
pub struct FontObjects {
    font_sampler: Option<Handle>,
    font_resource_view: Option<Handle>,
}

impl FontObjects {
    /// The sampler object.
    pub closed spec fn sampler(&self) -> Option<Handle> {
        self.font_sampler
    }

    /// The shader-resource view of the atlas texture.
    pub closed spec fn resource_view(&self) -> Option<Handle> {
        self.font_resource_view
    }

    /// Puts the two objects together.
    pub fn new(font_sampler: Option<Handle>, font_resource_view: Option<Handle>) -> (out: Self)
        ensures
            out.sampler() == font_sampler,
            out.resource_view() == font_resource_view,
    {
        Self { font_sampler, font_resource_view }
    }

    /// The bytes in one row of an atlas that is `width` pixels wide.
    pub fn row_pitch(width: u32) -> (pitch: Option<u32>)
        ensures
            pitch == row_pitch_of(width),
    {
        width.checked_mul(BYTES_PER_PIXEL)
    }

    /// The sampler object.
    pub fn get_font_sampler_owned(&self) -> (sampler: Option<Handle>)
        ensures
            sampler == self.sampler(),
    {
        self.font_sampler
    }

    /// The shader-resource view of the atlas texture.
    pub fn get_font_resource_view(&self) -> (view: Option<Handle>)
        ensures
            view == self.resource_view(),
    {
        self.font_resource_view
    }
}

} // verus!
