//! The font atlas of the frame-ring renderer, and how its pixels are laid out
//! in the buffer from which they are copied into the texture.

use vstd::prelude::*;
use vstd::arithmetic::div_mod::lemma_fundamental_div_mod_converse;
use crate::types::Handle;

verus! {

/// The texture identifier that stands for the font atlas until the atlas has
/// its descriptor.
pub const FONT_TEX_ID: usize = usize::MAX;

/// The alignment in bytes that the rows of texture data must have in an upload
/// buffer.
pub const TEXTURE_DATA_PITCH_ALIGNMENT: u32 = 256;

/// Bytes in one pixel of the font atlas.
pub const BYTES_PER_PIXEL: u32 = 4;

/// The bytes from one row to the next in the upload buffer, for an atlas that
/// is `width` pixels wide: the bytes of a row, rounded up to the alignment.
pub open spec fn pitch_of(width: nat) -> nat {
    let row: int = width * BYTES_PER_PIXEL;
    let alignment: int = TEXTURE_DATA_PITCH_ALIGNMENT as int;
    if row % alignment == 0 {
        row as nat
    } else {
        (row + alignment - row % alignment) as nat
    }
}

/// The size in bytes of the upload buffer for an atlas of `width` by `height`
/// pixels.
pub open spec fn upload_size_of(width: nat, height: nat) -> nat {
    height * pitch_of(width)
}

/// The byte at `index` of the upload buffer for the atlas whose pixels are
/// `data`, row after row without gaps: the byte of the pixel data that belongs
/// there, and zero in the padding behind each row.
pub open spec fn upload_byte(data: Seq<u8>, width: nat, index: int) -> u8 {
    let pitch: int = pitch_of(width) as int;
    let row: int = width * BYTES_PER_PIXEL;
    let y = index / pitch;
    let x = index % pitch;
    if x < row {
        data[y * row + x]
    } else {
        0
    }
}

/// The contents of the upload buffer for the atlas whose pixels are `data`.
pub open spec fn upload_layout(data: Seq<u8>, width: nat, height: nat) -> Seq<u8> {
    Seq::new(upload_size_of(width, height), |index: int| upload_byte(data, width, index))
}

/// The bytes from one row to the next in the upload buffer, if the number fits
/// a texture footprint.
pub fn upload_pitch(width: u32) -> (pitch: Option<u32>)
    ensures
        pitch is Some <==> pitch_of(width as nat) <= u32::MAX,
        pitch matches Some(p) ==> p == pitch_of(width as nat),
{
    if width > 0x3FFF_FFC0 {
        return None;
    }
    let row: u32 = width * BYTES_PER_PIXEL;
    let pitch: u32 = (row + (TEXTURE_DATA_PITCH_ALIGNMENT - 1)) & !(TEXTURE_DATA_PITCH_ALIGNMENT
        - 1);
    assert(pitch == (if row % 256 == 0 {
        row as int
    } else {
        row + 256 - row % 256
    })) by (bit_vector)
        requires
            row <= 0xFFFF_FF00u32,
            pitch == ((row + 255) as u32) & !255u32,
    ;
    Some(pitch)
}

/// The size in bytes of the upload buffer for an atlas of `width` by `height`
/// pixels, if the number fits a resource range.
pub fn upload_size(width: u32, height: u32) -> (size: Option<u32>)
    ensures
        size is Some <==> upload_size_of(width as nat, height as nat) <= u32::MAX && pitch_of(
            width as nat,
        ) <= u32::MAX,
        size matches Some(s) ==> s == upload_size_of(width as nat, height as nat),
{
    match upload_pitch(width) {
        Some(pitch) => height.checked_mul(pitch),
        None => None,
    }
}

/// Lays the pixels of the atlas out for the upload buffer: each row of `data`
/// starts at the next multiple of the pitch, and the padding behind it is
/// zero.  There is no layout when `data` holds fewer than `width * height`
/// pixels, or when a size does not fit its type.
pub fn upload_rows(data: &[u8], width: u32, height: u32) -> (rows: Option<Vec<u8>>)
    ensures
        rows is Some <==> {
            &&& pitch_of(width as nat) <= u32::MAX
            &&& upload_size_of(width as nat, height as nat) <= usize::MAX
            &&& height * (width * BYTES_PER_PIXEL) <= data@.len()
        },
        rows matches Some(v) ==> v@ == upload_layout(data@, width as nat, height as nat),
{
    let pitch: usize = match upload_pitch(width) {
        Some(p) => p as usize,
        None => {
            return None;
        },
    };
    let row: usize = (width * BYTES_PER_PIXEL) as usize;
    let total: usize = match (height as usize).checked_mul(pitch) {
        Some(t) => t,
        None => {
            return None;
        },
    };
    assert(height * row <= height * pitch) by (nonlinear_arith)
        requires
            row <= pitch,
    ;
    let needed: usize = height as usize * row;
    if needed > data.len() {
        return None;
    }
    let mut rows: Vec<u8> = Vec::new();
    let mut y: usize = 0;
    while y < height as usize
        invariant
            y <= height,
            pitch == pitch_of(width as nat),
            row == width * BYTES_PER_PIXEL,
            row <= pitch,
            total == height * pitch,
            needed == height * row,
            needed <= data@.len(),
            rows@ == Seq::new((y * pitch) as nat, |index: int| upload_byte(data@, width as nat, index)),
        decreases height - y,
    {
        assert((y + 1) * pitch <= height * pitch && (y + 1) * row <= height * row && (y + 1)
            * pitch == y * pitch + pitch && (y + 1) * row == y * row + row) by (nonlinear_arith)
            requires
                y < height,
        ;
        let mut x: usize = 0;
        while x < pitch
            invariant
                x <= pitch,
                y < height,
                pitch == pitch_of(width as nat),
                row == width * BYTES_PER_PIXEL,
                row <= pitch,
                y * pitch + pitch <= total,
                y * row + row <= needed,
                needed <= data@.len(),
                rows@ == Seq::new(
                    (y * pitch + x) as nat,
                    |index: int| upload_byte(data@, width as nat, index),
                ),
            decreases pitch - x,
        {
            proof {
                lemma_fundamental_div_mod_converse(
                    y * pitch + x,
                    pitch as int,
                    y as int,
                    x as int,
                );
            }
            let byte: u8 = if x < row {
                data[y * row + x]
            } else {
                0
            };
            rows.push(byte);
            x = x + 1;
        }
        y = y + 1;
    }
    Some(rows)
}

/// The upload buffer and the texture of the font atlas.
#[derive(Debug, Clone, Copy, PartialEq, Eq, Structural)]
pub struct FontObjects {
    upload_buffer: Handle,
    texture: Handle,
}

impl FontObjects {
    /// The buffer from which the atlas was copied.
    pub closed spec fn upload_buffer(&self) -> Handle {
        self.upload_buffer
    }

    /// The atlas texture.
    pub closed spec fn texture(&self) -> Handle {
        self.texture
    }

    /// Puts the two resources together.
    pub fn new(upload_buffer: Handle, texture: Handle) -> (out: Self)
        ensures
            out.upload_buffer() == upload_buffer,
            out.texture() == texture,
    {
        Self { upload_buffer, texture }
    }

    /// The buffer from which the atlas was copied.
    pub fn get_upload_buffer(&self) -> (resource: Handle)
        ensures
            resource == self.upload_buffer(),
    {
        self.upload_buffer
    }

    /// The atlas texture.
    pub fn get_texture(&self) -> (resource: Handle)
        ensures
            resource == self.texture(),
    {
        self.texture
    }
}

} // verus!
