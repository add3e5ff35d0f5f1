//! The shader objects of the immediate-context renderer.

use vstd::prelude::*;
use crate::registry::{RegistryFlags, USE_SRGB};
use crate::types::Handle;

verus! {

/// Element format: two 32-bit floats.
pub const FORMAT_R32G32_FLOAT: u32 = 16;

/// Element format: four 8-bit normalised unsigned integers.
pub const FORMAT_R8G8B8A8_UNORM: u32 = 28;

/// Size in bytes of the constant buffer that holds the projection: a matrix of
/// four by four floats.
pub const PROJECTION_SIZE: u32 = 64;

/// One element of a vertex as the input layout describes it.
#[derive(Debug, Clone, Copy)]
pub struct InputElement {
    pub semantic_name: &'static str,
    pub format: u32,
    pub aligned_byte_offset: u32,
}

/// The vertex shader with its input layout and the constant buffer that holds
/// the projection.
#[derive(Debug, Clone, Copy, PartialEq, Eq, Structural)]
pub struct VertexShader {
    shader: Option<Handle>,
    input_layout: Option<Handle>,
    cbuffer: Option<Handle>,
}

impl VertexShader {
    /// The shader object.
    pub closed spec fn shader(&self) -> Option<Handle> {
        self.shader
    }

    /// The input layout object.
    pub closed spec fn input_layout(&self) -> Option<Handle> {
        self.input_layout
    }

    /// The constant buffer.
    pub closed spec fn constant_buffer(&self) -> Option<Handle> {
        self.cbuffer
    }

    /// Puts the three objects together.
    pub fn new(shader: Option<Handle>, input_layout: Option<Handle>, cbuffer: Option<Handle>) -> (out:
        Self)
        ensures
            out.shader() == shader,
            out.input_layout() == input_layout,
            out.constant_buffer() == cbuffer,
    {
        Self { shader, input_layout, cbuffer }
    }

    /// The elements of a vertex, in the order in which they lie in memory: the
    /// position, the texture coordinate and the colour.
    pub fn input_elements() -> (elements: Vec<InputElement>)
        ensures
            elements@.len() == 3,
            elements@[0].semantic_name@ == "POSITION"@,
            elements@[0].format == FORMAT_R32G32_FLOAT,
            elements@[0].aligned_byte_offset == 0,
            elements@[1].semantic_name@ == "TEXCOORD"@,
            elements@[1].format == FORMAT_R32G32_FLOAT,
            elements@[1].aligned_byte_offset == 8,
            elements@[2].semantic_name@ == "COLOR"@,
            elements@[2].format == FORMAT_R8G8B8A8_UNORM,
            elements@[2].aligned_byte_offset == 16,
    {
        let mut elements: Vec<InputElement> = Vec::new();
        elements.push(
            InputElement {
                semantic_name: "POSITION",
                format: FORMAT_R32G32_FLOAT,
                aligned_byte_offset: 0,
            },
        );
        elements.push(
            InputElement {
                semantic_name: "TEXCOORD",
                format: FORMAT_R32G32_FLOAT,
                aligned_byte_offset: 8,
            },
        );
        elements.push(
            InputElement {
                semantic_name: "COLOR",
                format: FORMAT_R8G8B8A8_UNORM,
                aligned_byte_offset: 16,
            },
        );
        elements
    }

    /// The shader object.
    pub fn get_shader(&self) -> (shader: Option<Handle>)
        ensures
            shader == self.shader(),
    {
        self.shader
    }

    /// The input layout object.
    pub fn get_input_layout(&self) -> (layout: Option<Handle>)
        ensures
            layout == self.input_layout(),
    {
        self.input_layout
    }

    /// The constant buffer.
    pub fn get_constant_buffer(&self) -> (buffer: Option<Handle>)
        ensures
            buffer == self.constant_buffer(),
    {
        self.cbuffer
    }

    /// The constant buffer, as a value of the caller's own.
    pub fn get_constant_buffer_owned(&self) -> (buffer: Option<Handle>)
        ensures
            buffer == self.constant_buffer(),
    {
        self.cbuffer
    }
}

/// Which of the two pixel shaders a host gets.
#[derive(Debug, Clone, Copy, PartialEq, Eq, Structural)]
pub enum PixelShaderVariant {
    /// Colours go out as they come in.
    Plain,
    /// Colours are converted from linear to sRGB.
    Srgb,
}

/// The pixel shader.
#[derive(Debug, Clone, Copy, PartialEq, Eq, Structural)]
pub struct PixelShader(Option<Handle>);

impl PixelShader {
    /// The shader object.
    pub closed spec fn shader(&self) -> Option<Handle> {
        self.0
    }

    /// The pixel shader to compile for a host with the feature flags `flags`:
    /// the sRGB one exactly when `USE_SRGB` is set.
    pub fn variant(flags: RegistryFlags) -> (variant: PixelShaderVariant)
        ensures
            variant == (if flags@ & USE_SRGB == USE_SRGB {
                PixelShaderVariant::Srgb
            } else {
                PixelShaderVariant::Plain
            }),
    {
        if flags.contains(RegistryFlags::use_srgb()) {
            PixelShaderVariant::Srgb
        } else {
            PixelShaderVariant::Plain
        }
    }

    /// Holds the shader object.
    pub fn new(shader: Option<Handle>) -> (out: Self)
        ensures
            out.shader() == shader,
    {
        Self(shader)
    }

    /// The shader object.
    pub fn get_shader(&self) -> (shader: Option<Handle>)
        ensures
            shader == self.shader(),
    {
        self.0
    }
}

} // verus!
