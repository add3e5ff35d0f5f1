//! The three fixed state objects of the immediate-context renderer.

use vstd::prelude::*;
use crate::types::Handle;

verus! {

/// Blend factor: the alpha of the source.
pub const BLEND_SRC_ALPHA: u32 = 5;

/// Blend factor: one minus the alpha of the source.
pub const BLEND_INV_SRC_ALPHA: u32 = 6;

/// Blend factor: one.
pub const BLEND_ONE: u32 = 2;

/// Blend operation: the two terms are added.
pub const BLEND_OP_ADD: u32 = 1;

/// Write mask: all four components of a colour are written.
pub const COLOR_WRITE_ENABLE_ALL: u8 = 15;

/// Fill mode: triangles are filled.
pub const FILL_SOLID: u32 = 3;

/// Cull mode: no triangle is culled.
pub const CULL_NONE: u32 = 1;

/// Stencil operation: the stencil value is kept.
pub const STENCIL_OP_KEEP: u32 = 1;

/// Comparison: always passes.
pub const COMPARISON_ALWAYS: u32 = 8;

/// Depth write mask: depth is written.
pub const DEPTH_WRITE_MASK_ALL: u32 = 1;

/// How the overlay blends into each render target.
#[derive(Debug, Clone, Copy, PartialEq, Eq, Structural)]
pub struct BlendDesc {
    pub alpha_to_coverage_enable: bool,
    pub independent_blend_enable: bool,
    pub blend_enable: bool,
    pub src_blend: u32,
    pub dest_blend: u32,
    pub blend_op: u32,
    pub src_blend_alpha: u32,
    pub dest_blend_alpha: u32,
    pub blend_op_alpha: u32,
    pub render_target_write_mask: u8,
}

/// How the overlay rasterizes.
#[derive(Debug, Clone, Copy, PartialEq, Eq, Structural)]
pub struct RasterizerDesc {
    pub fill_mode: u32,
    pub cull_mode: u32,
    pub front_counter_clockwise: bool,
    pub depth_bias: i32,
    /// Bit pattern of the float that clamps the depth bias.
    pub depth_bias_clamp: u32,
    /// Bit pattern of the float that scales the depth bias by the slope.
    pub slope_scaled_depth_bias: u32,
    pub depth_clip_enable: bool,
    pub scissor_enable: bool,
    pub multisample_enable: bool,
    pub antialiased_line_enable: bool,
}

/// What the overlay does with stencil values, on the front and on the back of
/// a triangle alike.
#[derive(Debug, Clone, Copy, PartialEq, Eq, Structural)]
pub struct StencilOpDesc {
    pub stencil_fail_op: u32,
    pub stencil_depth_fail_op: u32,
    pub stencil_pass_op: u32,
    pub stencil_func: u32,
}

/// How the overlay tests depth and stencil.
#[derive(Debug, Clone, Copy, PartialEq, Eq, Structural)]
pub struct DepthStencilDesc {
    pub depth_enable: bool,
    pub depth_write_mask: u32,
    pub depth_func: u32,
    pub stencil_enable: bool,
    pub stencil_read_mask: u8,
    pub stencil_write_mask: u8,
    pub face: StencilOpDesc,
}

/// The blend, rasterizer and depth-stencil state objects that the overlay
/// draws with.  The embedding program creates them from `blend_desc`,
/// `rasterizer_desc` and `depth_stencil_desc`.
#[derive(Debug, Clone, Copy, PartialEq, Eq, Structural)]
pub struct DeviceObjects {
    blend_state: Option<Handle>,
    raster_state: Option<Handle>,
    depth_stencil_state: Option<Handle>,
}

impl DeviceObjects {
    /// The blend state object.
    pub closed spec fn blend_state(&self) -> Option<Handle> {
        self.blend_state
    }

    /// The rasterizer state object.
    pub closed spec fn rasterizer_state(&self) -> Option<Handle> {
        self.raster_state
    }

    /// The depth-stencil state object.
    pub closed spec fn depth_stencil_state(&self) -> Option<Handle> {
        self.depth_stencil_state
    }

    /// The blend state of the overlay: what is drawn is blended over the
    /// render target by its alpha, in every render target alike.
    pub fn blend_desc() -> (desc: BlendDesc)
        ensures
            desc == (BlendDesc {
                alpha_to_coverage_enable: false,
                independent_blend_enable: true,
                blend_enable: true,
                src_blend: BLEND_SRC_ALPHA,
                dest_blend: BLEND_INV_SRC_ALPHA,
                blend_op: BLEND_OP_ADD,
                src_blend_alpha: BLEND_ONE,
                dest_blend_alpha: BLEND_INV_SRC_ALPHA,
                blend_op_alpha: BLEND_OP_ADD,
                render_target_write_mask: COLOR_WRITE_ENABLE_ALL,
            }),
    {
        BlendDesc {
            alpha_to_coverage_enable: false,
            independent_blend_enable: true,
            blend_enable: true,
            src_blend: BLEND_SRC_ALPHA,
            dest_blend: BLEND_INV_SRC_ALPHA,
            blend_op: BLEND_OP_ADD,
            src_blend_alpha: BLEND_ONE,
            dest_blend_alpha: BLEND_INV_SRC_ALPHA,
            blend_op_alpha: BLEND_OP_ADD,
            render_target_write_mask: COLOR_WRITE_ENABLE_ALL,
        }
    }

    /// The rasterizer state of the overlay: filled triangles, none culled,
    /// clipped by depth and by the scissor rectangle.
    pub fn rasterizer_desc() -> (desc: RasterizerDesc)
        ensures
            desc == (RasterizerDesc {
                fill_mode: FILL_SOLID,
                cull_mode: CULL_NONE,
                front_counter_clockwise: false,
                depth_bias: 0,
                depth_bias_clamp: 0,
                slope_scaled_depth_bias: 0,
                depth_clip_enable: true,
                scissor_enable: true,
                multisample_enable: false,
                antialiased_line_enable: false,
            }),
    {
        RasterizerDesc {
            fill_mode: FILL_SOLID,
            cull_mode: CULL_NONE,
            front_counter_clockwise: false,
            depth_bias: 0,
            depth_bias_clamp: 0,
            slope_scaled_depth_bias: 0,
            depth_clip_enable: true,
            scissor_enable: true,
            multisample_enable: false,
            antialiased_line_enable: false,
        }
    }

    /// The depth-stencil state of the overlay: neither depth nor stencil is
    /// tested.
    pub fn depth_stencil_desc() -> (desc: DepthStencilDesc)
        ensures
            desc == (DepthStencilDesc {
                depth_enable: false,
                depth_write_mask: DEPTH_WRITE_MASK_ALL,
                depth_func: COMPARISON_ALWAYS,
                stencil_enable: false,
                stencil_read_mask: 0,
                stencil_write_mask: 0,
                face: StencilOpDesc {
                    stencil_fail_op: STENCIL_OP_KEEP,
                    stencil_depth_fail_op: STENCIL_OP_KEEP,
                    stencil_pass_op: STENCIL_OP_KEEP,
                    stencil_func: COMPARISON_ALWAYS,
                },
            }),
    {
        DepthStencilDesc {
            depth_enable: false,
            depth_write_mask: DEPTH_WRITE_MASK_ALL,
            depth_func: COMPARISON_ALWAYS,
            stencil_enable: false,
            stencil_read_mask: 0,
            stencil_write_mask: 0,
            face: StencilOpDesc {
                stencil_fail_op: STENCIL_OP_KEEP,
                stencil_depth_fail_op: STENCIL_OP_KEEP,
                stencil_pass_op: STENCIL_OP_KEEP,
                stencil_func: COMPARISON_ALWAYS,
            },
        }
    }

    /// Puts the three objects together.
    pub fn new(
        blend_state: Option<Handle>,
        raster_state: Option<Handle>,
        depth_stencil_state: Option<Handle>,
    ) -> (out: Self)
        ensures
            out.blend_state() == blend_state,
            out.rasterizer_state() == raster_state,
            out.depth_stencil_state() == depth_stencil_state,
    {
        Self { blend_state, raster_state, depth_stencil_state }
    }

    /// The blend state object.
    pub fn get_blend_state(&self) -> (state: Option<Handle>)
        ensures
            state == self.blend_state(),
    {
        self.blend_state
    }

    /// The rasterizer state object.
    pub fn get_rasterizer_state(&self) -> (state: Option<Handle>)
        ensures
            state == self.rasterizer_state(),
    {
        self.raster_state
    }

    /// The depth-stencil state object.
    pub fn get_depth_stencil_state(&self) -> (state: Option<Handle>)
        ensures
            state == self.depth_stencil_state(),
    {
        self.depth_stencil_state
    }
}

} // verus!
