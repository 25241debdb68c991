//! The configuration of one draw call.
use crate::binary32::Binary32;
use crate::depth_cmp::EDepthCmpFunc;
use vstd::prelude::*;

verus! {

#[derive(Clone, Copy, Debug, PartialEq, Eq, Structural)]
pub enum EFaceCullingMode {
    /// No face is culled.
    Neither,
    Front,
    Back,
}

impl EFaceCullingMode {
    /// Whether a triangle goes on to rasterization. `facing` tells the
    /// sign of its winding as seen along the view direction: "Front"
    /// keeps the triangles for which it holds, "Back" those for which it
    /// does not, and without culling every triangle goes on.
    pub open spec fn keeps(self, facing: bool) -> bool {
        match self {
            EFaceCullingMode::Neither => true,
            EFaceCullingMode::Front => facing,
            EFaceCullingMode::Back => !facing,
        }
    }

    /// Reversing a triangle's winding reverses its fate under "Back" and
    /// under "Front": of a triangle and its reverse each of the two keeps
    /// exactly one. Without culling both go on.
    pub proof fn reversed_winding(facing: bool)
        ensures
            EFaceCullingMode::Back.keeps(facing) != EFaceCullingMode::Back.keeps(!facing),
            EFaceCullingMode::Front.keeps(facing) != EFaceCullingMode::Front.keeps(!facing),
            EFaceCullingMode::Back.keeps(facing) != EFaceCullingMode::Front.keeps(facing),
            EFaceCullingMode::Neither.keeps(facing),
    {
    }
}

pub enum EBlendOp {
    Add,
    Subtract,
    RevSubtract,
    Min,
    Max,
}

pub enum EBlendColor {
    Zero,
    One,
    SrcColor,
    InvSrcColor,
    SrcAlpha,
    InvSrcAlpha,
    DestAlpha,
    InvDestAlpha,
    DestColor,
    InvDestColor,
    SrcAlphaSat,
    BlendFactor,
    InvBlendFactor,
    Src1Color,
    InvSrc1Color,
    Src1Alpha,
    InvSrc1Alpha,
    Custom([Binary32; 3]),
}

pub enum EBlendAlpha {
    Zero,
    One,
    SrcAlpha,
    InvSrcAlpha,
    DestAlpha,
    InvDestAlpha,
    SrcAlphaSat,
    BlendFactor,
    InvBlendFactor,
    Src1Alpha,
    InvSrc1Alpha,
    Custom(Binary32),
}

pub struct BlendDescriptor {
    pub is_blend_enable: bool,
    pub src_blend: EBlendColor,
    pub dest_blend: EBlendColor,
    pub src_blend_alpha: EBlendAlpha,
    pub dest_blend_alpha: EBlendAlpha,
    pub blend_op: EBlendOp,
    pub blend_op_alpha: EBlendOp,
}

impl BlendDescriptor {
    /// Blending switched off with the factors of an opaque overwrite: the
    /// source taken whole, the destination not at all, the two added.
    pub open spec fn is_opaque_overwrite(&self) -> bool {
        &&& !self.is_blend_enable
        &&& self.src_blend is One
        &&& self.dest_blend is Zero
        &&& self.src_blend_alpha is One
        &&& self.dest_blend_alpha is Zero
        &&& self.blend_op is Add
        &&& self.blend_op_alpha is Add
    }
}

/// A shader with the fixed-function state of a draw call.
pub struct GraphicsPipeline<S> {
    pub shader: S,
    pub depth_cmp_func: EDepthCmpFunc,
    pub face_culling_mode: EFaceCullingMode,
    pub blend_descriptor: BlendDescriptor,
}

impl<S> GraphicsPipeline<S> {
    /// The pipeline of `shader` with the defaults: depth test "less",
    /// back faces culled, blending off.
    pub fn from_shader(shader: S) -> (p: GraphicsPipeline<S>)
        ensures
            p.shader == shader,
            p.depth_cmp_func == EDepthCmpFunc::Less,
            p.face_culling_mode == EFaceCullingMode::Back,
            p.blend_descriptor.is_opaque_overwrite(),
    {
        GraphicsPipeline {
            shader,
            depth_cmp_func: EDepthCmpFunc::Less,
            face_culling_mode: EFaceCullingMode::Back,
            blend_descriptor: BlendDescriptor {
                is_blend_enable: false,
                src_blend: EBlendColor::One,
                dest_blend: EBlendColor::Zero,
                src_blend_alpha: EBlendAlpha::One,
                dest_blend_alpha: EBlendAlpha::Zero,
                blend_op: EBlendOp::Add,
                blend_op_alpha: EBlendOp::Add,
            },
        }
    }
}

} // verus!
