//! The fixed pipeline state that every draw list is drawn with.

use vstd::prelude::*;

verus! {

/// What a colour is multiplied with before blending.
#[derive(Clone, Copy, Debug, PartialEq, Eq)]
pub enum BlendFactor {
    Zero,
    One,
    SrcColor,
    OneMinusSrcColor,
    DstColor,
    OneMinusDstColor,
    SrcAlpha,
    OneMinusSrcAlpha,
    DstAlpha,
    OneMinusDstAlpha,
}

/// How the weighted source and destination are combined.
#[derive(Clone, Copy, Debug, PartialEq, Eq)]
pub enum BlendOp {
    Add,
    Subtract,
    ReverseSubtract,
    Min,
    Max,
}

/// The blend equation of one channel group.
#[derive(Clone, Copy, Debug, PartialEq, Eq)]
pub struct BlendChannel {
    pub src_factor: BlendFactor,
    pub dst_factor: BlendFactor,
    pub blend_op: BlendOp,
}

/// The blend state of the colour attachment.
#[derive(Clone, Copy, Debug, PartialEq, Eq)]
pub struct ColorBlendAttachment {
    pub blend_enable: bool,
    pub color: BlendChannel,
    pub alpha: BlendChannel,
}

/// The blend state of the GUI: colour is the source weighted by its alpha
/// plus the destination weighted by the rest; alpha is the plain sum of
/// source and destination.
pub open spec fn alpha_blend() -> ColorBlendAttachment {
    ColorBlendAttachment {
        blend_enable: true,
        color: BlendChannel {
            src_factor: BlendFactor::SrcAlpha,
            dst_factor: BlendFactor::OneMinusSrcAlpha,
            blend_op: BlendOp::Add,
        },
        alpha: BlendChannel {
            src_factor: BlendFactor::One,
            dst_factor: BlendFactor::One,
            blend_op: BlendOp::Add,
        },
    }
}

/// Makes the blend state of the GUI.
pub fn alpha_blend_state() -> (state: ColorBlendAttachment)
    ensures
        state == alpha_blend(),
{
    ColorBlendAttachment {
        blend_enable: true,
        color: BlendChannel {
            src_factor: BlendFactor::SrcAlpha,
            dst_factor: BlendFactor::OneMinusSrcAlpha,
            blend_op: BlendOp::Add,
        },
        alpha: BlendChannel {
            src_factor: BlendFactor::One,
            dst_factor: BlendFactor::One,
            blend_op: BlendOp::Add,
        },
    }
}

} // verus!
