//! The description of the one graphics pipeline that is used.

use vstd::prelude::*;

verus! {

/// How the output of the fragment stage is combined with what the target holds.
#[derive(Clone, Copy, Debug, PartialEq, Eq)]
pub enum BlendMode {
    /// The output replaces what was there.
    Replace,
    /// The output is laid over what was there, weighted by its alpha.
    AlphaBlending,
    /// As `AlphaBlending`, for colors already multiplied by their alpha.
    PremultipliedAlphaBlending,
}

/// The channels of the target that a pipeline writes.
#[derive(Clone, Copy, Debug, PartialEq, Eq)]
pub struct ColorWrites {
    pub red: bool,
    pub green: bool,
    pub blue: bool,
    pub alpha: bool,
}

impl ColorWrites {
    /// Every channel.
    pub open spec fn all() -> ColorWrites {
        ColorWrites { red: true, green: true, blue: true, alpha: true }
    }
}

/// Everything that decides what a pipeline does: the two shader stages, by
/// the names of their entry points, and the fixed-function state. A pipeline
/// described here takes no vertex buffers and binds no resources: the vertex
/// stage computes each position from the index of the vertex. Nor has it a
/// depth or stencil test.
#[derive(Clone, Copy, Debug, PartialEq, Eq)]
pub struct PipelineDesc {
    pub vertex_entry: &'static str,
    pub fragment_entry: &'static str,
    pub target_format: wgpu::TextureFormat,
    pub blend: BlendMode,
    pub write_mask: ColorWrites,
    /// Samples per pixel; one means no multisampling.
    pub sample_count: u32,
}

impl PipelineDesc {
    /// The pipeline that draws into targets of `format`: alpha blending, all
    /// channels written, one sample per pixel. Nothing in it depends on the
    /// size of the target.
    pub open spec fn for_format(format: wgpu::TextureFormat) -> PipelineDesc {
        PipelineDesc {
            vertex_entry: "vs_main",
            fragment_entry: "fs_main",
            target_format: format,
            blend: BlendMode::AlphaBlending,
            write_mask: ColorWrites::all(),
            sample_count: 1,
        }
    }

    /// Describes the pipeline for targets of `format`.
    pub fn build(format: wgpu::TextureFormat) -> (desc: PipelineDesc)
        ensures
            desc == PipelineDesc::for_format(format),
    {
        PipelineDesc {
            vertex_entry: "vs_main",
            fragment_entry: "fs_main",
            target_format: format,
            blend: BlendMode::AlphaBlending,
            write_mask: ColorWrites { red: true, green: true, blue: true, alpha: true },
            sample_count: 1,
        }
    }
}

} // verus!
