use vstd::prelude::*;

verus! {

/// Minification / magnification filter of a sampler.
#[derive(Clone, Copy, Debug, PartialEq, Eq, Structural)]
pub enum SamplerFilter {
    Nearest,
    Linear,
}

/// Per-axis wrap behaviour of a sampler.
#[derive(Clone, Copy, Debug, PartialEq, Eq, Structural)]
pub enum SamplerWrap {
    Repeat,
    Mirror,
    Clamp,
    BorderClamp,
    MirrorClamp,
}

/// Sampling configuration attached to a registered texture.
#[derive(Clone, Copy, Debug, PartialEq, Eq, Structural)]
pub struct SamplerConfig {
    pub minify_filter: SamplerFilter,
    pub magnify_filter: SamplerFilter,
    pub wrap_x: SamplerWrap,
    pub wrap_y: SamplerWrap,
    pub wrap_z: SamplerWrap,
}

/// One registry entry: an opaque GPU texture handle (assigned by the
/// embedding layer, which owns the actual GPU resource) plus the sampling
/// configuration to bind with it.
#[derive(Clone, Copy, Debug, PartialEq, Eq, Structural)]
pub struct Texture {
    pub handle: u64,
    pub sampler: SamplerConfig,
}

/// The sampler used for the font-atlas texture: linear filtering in both
/// directions, border-clamped on every axis.
pub fn font_atlas_sampler() -> (r: SamplerConfig)
    ensures
        r == font_atlas_sampler_spec(),
{
    SamplerConfig {
        minify_filter: SamplerFilter::Linear,
        magnify_filter: SamplerFilter::Linear,
        wrap_x: SamplerWrap::BorderClamp,
        wrap_y: SamplerWrap::BorderClamp,
        wrap_z: SamplerWrap::BorderClamp,
    }
}

/// The value returned by [`font_atlas_sampler`].
pub open spec fn font_atlas_sampler_spec() -> SamplerConfig {
    SamplerConfig {
        minify_filter: SamplerFilter::Linear,
        magnify_filter: SamplerFilter::Linear,
        wrap_x: SamplerWrap::BorderClamp,
        wrap_y: SamplerWrap::BorderClamp,
        wrap_z: SamplerWrap::BorderClamp,
    }
}

} // verus!
