//! The GPU surface binding, as the data the rendering core decides on:
//! which pixel format the surface uses, and at what size it is configured.
//!
//! The device, queue and surface handles themselves live with the caller;
//! this module owns the configuration they are driven with, and keeps it
//! in step with the window's physical size.

use vstd::prelude::*;

verus! {

/// One pixel format a surface offers, by an opaque identifier, together
/// with whether it is an sRGB-encoded format.
#[derive(Clone, Copy, Debug, PartialEq, Eq, Structural)]
pub struct SurfaceFormat {
    pub id: u32,
    pub srgb: bool,
}

/// What a surface reports it supports: at least one pixel format, and the
/// presentation and alpha modes it offers, each by an opaque identifier.
pub struct SurfaceCaps {
    pub formats: Vec<SurfaceFormat>,
    pub present_modes: Vec<u32>,
    pub alpha_modes: Vec<u32>,
}

/// The configuration a surface is driven with.
#[derive(Clone, Copy, Debug, PartialEq, Eq, Structural)]
pub struct SurfaceConfig {
    pub format: SurfaceFormat,
    pub width: u32,
    pub height: u32,
    pub present_mode: u32,
    pub alpha_mode: u32,
}

/// Whether `f` is the preferred pick among the offered formats: the first
/// sRGB-encoded format if any is offered, else the first format.
pub open spec fn is_preferred_format(formats: Seq<SurfaceFormat>, f: SurfaceFormat) -> bool {
    if exists|i: int| 0 <= i < formats.len() && formats[i].srgb {
        exists|i: int|
            0 <= i < formats.len() && formats[i].srgb && f == formats[i] && (forall|j: int|
                0 <= j < i ==> !formats[j].srgb)
    } else {
        f == formats[0]
    }
}

/// The configuration after a resize: the same format and modes, at the new
/// width and height.
pub open spec fn resized_config(c: SurfaceConfig, width: u32, height: u32) -> SurfaceConfig {
    SurfaceConfig { width, height, ..c }
}

/// The first sRGB-encoded format among those offered, or the first format
/// if none is.
pub fn choose_format(formats: &Vec<SurfaceFormat>) -> (f: SurfaceFormat)
    requires
        formats@.len() > 0,
    ensures
        is_preferred_format(formats@, f),
{
    let n = formats.len();
    let mut i: usize = 0;
    while i < n
        invariant
            0 <= i <= n,
            n == formats@.len(),
            forall|j: int| 0 <= j < i ==> !formats@[j].srgb,
        decreases n - i,
    {
        if formats[i].srgb {
            return formats[i];
        }
        i = i + 1;
    }
    formats[0]
}

/// The rendering core's view of the GPU surface binding: its current
/// configuration and the window's current physical size.
pub struct GraphicsContext {
    pub config: SurfaceConfig,
    pub size: (u32, u32),
}

impl GraphicsContext {
    /// A context configured for a surface with the given capabilities at
    /// the given physical size.  The surface pixel format is the preferred
    /// one among those offered; the presentation and alpha modes are the
    /// first offered.
    pub fn new(size: (u32, u32), caps: &SurfaceCaps) -> (ctx: GraphicsContext)
        requires
            caps.formats@.len() > 0,
            caps.present_modes@.len() > 0,
            caps.alpha_modes@.len() > 0,
        ensures
            is_preferred_format(caps.formats@, ctx.config.format),
            ctx.config.width == size.0,
            ctx.config.height == size.1,
            ctx.config.present_mode == caps.present_modes@[0],
            ctx.config.alpha_mode == caps.alpha_modes@[0],
            ctx.size == size,
    {
        let format = choose_format(&caps.formats);
        let config = SurfaceConfig {
            format,
            width: size.0,
            height: size.1,
            present_mode: caps.present_modes[0],
            alpha_mode: caps.alpha_modes[0],
        };
        GraphicsContext { config, size }
    }

    /// Reconfigure for a new physical size: the stored size and the
    /// configured width and height follow it; the format and the modes do
    /// not change.
    pub fn resize(&mut self, size: (u32, u32))
        ensures
            final(self).size == size,
            final(self).config == resized_config(old(self).config, size.0, size.1),
    {
        self.size = size;
        self.config.width = size.0;
        self.config.height = size.1;
    }
}

/// Resizing is idempotent: a second resize to the same size leaves the
/// configuration exactly where the first left it.
pub proof fn lemma_resize_idempotent(c: SurfaceConfig, width: u32, height: u32)
    ensures
        resized_config(resized_config(c, width, height), width, height) == resized_config(
            c,
            width,
            height,
        ),
{
}

} // verus!
