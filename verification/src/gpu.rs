//! The graphics context: ownership of the presentable surface's
//! configuration, device and pixel-format selection at startup, the resize
//! rules with their zero-area guard, frame acquisition, and the recovery
//! policy for failed acquisitions.

use vstd::prelude::*;

verus! {

/// The presentable surface's current configuration: the dimensions it was
/// last configured with. A frame can only be acquired while both dimensions
/// are nonzero and match the window's physical size.
#[derive(PartialEq, Eq, Structural, Clone, Copy, Debug)]
pub struct SurfaceConfig {
    pub width: u32,
    pub height: u32,
}

/// A frame acquired from the surface, described by the dimensions of its
/// backing image.
#[derive(PartialEq, Eq, Structural, Clone, Copy, Debug)]
pub struct Frame {
    pub width: u32,
    pub height: u32,
}

/// A classified per-frame surface-acquisition failure.
#[derive(PartialEq, Eq, Structural, Clone, Copy, Debug)]
pub enum SurfaceError {
    Lost,
    Outdated,
    Timeout,
    OutOfMemory,
}

/// What the event loop does about a failed frame acquisition.
#[derive(PartialEq, Eq, Structural, Clone, Copy, Debug)]
pub enum Recovery {
    /// Reconfigure the surface, skip this frame, and try again next frame.
    ReconfigureAndSkip,
    /// Skip this frame only.
    SkipFrame,
    /// Unrecoverable: the application terminates.
    Fatal,
}

/// A startup failure; both are unrecoverable and abort startup.
#[derive(PartialEq, Eq, Structural, Clone, Copy, Debug)]
pub enum InitError {
    /// No enumerated adapter can present to the created surface.
    NoCompatibleAdapter,
    /// The surface reports no pixel format at all.
    NoSurfaceFormat,
}

/// `i` is the index of the first `true` entry of `s`.
pub open spec fn first_true(s: Seq<bool>, i: int) -> bool {
    &&& 0 <= i < s.len()
    &&& s[i]
    &&& forall|j: int| 0 <= j < i ==> !s[j]
}

/// `i` is the index of the chosen pixel format among formats whose
/// gamma-correctedness is given by `srgb`: the first sRGB format when one is
/// offered, else the first format reported.
pub open spec fn chosen_format(srgb: Seq<bool>, i: int) -> bool {
    if exists|k: int| 0 <= k < srgb.len() && srgb[k] {
        first_true(srgb, i)
    } else {
        i == 0 && srgb.len() > 0
    }
}

/// Picks the adapter the device is created from: `supported[i]` says whether
/// adapter `i` can present to the created surface, and the first compatible
/// one wins. `None` when no adapter is compatible.
pub fn choose_adapter(supported: &Vec<bool>) -> (r: Option<usize>)
    ensures
        match r {
            Some(i) => first_true(supported@, i as int),
            None => forall|j: int| 0 <= j < supported@.len() ==> !supported@[j],
        },
{
    let mut i: usize = 0;
    while i < supported.len()
        invariant
            i <= supported@.len(),
            forall|j: int| 0 <= j < i ==> !supported@[j],
        decreases supported@.len() - i,
    {
        if supported[i] {
            return Some(i);
        }
        i = i + 1;
    }
    None
}

/// Picks the surface's pixel format: `srgb[i]` says whether the `i`-th
/// reported format is gamma-corrected. Prefers the first sRGB format, falls
/// back to the first reported one, and returns `None` only when no format is
/// reported at all.
pub fn choose_surface_format(srgb: &Vec<bool>) -> (r: Option<usize>)
    ensures
        match r {
            Some(i) => chosen_format(srgb@, i as int),
            None => srgb@.len() == 0,
        },
{
    let mut i: usize = 0;
    while i < srgb.len()
        invariant
            i <= srgb@.len(),
            forall|j: int| 0 <= j < i ==> !srgb@[j],
        decreases srgb@.len() - i,
    {
        if srgb[i] {
            return Some(i);
        }
        i = i + 1;
    }
    if srgb.len() > 0 {
        Some(0)
    } else {
        None
    }
}

/// The graphics context: the selected adapter and pixel format, and the
/// surface configuration that tracks the window's physical size.
#[derive(PartialEq, Eq, Structural, Clone, Copy, Debug)]
pub struct GpuResources {
    pub adapter_index: usize,
    pub format_index: usize,
    pub config: SurfaceConfig,
}

/// A frame may be acquired only from a surface configured with nonzero
/// dimensions.
pub open spec fn valid_config(c: SurfaceConfig) -> bool {
    c.width > 0 && c.height > 0
}

/// The configuration after a resize request: new nonzero dimensions are
/// taken, while a zero-area request (a minimized window) leaves the
/// configuration untouched.
pub open spec fn resize_config_spec(c: SurfaceConfig, width: u32, height: u32) -> SurfaceConfig {
    if width > 0 && height > 0 {
        SurfaceConfig { width, height }
    } else {
        c
    }
}

/// The whole context after a resize request.
pub open spec fn resize_spec(g: GpuResources, width: u32, height: u32) -> GpuResources {
    GpuResources { config: resize_config_spec(g.config, width, height), ..g }
}

/// The frame the surface yields: its backing image always has exactly the
/// configured dimensions.
pub open spec fn frame_of(g: GpuResources) -> Frame {
    Frame { width: g.config.width, height: g.config.height }
}

/// The recovery policy for a failed acquisition: a lost or outdated surface
/// is reconfigured and the frame skipped, a timeout only skips the frame,
/// and out-of-memory is fatal.
pub open spec fn classify_spec(e: SurfaceError) -> Recovery {
    match e {
        SurfaceError::Lost => Recovery::ReconfigureAndSkip,
        SurfaceError::Outdated => Recovery::ReconfigureAndSkip,
        SurfaceError::Timeout => Recovery::SkipFrame,
        SurfaceError::OutOfMemory => Recovery::Fatal,
    }
}

impl GpuResources {
    /// One-time device and surface setup. Picks the first adapter compatible
    /// with the surface and a gamma-corrected pixel format when one is
    /// offered (else the first reported), and records the window's physical
    /// size as the surface configuration. The adapter is checked first, so a
    /// missing adapter is reported even when no format is offered either.
    pub fn new(
        width: u32,
        height: u32,
        adapters_supported: &Vec<bool>,
        formats_srgb: &Vec<bool>,
    ) -> (r: Result<GpuResources, InitError>)
        ensures
            match r {
                Ok(g) => {
                    &&& first_true(adapters_supported@, g.adapter_index as int)
                    &&& chosen_format(formats_srgb@, g.format_index as int)
                    &&& g.config == (SurfaceConfig { width, height })
                },
                Err(e) => match e {
                    InitError::NoCompatibleAdapter => forall|j: int|
                        0 <= j < adapters_supported@.len() ==> !adapters_supported@[j],
                    InitError::NoSurfaceFormat => (exists|j: int|
                        0 <= j < adapters_supported@.len() && adapters_supported@[j])
                        && formats_srgb@.len() == 0,
                },
            },
            r is Err <==> ((forall|j: int|
                0 <= j < adapters_supported@.len() ==> !adapters_supported@[j])
                || formats_srgb@.len() == 0),
    {
        let adapter_index = match choose_adapter(adapters_supported) {
            Some(i) => i,
            None => {
                return Err(InitError::NoCompatibleAdapter);
            },
        };
        let format_index = match choose_surface_format(formats_srgb) {
            Some(i) => i,
            None => {
                return Err(InitError::NoSurfaceFormat);
            },
        };
        Ok(GpuResources { adapter_index, format_index, config: SurfaceConfig { width, height } })
    }

    /// Reconfigures the surface for new window dimensions. A zero-area size
    /// is a guarded no-op; otherwise the configuration takes the new
    /// dimensions. Returns whether the caller must actually reconfigure the
    /// surface: on `false` no reconfiguration is attempted and nothing
    /// changed.
    pub fn resize(&mut self, width: u32, height: u32) -> (reconfigured: bool)
        ensures
            reconfigured == (width > 0 && height > 0),
            *final(self) == resize_spec(*old(self), width, height),
            !reconfigured ==> *final(self) == *old(self),
    {
        if width > 0 && height > 0 {
            self.config = SurfaceConfig { width, height };
            true
        } else {
            false
        }
    }

    /// Acquires the next presentable frame; the backing image has exactly
    /// the configured dimensions. The surface must be configured with a
    /// nonzero area (a minimized window never reaches acquisition).
    pub fn acquire_frame(&self) -> (frame: Frame)
        requires
            valid_config(self.config),
        ensures
            frame == frame_of(*self),
    {
        Frame { width: self.config.width, height: self.config.height }
    }

    /// Hands a rendered frame back to the platform compositor. Only a frame
    /// acquired under the current configuration may be presented: after a
    /// reconfiguration the old frame is stale.
    pub fn present(&self, frame: Frame)
        requires
            frame == frame_of(*self),
    {
    }
}

/// Classifies a failed frame acquisition for recovery: a lost or outdated
/// surface is reconfigured and the frame skipped, a timeout only skips the
/// frame, and out-of-memory terminates the application.
pub fn classify_surface_error(e: &SurfaceError) -> (r: Recovery)
    ensures
        r == classify_spec(*e),
{
    match e {
        SurfaceError::Lost => Recovery::ReconfigureAndSkip,
        SurfaceError::Outdated => Recovery::ReconfigureAndSkip,
        SurfaceError::Timeout => Recovery::SkipFrame,
        SurfaceError::OutOfMemory => Recovery::Fatal,
    }
}

/// For all valid nonzero window dimensions, a resize to `(width, height)`
/// followed by a frame acquisition yields a frame whose backing image
/// dimensions equal `(width, height)`.
pub proof fn lemma_resize_then_acquire(g: GpuResources, width: u32, height: u32)
    requires
        width > 0,
        height > 0,
    ensures
        valid_config(resize_spec(g, width, height).config),
        frame_of(resize_spec(g, width, height)) == (Frame { width, height }),
{
}

/// A resize to a zero-area size changes nothing (no reconfiguration is
/// attempted), and a subsequent resize to valid dimensions still succeeds.
pub proof fn lemma_zero_resize_is_noop(
    g: GpuResources,
    width: u32,
    height: u32,
    width2: u32,
    height2: u32,
)
    requires
        width == 0 || height == 0,
        width2 > 0,
        height2 > 0,
    ensures
        resize_spec(g, width, height) == g,
        resize_spec(resize_spec(g, width, height), width2, height2).config == (SurfaceConfig {
            width: width2,
            height: height2,
        }),
{
}

} // verus!
