//! Surface bookkeeping: the configured size of the presentation surface,
//! the size of the offscreen HDR target, whether frames may be rendered,
//! the choice of surface format and what to do when a frame cannot be
//! acquired.

use vstd::prelude::*;

verus! {

/// Size of the surface configuration and of the HDR render target, and
/// whether the surface has been configured with a usable size yet.
#[derive(Clone, Copy, PartialEq, Eq, Structural, Debug)]
pub struct SurfaceState {
    pub width: u32,
    pub height: u32,
    pub configured: bool,
    pub hdr_width: u32,
    pub hdr_height: u32,
}

/// `max(value, 1)`: the HDR target never has an empty side.
pub open spec fn at_least_one(value: u32) -> u32 {
    if value == 0 {
        1
    } else {
        value
    }
}

/// Size of the HDR render target made for a surface of the given size.
pub fn hdr_extent(width: u32, height: u32) -> (extent: (u32, u32))
    ensures
        extent == (at_least_one(width), at_least_one(height)),
        extent.0 == if width == 0 {
            1
        } else {
            width
        },
        extent.1 == if height == 0 {
            1
        } else {
            height
        },
{
    let w = if width > 1 {
        width
    } else {
        1
    };
    let h = if height > 1 {
        height
    } else {
        1
    };
    (w, h)
}

impl SurfaceState {
    /// The HDR target has no empty side, and a configured surface has a
    /// usable size that the HDR target matches.
    pub open spec fn wf(self) -> bool {
        &&& self.hdr_width >= 1
        &&& self.hdr_height >= 1
        &&& self.configured ==> self.width > 0 && self.height > 0 && self.hdr_width == self.width
            && self.hdr_height == self.height
    }

    /// The state right after start-up for a window of the given size.
    pub open spec fn new_spec(width: u32, height: u32) -> SurfaceState {
        SurfaceState {
            width,
            height,
            configured: false,
            hdr_width: at_least_one(width),
            hdr_height: at_least_one(height),
        }
    }

    /// State right after start-up for a window of the given size: the
    /// surface is not configured yet, the HDR target is at least 1 x 1.
    pub fn new(width: u32, height: u32) -> (s: SurfaceState)
        ensures
            s.wf(),
            s == SurfaceState::new_spec(width, height),
            s.width == width && s.height == height && !s.configured,
            s.hdr_width == if width == 0 {
                1
            } else {
                width
            },
            s.hdr_height == if height == 0 {
                1
            } else {
                height
            },
    {
        let (hdr_width, hdr_height) = hdr_extent(width, height);
        SurfaceState { width, height, configured: false, hdr_width, hdr_height }
    }

    /// A window resize. A size with an empty side is ignored; any other size
    /// becomes the surface size and the HDR target size, and marks the surface
    /// configured. Returns whether the GPU resources must be recreated.
    pub fn resize(&mut self, width: u32, height: u32) -> (reconfigure: bool)
        ensures
            reconfigure == (width > 0 && height > 0),
            reconfigure ==> *final(self) == (SurfaceState {
                width,
                height,
                configured: true,
                hdr_width: width,
                hdr_height: height,
            }),
            !reconfigure ==> *final(self) == *old(self),
            *final(self) == resized(*old(self), width, height),
            old(self).wf() ==> final(self).wf(),
    {
        if width > 0 && height > 0 {
            self.width = width;
            self.height = height;
            self.configured = true;
            self.hdr_width = width;
            self.hdr_height = height;
            true
        } else {
            false
        }
    }

    /// A frame is only rendered once the surface has been configured.
    pub fn should_render(&self) -> (render: bool)
        ensures
            render == self.configured,
    {
        self.configured
    }
}

/// Resizing twice to the same size is the same as resizing once.
pub proof fn lemma_resize_idempotent(s: SurfaceState, width: u32, height: u32)
    ensures
        ({
            let once = resized(s, width, height);
            resized(once, width, height) == once
        }),
{
}

/// The state a resize leaves behind, as `SurfaceState::resize` states it.
pub open spec fn resized(s: SurfaceState, width: u32, height: u32) -> SurfaceState {
    if width > 0 && height > 0 {
        SurfaceState { width, height, configured: true, hdr_width: width, hdr_height: height }
    } else {
        s
    }
}

/// Whenever a frame may be rendered, the surface has a usable size and the
/// HDR target has that same size.
pub proof fn lemma_render_needs_size(s: SurfaceState)
    requires
        s.wf(),
        s.configured,
    ensures
        s.width > 0 && s.height > 0,
        s.hdr_width == s.width && s.hdr_height == s.height,
{
}

/// Index of the surface format to use among the formats the surface
/// supports, given for each whether it is an sRGB format: the first sRGB
/// one, else the first one.
pub fn format_surface_index(is_srgb: &Vec<bool>) -> (i: usize)
    requires
        is_srgb@.len() > 0,
    ensures
        i < is_srgb@.len(),
        (exists|k: int| 0 <= k < is_srgb@.len() && is_srgb@[k]) ==> is_srgb@[i as int] && forall|
            k: int,
        | 0 <= k < i ==> !#[trigger] is_srgb@[k],
        (forall|k: int| 0 <= k < is_srgb@.len() ==> !#[trigger] is_srgb@[k]) ==> i == 0,
{
    let mut k: usize = 0;
    while k < is_srgb.len()
        invariant
            k <= is_srgb@.len(),
            forall|j: int| 0 <= j < k ==> !#[trigger] is_srgb@[j],
        decreases is_srgb@.len() - k,
    {
        if is_srgb[k] {
            return k;
        }
        k = k + 1;
    }
    0
}

/// Why the next frame of the surface could not be acquired.
#[derive(Clone, Copy, PartialEq, Eq, Structural, Debug)]
pub enum FrameError {
    Timeout,
    Outdated,
    Lost,
    OutOfMemory,
    Other,
}

/// What to do about a frame that could not be acquired.
#[derive(Clone, Copy, PartialEq, Eq, Structural, Debug)]
pub enum FrameRecovery {
    /// Reconfigure the surface at the window's current size.
    Reconfigure,
    /// Report the error and go on.
    Report,
}

/// A lost or outdated surface is reconfigured at the window's size; any
/// other failure is reported.
pub fn recovery_for(error: FrameError) -> (r: FrameRecovery)
    ensures
        r == (if error == FrameError::Lost || error == FrameError::Outdated {
            FrameRecovery::Reconfigure
        } else {
            FrameRecovery::Report
        }),
{
    match error {
        FrameError::Lost | FrameError::Outdated => FrameRecovery::Reconfigure,
        _ => FrameRecovery::Report,
    }
}

} // verus!
