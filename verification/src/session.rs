//! The surface session: the negotiated swapchain configuration and the
//! last-known window size.
//!
//! The session owns the configuration that the surrounding program applies
//! to the real surface: the chosen format (the first gamma-corrected one
//! the surface supports, else the first supported), the first supported
//! present and alpha modes, and the window's pixel size clamped to at
//! least one in each dimension.  Resizing to a degenerate size is a no-op;
//! resizing to a positive size stores it exactly and is idempotent.

use vstd::prelude::*;

verus! {

/// One surface format as the surface reports it: an opaque identifier and
/// whether the format is gamma corrected (sRGB).
#[derive(Clone, Copy, Debug, PartialEq, Eq, Structural)]
pub struct FormatOption {
    pub id: u32,
    pub srgb: bool,
}

/// The swapchain configuration negotiated between surface and device.
/// Present and alpha modes are opaque identifiers taken from the lists
/// the surface supports.
#[derive(Clone, Copy, Debug, PartialEq, Eq, Structural)]
pub struct SurfaceConfig {
    pub format: FormatOption,
    pub width: u32,
    pub height: u32,
    pub present_mode: u32,
    pub alpha_mode: u32,
}

/// The session state threaded through the render loop: the current
/// configuration and the last-known logical window size.
#[derive(Clone, Copy, Debug, PartialEq, Eq)]
pub struct SurfaceSession {
    pub config: SurfaceConfig,
    pub size: (i32, i32),
}

/// Index of the first gamma-corrected format of `s`; `s.len()` when none is.
pub open spec fn first_srgb_index(s: Seq<FormatOption>) -> int
    decreases s.len(),
{
    if s.len() <= 0 {
        0
    } else if s[0].srgb {
        0
    } else {
        1 + first_srgb_index(s.skip(1))
    }
}

/// Index of the format the session selects: the first gamma-corrected
/// format if any exists, else the first format.
pub open spec fn preferred_format_index(s: Seq<FormatOption>) -> int {
    if first_srgb_index(s) < s.len() {
        first_srgb_index(s)
    } else {
        0
    }
}

/// A dimension clamped to a minimum of one pixel.
pub open spec fn clamp_dim(d: int) -> u32 {
    if d >= 1 {
        d as u32
    } else {
        1
    }
}

proof fn lemma_first_srgb_index_bounds(s: Seq<FormatOption>)
    ensures
        0 <= first_srgb_index(s) <= s.len(),
        forall|j: int| 0 <= j < first_srgb_index(s) ==> !s[j].srgb,
        first_srgb_index(s) < s.len() ==> s[first_srgb_index(s)].srgb,
    decreases s.len(),
{
    if s.len() > 0 && !s[0].srgb {
        lemma_first_srgb_index_bounds(s.skip(1));
        assert forall|j: int| 0 <= j < first_srgb_index(s) implies !s[j].srgb by {
            if j > 0 {
                assert(s.skip(1)[j - 1] == s[j]);
            }
        }
        if first_srgb_index(s) < s.len() {
            assert(s.skip(1)[first_srgb_index(s.skip(1))] == s[first_srgb_index(s)]);
        }
    }
}

proof fn lemma_first_srgb_index_found(s: Seq<FormatOption>, i: int)
    requires
        0 <= i < s.len(),
        s[i].srgb,
        forall|j: int| 0 <= j < i ==> !s[j].srgb,
    ensures
        first_srgb_index(s) == i,
    decreases i,
{
    if i > 0 {
        assert(s.skip(1)[i - 1] == s[i]);
        assert forall|j: int| 0 <= j < i - 1 implies !s.skip(1)[j] .srgb by {
            assert(s.skip(1)[j] == s[j + 1]);
        }
        lemma_first_srgb_index_found(s.skip(1), i - 1);
    }
}

/// Select the surface format the session will use: the index of the first
/// format flagged as gamma corrected, or index zero when none is flagged.
pub fn select_surface_format(formats: &Vec<FormatOption>) -> (r: usize)
    requires
        formats.len() >= 1,
    ensures
        r as int == preferred_format_index(formats@),
        r < formats.len(),
{
    let n = formats.len();
    let mut i: usize = 0;
    while i < n
        invariant
            0 <= i <= n,
            n == formats.len(),
            forall|j: int| 0 <= j < i ==> !formats@[j].srgb,
        decreases n - i,
    {
        if formats[i].srgb {
            proof {
                lemma_first_srgb_index_found(formats@, i as int);
            }
            return i;
        }
        i += 1;
    }
    proof {
        lemma_first_srgb_index_bounds(formats@);
    }
    0
}

impl SurfaceSession {
    /// The session invariant: the configured dimensions are at least one.
    pub open spec fn wf(self) -> bool {
        self.config.width >= 1 && self.config.height >= 1
    }

    /// Build the initial session from what the surface supports and the
    /// window's current pixel size.  Fails exactly when the surface
    /// reports no format, no present mode or no alpha mode; those are
    /// startup preconditions the surrounding program treats as fatal.
    pub fn initialize(
        formats: &Vec<FormatOption>,
        present_modes: &Vec<u32>,
        alpha_modes: &Vec<u32>,
        width: i32,
        height: i32,
    ) -> (r: Option<SurfaceSession>)
        ensures
            r is Some <==> (formats.len() >= 1 && present_modes.len() >= 1 && alpha_modes.len()
                >= 1),
            r matches Some(s) ==> {
                &&& s.wf()
                &&& s.config.format == formats@[preferred_format_index(formats@)]
                &&& s.config.width == clamp_dim(width as int)
                &&& s.config.height == clamp_dim(height as int)
                &&& s.config.present_mode == present_modes@[0]
                &&& s.config.alpha_mode == alpha_modes@[0]
                &&& s.size == (width, height)
            },
    {
        if formats.len() == 0 || present_modes.len() == 0 || alpha_modes.len() == 0 {
            return None;
        }
        let format_index = select_surface_format(formats);
        let config = SurfaceConfig {
            format: formats[format_index],
            width: if width >= 1 {
                width as u32
            } else {
                1
            },
            height: if height >= 1 {
                height as u32
            } else {
                1
            },
            present_mode: present_modes[0],
            alpha_mode: alpha_modes[0],
        };
        Some(SurfaceSession { config, size: (width, height) })
    }

    /// Resize to a positive size: store it and carry it into the
    /// configuration.  A degenerate size (a minimized or zero-area
    /// window) leaves the session unchanged.
    pub fn resize(&mut self, new_width: i32, new_height: i32)
        requires
            old(self).wf(),
        ensures
            *final(self) == resize_spec(*old(self), new_width, new_height),
            final(self).wf(),
    {
        if new_width > 0 && new_height > 0 {
            self.size = (new_width, new_height);
            self.config.width = new_width as u32;
            self.config.height = new_height as u32;
        }
    }
}

/// What a resize does: a positive size replaces the stored size and the
/// configured dimensions, anything else changes nothing.
pub open spec fn resize_spec(s: SurfaceSession, w: i32, h: i32) -> SurfaceSession {
    if w > 0 && h > 0 {
        SurfaceSession {
            size: (w, h),
            config: SurfaceConfig { width: w as u32, height: h as u32, ..s.config },
        }
    } else {
        s
    }
}

/// Law: a resize with a zero or negative dimension leaves the stored size
/// and the whole configuration unchanged.
pub proof fn lemma_resize_degenerate_is_noop(s: SurfaceSession, w: i32, h: i32)
    requires
        w <= 0 || h <= 0,
    ensures
        resize_spec(s, w, h) == s,
{
}

/// Law: a resize with positive dimensions stores exactly the new size,
/// carries it into the configuration, and changes nothing else of it.
pub proof fn lemma_resize_positive_exact(s: SurfaceSession, w: i32, h: i32)
    requires
        w > 0,
        h > 0,
    ensures
        resize_spec(s, w, h).size == (w, h),
        resize_spec(s, w, h).config.width == w as u32,
        resize_spec(s, w, h).config.height == h as u32,
        resize_spec(s, w, h).config.format == s.config.format,
        resize_spec(s, w, h).config.present_mode == s.config.present_mode,
        resize_spec(s, w, h).config.alpha_mode == s.config.alpha_mode,
{
}

/// Law: resizing twice to the same size has the same observable effect
/// as resizing once.
pub proof fn lemma_resize_idempotent(s: SurfaceSession, w: i32, h: i32)
    ensures
        resize_spec(resize_spec(s, w, h), w, h) == resize_spec(s, w, h),
{
}

} // verus!
