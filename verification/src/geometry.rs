//! Window geometry and the orbit animation of the overlay.
//!
//! The window starts unknown (0 by 0) until the first configuration;
//! every configured extent is clamped to a minimum of 100.  The overlay
//! is a fifth of the window on each axis and orbits inside the remaining
//! area: its position is a closed-form function of two unit-interval
//! fractions, `(sin(phase) + 1) / 2` and `(cos(phase) + 1) / 2`, which the
//! caller derives from the elapsed time and hands in as fixed-point
//! numerators over [`ORBIT_SCALE`].  For every such fraction the position
//! stays within `[0, extent - overlay_extent]` on its axis.

use vstd::arithmetic::div_mod::{
    lemma_div_is_ordered,
    lemma_div_multiples_vanish,
    lemma_div_pos_is_pos,
};
use vstd::arithmetic::mul::{lemma_mul_inequality, lemma_mul_nonnegative};
use vstd::prelude::*;

verus! {

/// Minimum window extent on each axis after configuration.
pub const MIN_EXTENT: i32 = 100;

/// The overlay is the window extent divided by this on each axis.
pub const OVERLAY_DIVISOR: i32 = 5;

/// Denominator of the fixed-point unit-interval fractions that drive the
/// orbit: a numerator of `ORBIT_SCALE` stands for 1.0.
pub const ORBIT_SCALE: u32 = 1_000_000;

/// An extent as the clamp of a configuration proposal: proposals under
/// the minimum, including the 0 that lets the client choose, become the
/// minimum.
pub open spec fn clamped(proposal: i32) -> i32 {
    if proposal < MIN_EXTENT {
        MIN_EXTENT
    } else {
        proposal
    }
}

/// Orbit coordinate along one axis: the fraction `frac / ORBIT_SCALE` of
/// the area left beside the overlay, rounded down.
pub open spec fn orbit_coord(frac: int, extent: int) -> int {
    (frac * (extent - extent / (OVERLAY_DIVISOR as int))) / (ORBIT_SCALE as int)
}

/// Current window extent; unknown as (0, 0) until first configured.
pub struct WindowGeometry {
    width: i32,
    height: i32,
}

impl WindowGeometry {
    /// Current window width in pixels, 0 before configuration.
    pub closed spec fn spec_width(self) -> i32 {
        self.width
    }

    /// Current window height in pixels, 0 before configuration.
    pub closed spec fn spec_height(self) -> i32 {
        self.height
    }

    /// Either still unknown on both axes, or clamped on both axes.
    pub open spec fn wf(self) -> bool {
        ||| (self.spec_width() == 0 && self.spec_height() == 0)
        ||| (self.spec_width() >= MIN_EXTENT && self.spec_height() >= MIN_EXTENT)
    }

    /// Whether a configuration has arrived: rendering may proceed.
    pub open spec fn spec_ready(self) -> bool {
        self.spec_width() > 0 && self.spec_height() > 0
    }

    /// Geometry before the first configuration event.
    pub fn unconfigured() -> (geometry: WindowGeometry)
        ensures
            geometry.wf(),
            !geometry.spec_ready(),
            geometry.spec_width() == 0,
            geometry.spec_height() == 0,
    {
        WindowGeometry { width: 0, height: 0 }
    }

    /// Current window width in pixels, 0 before configuration.
    pub fn width(&self) -> (w: i32)
        ensures
            w == self.spec_width(),
    {
        self.width
    }

    /// Current window height in pixels, 0 before configuration.
    pub fn height(&self) -> (h: i32)
        ensures
            h == self.spec_height(),
    {
        self.height
    }

    /// Whether a configuration has arrived: rendering may proceed.
    pub fn is_ready(&self) -> (r: bool)
        ensures
            r == self.spec_ready(),
    {
        self.width > 0 && self.height > 0
    }

    /// Apply a configuration proposal, clamping each axis to the minimum.
    pub fn configure(&mut self, width: i32, height: i32)
        ensures
            final(self).spec_width() == clamped(width),
            final(self).spec_height() == clamped(height),
            final(self).wf(),
            final(self).spec_ready(),
    {
        self.width = if width < MIN_EXTENT {
            MIN_EXTENT
        } else {
            width
        };
        self.height = if height < MIN_EXTENT {
            MIN_EXTENT
        } else {
            height
        };
    }

    /// Overlay extent: a fifth of the window on each axis, rounded down.
    pub fn overlay_size(&self) -> (size: (i32, i32))
        requires
            self.wf(),
        ensures
            size.0 == self.spec_width() / OVERLAY_DIVISOR,
            size.1 == self.spec_height() / OVERLAY_DIVISOR,
    {
        (self.width / OVERLAY_DIVISOR, self.height / OVERLAY_DIVISOR)
    }

    /// Overlay position for the given unit-interval fractions: each axis
    /// scales the area left beside the overlay, so for every fraction the
    /// overlay stays inside the window.
    pub fn overlay_position(&self, sin_frac: u32, cos_frac: u32) -> (pos: (i32, i32))
        requires
            self.wf(),
            self.spec_ready(),
            sin_frac <= ORBIT_SCALE,
            cos_frac <= ORBIT_SCALE,
        ensures
            pos.0 == orbit_coord(sin_frac as int, self.spec_width() as int),
            pos.1 == orbit_coord(cos_frac as int, self.spec_height() as int),
            0 <= pos.0 <= self.spec_width() - self.spec_width() / OVERLAY_DIVISOR,
            0 <= pos.1 <= self.spec_height() - self.spec_height() / OVERLAY_DIVISOR,
    {
        let x = scale_span(sin_frac, self.width - self.width / OVERLAY_DIVISOR);
        let y = scale_span(cos_frac, self.height - self.height / OVERLAY_DIVISOR);
        (x, y)
    }
}

/// The fraction `frac / ORBIT_SCALE` of `span`, rounded down.
fn scale_span(frac: u32, span: i32) -> (r: i32)
    requires
        frac <= ORBIT_SCALE,
        span >= 0,
    ensures
        r == (frac as int * span as int) / (ORBIT_SCALE as int),
        0 <= r <= span,
{
    proof {
        lemma_scale_span_bounds(frac as int, span as int);
    }
    ((frac as u64 * span as u64) / (ORBIT_SCALE as u64)) as i32
}

/// Scaling a nonnegative span by a unit-interval fraction stays within
/// `[0, span]`.
proof fn lemma_scale_span_bounds(frac: int, span: int)
    requires
        0 <= frac <= ORBIT_SCALE as int,
        0 <= span,
    ensures
        0 <= (frac * span) / (ORBIT_SCALE as int) <= span,
{
    let scale = ORBIT_SCALE as int;
    lemma_mul_nonnegative(frac, span);
    lemma_div_pos_is_pos(frac * span, scale);
    lemma_mul_inequality(frac, scale, span);
    lemma_div_is_ordered(frac * span, scale * span, scale);
    lemma_div_multiples_vanish(span, scale);
}

} // verus!
