//! The display transform: rotation and zoom.
//!
//! The transform is purely presentational: it maps the rendered texture to
//! screen space and never touches pixel data, so repeated zooming and
//! rotating is lossless. Rotation accumulates in quarter turns of ninety
//! degrees; zoom accumulates in steps of one eighth of the identity scale.
//! Neither accumulator is clamped — the user may keep turning or zooming —
//! so zoom can reach or pass zero; the shell decides what to present then.

use vstd::prelude::*;

verus! {

/// The zoom accumulator's step: one eighth of the identity scale.
pub const ZOOM_STEP_EIGHTHS: i32 = 1;

/// The identity zoom, in eighths.
pub const ZOOM_IDENTITY_EIGHTHS: i32 = 8;

/// Accumulated display transform of the loaded image.
#[derive(Clone, Copy, Debug, PartialEq, Eq, Structural)]
pub struct Transform {
    /// Accumulated rotation, in quarter turns of ninety degrees;
    /// positive is clockwise.
    pub quarter_turns: i32,
    /// Accumulated zoom, in eighths of the identity scale.
    pub zoom_eighths: i32,
}

impl Transform {
    /// An odd number of quarter turns swaps the displayed width and height.
    pub open spec fn swaps_axes(self) -> bool {
        self.quarter_turns % 2 != 0
    }

    /// The identity transform: no rotation, unit zoom.
    pub fn new() -> (t: Transform)
        ensures
            t.quarter_turns == 0,
            t.zoom_eighths == ZOOM_IDENTITY_EIGHTHS,
            !t.swaps_axes(),
    {
        Transform { quarter_turns: 0, zoom_eighths: ZOOM_IDENTITY_EIGHTHS }
    }

    /// One clockwise quarter turn.
    pub fn rotate_cw(&mut self)
        requires
            old(self).quarter_turns < i32::MAX,
        ensures
            final(self).quarter_turns == old(self).quarter_turns + 1,
            final(self).zoom_eighths == old(self).zoom_eighths,
    {
        self.quarter_turns = self.quarter_turns + 1;
    }

    /// One counterclockwise quarter turn.
    pub fn rotate_ccw(&mut self)
        requires
            old(self).quarter_turns > i32::MIN,
        ensures
            final(self).quarter_turns == old(self).quarter_turns - 1,
            final(self).zoom_eighths == old(self).zoom_eighths,
    {
        self.quarter_turns = self.quarter_turns - 1;
    }

    /// One zoom step in.
    pub fn zoom_in(&mut self)
        requires
            old(self).zoom_eighths + ZOOM_STEP_EIGHTHS <= i32::MAX,
        ensures
            final(self).zoom_eighths == old(self).zoom_eighths + ZOOM_STEP_EIGHTHS,
            final(self).quarter_turns == old(self).quarter_turns,
    {
        self.zoom_eighths = self.zoom_eighths + ZOOM_STEP_EIGHTHS;
    }

    /// One zoom step out.
    pub fn zoom_out(&mut self)
        requires
            old(self).zoom_eighths - ZOOM_STEP_EIGHTHS >= i32::MIN,
        ensures
            final(self).zoom_eighths == old(self).zoom_eighths - ZOOM_STEP_EIGHTHS,
            final(self).quarter_turns == old(self).quarter_turns,
    {
        self.zoom_eighths = self.zoom_eighths - ZOOM_STEP_EIGHTHS;
    }

    /// The displayed width and height of a texture under this rotation: an
    /// odd number of quarter turns swaps the axes, an even number keeps
    /// them.
    pub fn display_size(&self, width: u32, height: u32) -> (d: (u32, u32))
        ensures
            self.swaps_axes() ==> d == (height, width),
            !self.swaps_axes() ==> d == (width, height),
    {
        if self.quarter_turns % 2 != 0 {
            (height, width)
        } else {
            (width, height)
        }
    }
}

/// The zoom law: one step in followed by one step out — or the other way
/// round — restores the display scale exactly; nothing was resampled on the
/// way.
pub proof fn lemma_zoom_roundtrip(t: Transform)
    requires
        t.zoom_eighths + ZOOM_STEP_EIGHTHS <= i32::MAX,
    ensures
        ({
            let stepped = Transform {
                zoom_eighths: (t.zoom_eighths + ZOOM_STEP_EIGHTHS) as i32,
                ..t
            };
            let back = Transform {
                zoom_eighths: (stepped.zoom_eighths - ZOOM_STEP_EIGHTHS) as i32,
                ..t
            };
            back == t
        }),
{
}

/// The rotation law: four quarter turns in the same direction restore the
/// original width and height ordering of the display.
pub proof fn lemma_four_quarter_turns(t: Transform)
    requires
        t.quarter_turns + 4 <= i32::MAX,
    ensures
        (Transform { quarter_turns: (t.quarter_turns + 4) as i32, ..t }).swaps_axes()
            == t.swaps_axes(),
{
    let q = t.quarter_turns as int;
    assert((q + 4) % 2 == q % 2) by {
        vstd::arithmetic::div_mod::lemma_mod_add_multiples_vanish(q, 2);
        vstd::arithmetic::div_mod::lemma_mod_add_multiples_vanish(q + 2, 2);
    }
}

} // verus!
