//! A camera that hovers above the world with a fixed look vector and
//! interpolates its position toward a target.
//!
//! The interpolation step itself (distances, normalization, the
//! deceleration curve) is numeric work done by the platform layer on the
//! values this type hands out; the state, the target bookkeeping and the
//! up-vector selection are verified here.

use vstd::prelude::*;
use crate::bits::{Vec3Bits, BITS_ONE, BITS_TWO, BITS_ZERO};
use crate::render::camera::Camera;

verus! {

/// Bit pattern of the single-precision value -0.99: the shallow end of
/// the look-direction band treated as straight down.
pub const BITS_NEG_0_99: u32 = 0xBF7D_70A4;

/// Bit pattern of the single-precision value -1.01: the steep end of the
/// look-direction band treated as straight down.
pub const BITS_NEG_1_01: u32 = 0xBF81_47AE;

/// Whether a look direction's y component, read as a single-precision
/// value, lies in [-1.01, -0.99] — pretty much looking straight down.
///
/// For values in that band the sign bit is set and the magnitude lies
/// between those of 0.99 and 1.01; negative single-precision values
/// (NaNs aside) order in reverse of their bit patterns, so the numeric
/// range test is exactly this bit-pattern range test. Every pattern in
/// the range is an ordinary negative number, every pattern outside it —
/// positive values, other negative values, NaNs — compares outside the
/// band, just as the numeric test decides.
pub open spec fn near_straight_down(y_bits: u32) -> bool {
    BITS_NEG_0_99 <= y_bits <= BITS_NEG_1_01
}

/// A follow camera: current position, fixed look direction, move-speed
/// multiplier, and the target position it interpolates toward.
pub struct TopDownCamera {
    pub current_position: Vec3Bits,
    pub look_direction: Vec3Bits,
    pub move_speed_multi: u32,
    pub target_position: Vec3Bits,
}

impl TopDownCamera {
    /// A follow camera at `position`, with the default move speed of 2,
    /// aimed along `look` and with its target where it stands. `look`
    /// must already be unit length; the platform layer normalizes the
    /// caller's vector before construction.
    pub fn new(position: Vec3Bits, look: Vec3Bits) -> (c: TopDownCamera)
        ensures
            c.current_position == position,
            c.look_direction == look,
            c.target_position == position,
            c.move_speed_multi == BITS_TWO,
    {
        TopDownCamera {
            current_position: position,
            look_direction: look,
            target_position: position,
            move_speed_multi: BITS_TWO,
        }
    }

    /// Overwrites the target the camera interpolates toward.
    pub fn set_target(&mut self, target: Vec3Bits)
        ensures
            final(self).target_position == target,
            final(self).current_position == old(self).current_position,
            final(self).look_direction == old(self).look_direction,
            final(self).move_speed_multi == old(self).move_speed_multi,
    {
        self.target_position = target;
    }

    /// The up direction a render camera should use for this camera's
    /// pose: +Y, unless the look direction is pretty much straight down,
    /// in which case +Z, so the up vector cannot converge on the look
    /// direction.
    pub fn up_direction(&self) -> (up: Vec3Bits)
        ensures
            up == (if near_straight_down(self.look_direction.y) {
                Vec3Bits::unit_z()
            } else {
                Vec3Bits::unit_y()
            }),
    {
        if self.look_direction.y >= BITS_NEG_0_99 && self.look_direction.y <= BITS_NEG_1_01 {
            Vec3Bits { x: BITS_ZERO, y: BITS_ZERO, z: BITS_ONE }
        } else {
            Vec3Bits { x: BITS_ZERO, y: BITS_ONE, z: BITS_ZERO }
        }
    }

    /// Points a render camera along this camera's pose: eye at the
    /// current position, looking at `look_target` — the current position
    /// offset by the look direction, a sum the platform layer computes —
    /// with the up direction selected by `up_direction`.
    pub fn apply_to_render_camera(&self, render_cam: &mut Camera, look_target: Vec3Bits)
        ensures
            final(render_cam).spec_position() == self.current_position,
            final(render_cam).spec_target() == look_target,
            final(render_cam).spec_up() == (if near_straight_down(self.look_direction.y) {
                Vec3Bits::unit_z()
            } else {
                Vec3Bits::unit_y()
            }),
            final(render_cam).spec_projection() == old(render_cam).spec_projection(),
    {
        let up = self.up_direction();
        render_cam.look_at(self.current_position, look_target, up);
    }
}

} // verus!
