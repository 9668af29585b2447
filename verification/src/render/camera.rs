//! A camera used for rendering: an eye/target/up pose defining a
//! right-handed look-at view transform, and a tagged projection.
//!
//! The pose and the projection parameters are carried as IEEE-754
//! single-precision bit patterns. Composing the projection matrix with
//! the view matrix is numeric work and is done by the platform layer
//! from the values this type hands out.

use vstd::prelude::*;
use crate::bits::{Vec3Bits, BITS_NEG_ONE, BITS_ONE, BITS_ZERO};

verus! {

/// The projection in use: exactly one variant is active.
#[derive(Clone, Copy, PartialEq, Eq, Structural, Debug)]
pub enum ProjectionTransform {
    Perspective { near: u32, far: u32, aspect: u32, fov: u32 },
    Orthographic { left: u32, right: u32, bottom: u32, top: u32, near: u32, far: u32 },
}

/// The right-handed look-at view transform, given by the pose that
/// defines it.
#[derive(Clone, Copy, PartialEq, Eq, Structural, Debug)]
pub struct ViewTransform {
    pub eye: Vec3Bits,
    pub target: Vec3Bits,
    pub up: Vec3Bits,
}

/// A camera: eye position, look-at target, up vector, and projection.
pub struct Camera {
    position: Vec3Bits,
    target: Vec3Bits,
    up: Vec3Bits,
    projection_transform: ProjectionTransform,
}

impl Camera {
    /// The camera's eye position.
    pub closed spec fn spec_position(&self) -> Vec3Bits {
        self.position
    }

    /// The camera's look-at target.
    pub closed spec fn spec_target(&self) -> Vec3Bits {
        self.target
    }

    /// The camera's up vector.
    pub closed spec fn spec_up(&self) -> Vec3Bits {
        self.up
    }

    /// The camera's projection.
    pub closed spec fn spec_projection(&self) -> ProjectionTransform {
        self.projection_transform
    }

    /// The default pose shared by both constructors: at the origin,
    /// looking down the -Z axis, with +Y up.
    pub open spec fn has_default_pose(&self) -> bool {
        &&& self.spec_position() == Vec3Bits::origin()
        &&& self.spec_target() == (Vec3Bits { x: BITS_ZERO, y: BITS_ZERO, z: BITS_NEG_ONE })
        &&& self.spec_up() == Vec3Bits::unit_y()
    }

    /// Sets the pose and thereby the view transform.
    pub fn look_at(&mut self, eye: Vec3Bits, target: Vec3Bits, up: Vec3Bits)
        ensures
            final(self).spec_position() == eye,
            final(self).spec_target() == target,
            final(self).spec_up() == up,
            final(self).spec_projection() == old(self).spec_projection(),
    {
        self.position = eye;
        self.target = target;
        self.up = up;
    }

    /// A camera with the default pose and a perspective projection from
    /// the given parameters.
    pub fn make_projection(near: u32, far: u32, aspect: u32, fov: u32) -> (c: Camera)
        ensures
            c.has_default_pose(),
            c.spec_projection() == (ProjectionTransform::Perspective { near, far, aspect, fov }),
    {
        Camera {
            position: Vec3Bits { x: BITS_ZERO, y: BITS_ZERO, z: BITS_ZERO },
            target: Vec3Bits { x: BITS_ZERO, y: BITS_ZERO, z: BITS_NEG_ONE },
            up: Vec3Bits { x: BITS_ZERO, y: BITS_ONE, z: BITS_ZERO },
            projection_transform: ProjectionTransform::Perspective { near, far, aspect, fov },
        }
    }

    /// A camera with the default pose and an orthographic projection box
    /// from the given parameters.
    pub fn make_orthographic(left: u32, right: u32, bottom: u32, top: u32, near: u32, far: u32) -> (c: Camera)
        ensures
            c.has_default_pose(),
            c.spec_projection() == (ProjectionTransform::Orthographic {
                left,
                right,
                bottom,
                top,
                near,
                far,
            }),
    {
        Camera {
            position: Vec3Bits { x: BITS_ZERO, y: BITS_ZERO, z: BITS_ZERO },
            target: Vec3Bits { x: BITS_ZERO, y: BITS_ZERO, z: BITS_NEG_ONE },
            up: Vec3Bits { x: BITS_ZERO, y: BITS_ONE, z: BITS_ZERO },
            projection_transform: ProjectionTransform::Orthographic {
                left,
                right,
                bottom,
                top,
                near,
                far,
            },
        }
    }

    /// The current view transform, as the pose that defines it.
    pub fn get_view_transform(&self) -> (v: ViewTransform)
        ensures
            v == (ViewTransform {
                eye: self.spec_position(),
                target: self.spec_target(),
                up: self.spec_up(),
            }),
    {
        ViewTransform { eye: self.position, target: self.target, up: self.up }
    }

    /// The current projection parameters.
    pub fn get_projection(&self) -> (p: ProjectionTransform)
        ensures
            p == self.spec_projection(),
    {
        self.projection_transform
    }
}

} // verus!
