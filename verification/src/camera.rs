//! Camera parameters and the inputs of the view-projection computation.
//!
//! Every scalar is an `f32` carried as its IEEE-754 bit pattern. For
//! strictly positive finite `f32` values the unsigned order of the bit
//! patterns is the floating-point order, which lets the camera's scalar
//! invariants be stated and checked exactly over the bits.

use vstd::prelude::*;

verus! {

/// A 3D point or vector: the bit patterns of three `f32` components.
#[derive(Clone, Copy, Debug, PartialEq, Eq, Structural)]
pub struct Vec3Bits {
    pub x: u32,
    pub y: u32,
    pub z: u32,
}

/// The bit pattern of `+infinity`; every non-negative finite `f32` has a
/// pattern strictly below it.
pub const F32_INFINITY_BITS: u32 = 0x7F80_0000;

/// Whether `v` is the bit pattern of a strictly positive finite `f32`.
pub open spec fn is_positive_finite(v: u32) -> bool {
    0 < v < F32_INFINITY_BITS
}

/// The camera: eye, look-at target and up direction, plus the perspective
/// scalars. Constructed once at startup and immutable thereafter.
#[derive(Clone, Copy, Debug, PartialEq, Eq, Structural)]
pub struct Camera {
    pub eye: Vec3Bits,
    pub target: Vec3Bits,
    pub up: Vec3Bits,
    pub aspect: u32,
    pub fovy: u32,
    pub znear: u32,
    pub zfar: u32,
}

/// The camera's scalar invariant: field of view, aspect ratio and both
/// depth-range bounds are strictly positive finite values, and the near
/// plane sits strictly before the far plane.
pub open spec fn camera_well_formed(c: Camera) -> bool {
    &&& is_positive_finite(c.aspect)
    &&& is_positive_finite(c.fovy)
    &&& is_positive_finite(c.znear)
    &&& is_positive_finite(c.zfar)
    &&& c.znear < c.zfar
}

/// The fixed default camera: one unit up and two units back from the
/// origin, looking at the origin with `+Y` up, a 16:9 aspect ratio, a 45
/// degree field of view and a depth range of `0.1` to `100.0`. Each
/// constant is the bit pattern of the corresponding `f32` value.
pub open spec fn default_camera() -> Camera {
    Camera {
        eye: Vec3Bits { x: 0, y: 0x3F80_0000, z: 0x4000_0000 },
        target: Vec3Bits { x: 0, y: 0, z: 0 },
        up: Vec3Bits { x: 0, y: 0x3F80_0000, z: 0 },
        aspect: 0x3FE3_8E39,
        fovy: 0x4234_0000,
        znear: 0x3DCC_CCCD,
        zfar: 0x42C8_0000,
    }
}

impl Default for Camera {
    /// Builds the fixed default camera, which satisfies the camera
    /// invariant.
    fn default() -> (c: Camera)
        ensures
            c == default_camera(),
            camera_well_formed(c),
    {
        Camera {
            eye: Vec3Bits { x: 0, y: 0x3F80_0000, z: 0x4000_0000 },
            target: Vec3Bits { x: 0, y: 0, z: 0 },
            up: Vec3Bits { x: 0, y: 0x3F80_0000, z: 0 },
            aspect: 0x3FE3_8E39,
            fovy: 0x4234_0000,
            znear: 0x3DCC_CCCD,
            zfar: 0x42C8_0000,
        }
    }
}

/// The inputs of the view matrix: eye location, target location and
/// up-vector of a right-handed look-at transform.
#[derive(Clone, Copy, Debug, PartialEq, Eq, Structural)]
pub struct LookAtParams {
    pub eye: Vec3Bits,
    pub target: Vec3Bits,
    pub up: Vec3Bits,
}

/// The inputs of a right-handed perspective projection.
#[derive(Clone, Copy, Debug, PartialEq, Eq, Structural)]
pub struct PerspectiveParams {
    pub fovy: u32,
    pub aspect: u32,
    pub znear: u32,
    pub zfar: u32,
}

/// The view the scene actually renders with: eye at `(1.5, -5.0, 3.0)`,
/// looking at the origin, with `+Z` up. These are hand-specified constants,
/// deliberately independent of the camera's own `eye`/`target`/`up` fields.
pub open spec fn scene_look_at() -> LookAtParams {
    LookAtParams {
        eye: Vec3Bits { x: 0x3FC0_0000, y: 0xC0A0_0000, z: 0x4040_0000 },
        target: Vec3Bits { x: 0, y: 0, z: 0 },
        up: Vec3Bits { x: 0, y: 0, z: 0x3F80_0000 },
    }
}

/// The projection the scene actually renders with: a 45 degree (pi over
/// four radians) vertical field of view, a 4:3 aspect ratio, and a depth
/// range of `1.0` to `10.0` — again fixed constants, independent of the
/// camera's own scalars.
pub open spec fn scene_perspective() -> PerspectiveParams {
    PerspectiveParams {
        fovy: 0x3F49_0FDB,
        aspect: 0x3FAA_AAAB,
        znear: 0x3F80_0000,
        zfar: 0x4120_0000,
    }
}

impl Camera {
    /// The inputs from which the view-projection matrix is computed, in
    /// fixed order: the look-at view, then the perspective projection; the
    /// matrix itself is their product `projection * view`, carried out by
    /// the floating-point shell.
    ///
    /// The result is constant: the scene's view is hand-specified and
    /// ignores the camera's own fields here.
    pub fn view_projection_inputs(&self) -> (r: (LookAtParams, PerspectiveParams))
        ensures
            r.0 == scene_look_at(),
            r.1 == scene_perspective(),
    {
        (
            LookAtParams {
                eye: Vec3Bits { x: 0x3FC0_0000, y: 0xC0A0_0000, z: 0x4040_0000 },
                target: Vec3Bits { x: 0, y: 0, z: 0 },
                up: Vec3Bits { x: 0, y: 0, z: 0x3F80_0000 },
            },
            PerspectiveParams {
                fovy: 0x3F49_0FDB,
                aspect: 0x3FAA_AAAB,
                znear: 0x3F80_0000,
                zfar: 0x4120_0000,
            },
        )
    }
}

/// The projection constants the scene renders with are themselves a valid
/// depth configuration: positive finite bounds with the near plane before
/// the far plane.
pub proof fn lemma_scene_perspective_well_formed()
    ensures
        is_positive_finite(scene_perspective().znear),
        is_positive_finite(scene_perspective().zfar),
        scene_perspective().znear < scene_perspective().zfar,
        is_positive_finite(scene_perspective().fovy),
        is_positive_finite(scene_perspective().aspect),
{
}

} // verus!
