//! The derived rotation: yaw about the world up composed outside pitch
//! about the camera's right, and the proof that this order never rolls
//! the camera.
//!
//! A rotation is modelled by its matrix rows; the sine and cosine of an
//! angle appear as symbolic components `s` and `c`, so every claim is a
//! polynomial identity that holds for the real values the engine
//! computes.

use vstd::prelude::*;

use crate::vec3::{v3, SpecVec3, dot3};

verus! {

/// A 3×3 matrix given by its rows.
pub ghost struct SpecMat3 {
    pub r0: SpecVec3,
    pub r1: SpecVec3,
    pub r2: SpecVec3,
}

/// The rotation about the world vertical axis whose angle has sine `s`
/// and cosine `c`.
pub open spec fn yaw_matrix(s: int, c: int) -> SpecMat3 {
    SpecMat3 { r0: v3(c, 0, s), r1: v3(0, 1, 0), r2: v3(-s, 0, c) }
}

/// The rotation about the camera's local right axis whose angle has
/// sine `s` and cosine `c`.
pub open spec fn pitch_matrix(s: int, c: int) -> SpecMat3 {
    SpecMat3 { r0: v3(1, 0, 0), r1: v3(0, c, -s), r2: v3(0, s, c) }
}

/// The matrix applied to a vector.
pub open spec fn mat_apply(m: SpecMat3, a: SpecVec3) -> SpecVec3 {
    v3(dot3(m.r0, a), dot3(m.r1, a), dot3(m.r2, a))
}

/// The derived camera rotation applied to a vector: pitch first in the
/// camera's frame, then yaw in the world frame.
pub open spec fn look_rotation_apply(sy: int, cy: int, sp: int, cp: int, a: SpecVec3) -> SpecVec3 {
    mat_apply(yaw_matrix(sy, cy), mat_apply(pitch_matrix(sp, cp), a))
}

/// Composing a yaw (outer, world frame) with a pitch (inner, camera
/// frame) never introduces roll, for any pair of angles: the camera's
/// right axis stays in the world's horizontal plane, and the camera's
/// up axis keeps exactly the projection onto the world up that a pure
/// pitch gives — the yaw contributes nothing to it.
pub proof fn lemma_yaw_then_pitch_never_rolls(sy: int, cy: int, sp: int, cp: int)
    ensures
        look_rotation_apply(sy, cy, sp, cp, v3(1, 0, 0)).x == cy,
        look_rotation_apply(sy, cy, sp, cp, v3(1, 0, 0)).y == 0,
        look_rotation_apply(sy, cy, sp, cp, v3(1, 0, 0)).z == -sy,
        look_rotation_apply(sy, cy, sp, cp, v3(0, 1, 0)).y == mat_apply(
            pitch_matrix(sp, cp),
            v3(0, 1, 0),
        ).y,
        look_rotation_apply(sy, cy, sp, cp, v3(0, 1, 0)).y == cp,
{
    let ix: int = mat_apply(pitch_matrix(sp, cp), v3(1, 0, 0)).x;
    let iy: int = mat_apply(pitch_matrix(sp, cp), v3(1, 0, 0)).y;
    let iz: int = mat_apply(pitch_matrix(sp, cp), v3(1, 0, 0)).z;
    assert(ix == 1 && iy == 0 && iz == 0);
    assert(cy * ix + 0 * iy + sy * iz == cy) by (nonlinear_arith)
        requires
            ix == 1,
            iy == 0,
            iz == 0,
    ;
    assert((-sy) * ix + 0 * iy + cy * iz == -sy) by (nonlinear_arith)
        requires
            ix == 1,
            iy == 0,
            iz == 0,
    ;
    let ux: int = mat_apply(pitch_matrix(sp, cp), v3(0, 1, 0)).x;
    let uy: int = mat_apply(pitch_matrix(sp, cp), v3(0, 1, 0)).y;
    let uz: int = mat_apply(pitch_matrix(sp, cp), v3(0, 1, 0)).z;
    assert(ux == 0 && uy == cp && uz == sp);
    assert(0 * ux + 1 * uy + 0 * uz == cp) by (nonlinear_arith)
        requires
            ux == 0,
            uy == cp,
            uz == sp,
    ;
}

} // verus!
