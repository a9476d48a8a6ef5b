//! The per-tick movement decision and the normalization laws.
//!
//! Held keys add unit contributions along the camera's horizontal
//! forward and right axes and the world up axis; the combined vector is
//! then normalized to unit length and scaled by `speed · dt`, so
//! holding several keys at once never moves faster than holding one,
//! and the distance covered does not depend on the tick rate. A raw
//! per-tick key sum — un-normalized and un-scaled — would be faster on
//! diagonals and frame-rate dependent, and is deliberately not offered.
//! The controller decides the integer coefficients exactly; the engine
//! evaluates the floating-point axes, normalization and translation.

use vstd::arithmetic::mul::lemma_mul_is_distributive_add_other_way;
use vstd::prelude::*;

use crate::input::InputSnapshot;
use crate::vec3::{add3, dot3, lemma_dot_combination, scale3, v3, SpecVec3};

verus! {

/// The signed contribution of an opposed key pair: +1 while only the
/// positive key is held, -1 while only the negative one is.
pub open spec fn key_axis(pos: bool, neg: bool) -> int {
    (if pos {
        1int
    } else {
        0int
    }) - (if neg {
        1int
    } else {
        0int
    })
}

/// The forward coefficient one tick asks for: W minus S, gated by the
/// cursor lock.
pub open spec fn forward_coeff(input: InputSnapshot) -> int {
    if input.cursor_locked {
        key_axis(input.forward, input.backward)
    } else {
        0
    }
}

/// The right coefficient one tick asks for: D minus A, gated by the
/// cursor lock.
pub open spec fn right_coeff(input: InputSnapshot) -> int {
    if input.cursor_locked {
        key_axis(input.right, input.left)
    } else {
        0
    }
}

/// The world-up coefficient one tick asks for: Space minus Shift, gated
/// by the cursor lock.
pub open spec fn up_coeff(input: InputSnapshot) -> int {
    if input.cursor_locked {
        key_axis(input.ascend, input.descend)
    } else {
        0
    }
}

/// The movement decision for one tick: integer coefficients of the
/// camera's horizontal forward axis, its horizontal right axis and the
/// world up axis, together with the squared length of that coefficient
/// vector. The engine forms `forward · f + right · r + up · u` with its
/// floating-point axes, normalizes it to unit length (or leaves zero)
/// and translates by it times `speed · dt`.
#[derive(Clone, Copy, Debug, PartialEq, Eq, Structural)]
pub struct MoveIntent {
    /// Coefficient of the camera's horizontal forward axis.
    pub forward: i32,
    /// Coefficient of the camera's horizontal right axis.
    pub right: i32,
    /// Coefficient of the world up axis.
    pub up: i32,
    /// `forward² + right² + up²`, the squared length of the raw sum.
    pub norm_sq: i32,
}

impl MoveIntent {
    /// No key asked for movement: the engine translates by nothing.
    pub open spec fn is_zero(self) -> bool {
        self.forward == 0 && self.right == 0 && self.up == 0
    }

    /// The coefficients match the held keys and `norm_sq` is their
    /// squared length.
    pub open spec fn decides(self, input: InputSnapshot) -> bool {
        &&& self.forward as int == forward_coeff(input)
        &&& self.right as int == right_coeff(input)
        &&& self.up as int == up_coeff(input)
        &&& self.norm_sq as int == forward_coeff(input) * forward_coeff(input) + right_coeff(input)
            * right_coeff(input) + up_coeff(input) * up_coeff(input)
    }
}

/// The signed contribution of an opposed key pair, as the loop computes
/// it.
fn key_axis_value(pos: bool, neg: bool) -> (r: i32)
    ensures
        r as int == key_axis(pos, neg),
        -1 <= r <= 1,
{
    let p: i32 = if pos {
        1
    } else {
        0
    };
    let n: i32 = if neg {
        1
    } else {
        0
    };
    p - n
}

/// Decides one tick's movement from the held keys. While the cursor is
/// unlocked every coefficient is zero; while it is locked, each opposed
/// key pair contributes its sign along its axis. The combined vector is
/// zero exactly when `norm_sq` is zero, so the engine can test the
/// returned `norm_sq` before dividing by its square root.
pub fn move_intent(input: &InputSnapshot) -> (r: MoveIntent)
    ensures
        r.decides(*input),
        0 <= r.norm_sq <= 3,
        r.is_zero() <==> r.norm_sq == 0,
        !input.cursor_locked ==> r.is_zero(),
        input.no_movement_keys() ==> r.is_zero(),
{
    let f: i32 = if input.cursor_locked {
        key_axis_value(input.forward, input.backward)
    } else {
        0
    };
    let s: i32 = if input.cursor_locked {
        key_axis_value(input.right, input.left)
    } else {
        0
    };
    let u: i32 = if input.cursor_locked {
        key_axis_value(input.ascend, input.descend)
    } else {
        0
    };
    let norm_sq: i32 = square_unit(f) + square_unit(s) + square_unit(u);
    MoveIntent { forward: f, right: s, up: u, norm_sq }
}

/// The square of a coefficient in {-1, 0, 1}.
fn square_unit(x: i32) -> (r: i32)
    requires
        -1 <= x <= 1,
    ensures
        r as int == (x as int) * (x as int),
        0 <= r <= 1,
{
    proof {
        assert((x as int) * (x as int) == if x == 0 {
            0int
        } else {
            1int
        }) by (nonlinear_arith)
            requires
                -1 <= x as int <= 1,
        ;
    }
    if x == 0 {
        0
    } else {
        1
    }
}

/// The camera's horizontal forward axis at a given yaw and pitch. The
/// yaw's sine and cosine appear as `sy` and `cy` at scale `dy`, the
/// pitch's cosine as `cp` at its own scale: the axis is the camera's
/// local backward axis negated and flattened to the horizontal plane,
/// as the movement update uses it.
pub open spec fn forward_axis(sy: int, cy: int, cp: int) -> SpecVec3 {
    v3(-(sy * cp), 0, -(cy * cp))
}

/// The camera's horizontal right axis at the same angles.
pub open spec fn right_axis(sy: int, cy: int, cp: int) -> SpecVec3 {
    v3(cy * cp, 0, -(sy * cp))
}

/// The world up axis, at the common scale `dy · dp` of the two axes
/// above.
pub open spec fn up_axis(dy: int, dp: int) -> SpecVec3 {
    v3(0, dy * dp, 0)
}

/// The raw movement sum `a · forward + b · right + c · up`.
pub open spec fn combined_move(
    a: int,
    b: int,
    c: int,
    sy: int,
    cy: int,
    cp: int,
    dy: int,
    dp: int,
) -> SpecVec3 {
    add3(
        add3(scale3(a, forward_axis(sy, cy, cp)), scale3(b, right_axis(sy, cy, cp))),
        scale3(c, up_axis(dy, dp)),
    )
}

/// The three movement axes are mutually orthogonal, the horizontal two
/// share the squared length `cp² · dy²`, and the up axis has squared
/// length `dy² · dp²` — for any yaw whose sine and cosine satisfy
/// `sy² + cy² == dy²`.
pub proof fn lemma_axes_orthogonal(sy: int, cy: int, cp: int, dy: int, dp: int)
    requires
        sy * sy + cy * cy == dy * dy,
    ensures
        dot3(forward_axis(sy, cy, cp), right_axis(sy, cy, cp)) == 0,
        dot3(forward_axis(sy, cy, cp), up_axis(dy, dp)) == 0,
        dot3(right_axis(sy, cy, cp), up_axis(dy, dp)) == 0,
        dot3(forward_axis(sy, cy, cp), forward_axis(sy, cy, cp)) == (cp * cp) * (dy * dy),
        dot3(right_axis(sy, cy, cp), right_axis(sy, cy, cp)) == (cp * cp) * (dy * dy),
        dot3(up_axis(dy, dp), up_axis(dy, dp)) == (dy * dy) * (dp * dp),
{
    let fx: int = -(sy * cp);
    let fz: int = -(cy * cp);
    let rx: int = cy * cp;
    let rz: int = -(sy * cp);
    assert(fx * rx + fz * rz == 0) by (nonlinear_arith)
        requires
            fx == -(sy * cp),
            fz == -(cy * cp),
            rx == cy * cp,
            rz == -(sy * cp),
    ;
    assert(fx * fx + fz * fz == (cp * cp) * (dy * dy)) by (nonlinear_arith)
        requires
            fx == -(sy * cp),
            fz == -(cy * cp),
            sy * sy + cy * cy == dy * dy,
    ;
    assert(rx * rx + rz * rz == (cp * cp) * (dy * dy)) by (nonlinear_arith)
        requires
            rx == cy * cp,
            rz == -(sy * cp),
            sy * sy + cy * cy == dy * dy,
    ;
    assert((dy * dp) * (dy * dp) == (dy * dy) * (dp * dp)) by (nonlinear_arith);
}

/// The squared length of the raw movement sum, for any yaw pair with
/// `sy² + cy² == dy²`: the cross terms vanish, so it is
/// `(a² + b²) · cp² · dy² + c² · dy² · dp²`.
pub proof fn lemma_combined_move_length(
    a: int,
    b: int,
    c: int,
    sy: int,
    cy: int,
    cp: int,
    dy: int,
    dp: int,
)
    requires
        sy * sy + cy * cy == dy * dy,
    ensures
        dot3(combined_move(a, b, c, sy, cy, cp, dy, dp), combined_move(a, b, c, sy, cy, cp, dy, dp))
            == (a * a + b * b) * ((cp * cp) * (dy * dy)) + (c * c) * ((dy * dy) * (dp * dp)),
{
    lemma_axes_orthogonal(sy, cy, cp, dy, dp);
    lemma_dot_combination(
        a,
        b,
        c,
        forward_axis(sy, cy, cp),
        right_axis(sy, cy, cp),
        up_axis(dy, dp),
    );
    let ff: int = dot3(forward_axis(sy, cy, cp), forward_axis(sy, cy, cp));
    lemma_mul_is_distributive_add_other_way(ff, a * a, b * b);
}

/// While the pitch stays within its clamp the cosine of the pitch is
/// nonzero, so the raw movement sum vanishes only when every
/// coefficient is zero; with any key contributing, its squared length
/// is positive and the engine's normalization is well defined.
pub proof fn lemma_combined_move_nonzero(
    a: int,
    b: int,
    c: int,
    sy: int,
    cy: int,
    cp: int,
    dy: int,
    dp: int,
)
    requires
        sy * sy + cy * cy == dy * dy,
        dy != 0,
        dp != 0,
        cp != 0,
        a != 0 || b != 0 || c != 0,
    ensures
        dot3(combined_move(a, b, c, sy, cy, cp, dy, dp), combined_move(a, b, c, sy, cy, cp, dy, dp))
            > 0,
{
    lemma_combined_move_length(a, b, c, sy, cy, cp, dy, dp);
    assert((a * a + b * b) * ((cp * cp) * (dy * dy)) + (c * c) * ((dy * dy) * (dp * dp)) > 0)
        by (nonlinear_arith)
        requires
            dy != 0,
            dp != 0,
            cp != 0,
            a != 0 || b != 0 || c != 0,
    ;
}

/// A positive squared length cancels: whatever number `q` satisfies
/// `q · w == k² · w` with `w > 0` equals `k²`. Together with
/// `lemma_normalized_step_magnitude` this pins the squared magnitude of
/// the normalized, scaled displacement — the number `q` with
/// `q · |v|² == |k · v|²` — to exactly `k²`.
pub proof fn lemma_positive_length_cancels(q: int, k: int, w: int)
    requires
        w > 0,
        q * w == k * k * w,
    ensures
        q == k * k,
{
    assert(q * w == k * k * w && w > 0 ==> q == k * k) by (nonlinear_arith);
}

/// Normalizing the raw sum and scaling by `k = speed · dt` gives a
/// displacement of squared magnitude exactly `k²`, never `2 k²` for a
/// diagonal: `|v|²` is positive and `|k · v|² == k² · |v|²`, so the
/// number `q` with `q · |v|² == |k · v|²` — the squared magnitude of
/// `k · v / |v|` — equals `k²` by `lemma_positive_length_cancels`.
pub proof fn lemma_normalized_step_magnitude(
    k: int,
    a: int,
    b: int,
    c: int,
    sy: int,
    cy: int,
    cp: int,
    dy: int,
    dp: int,
)
    requires
        sy * sy + cy * cy == dy * dy,
        dy != 0,
        dp != 0,
        cp != 0,
        a != 0 || b != 0 || c != 0,
    ensures
        dot3(combined_move(a, b, c, sy, cy, cp, dy, dp), combined_move(a, b, c, sy, cy, cp, dy, dp))
            > 0,
        dot3(
            scale3(k, combined_move(a, b, c, sy, cy, cp, dy, dp)),
            scale3(k, combined_move(a, b, c, sy, cy, cp, dy, dp)),
        ) == k * k * dot3(
            combined_move(a, b, c, sy, cy, cp, dy, dp),
            combined_move(a, b, c, sy, cy, cp, dy, dp),
        ),
{
    lemma_combined_move_nonzero(a, b, c, sy, cy, cp, dy, dp);
    crate::vec3::lemma_dot_scale(k, combined_move(a, b, c, sy, cy, cp, dy, dp));
}

/// The normalization law on the controller's own movement decision:
/// whenever a tick's intent asks for any movement at all, its raw sum
/// over the camera's axes has positive squared length, and scaling by
/// `k = speed · dt` scales that squared length by exactly `k²` — so
/// the normalized displacement covers `speed · dt`, for two held keys
/// no faster than for one.
pub proof fn lemma_intent_step_magnitude(
    intent: MoveIntent,
    k: int,
    sy: int,
    cy: int,
    cp: int,
    dy: int,
    dp: int,
)
    requires
        sy * sy + cy * cy == dy * dy,
        dy != 0,
        dp != 0,
        cp != 0,
        !intent.is_zero(),
    ensures
        dot3(
            combined_move(
                intent.forward as int,
                intent.right as int,
                intent.up as int,
                sy,
                cy,
                cp,
                dy,
                dp,
            ),
            combined_move(
                intent.forward as int,
                intent.right as int,
                intent.up as int,
                sy,
                cy,
                cp,
                dy,
                dp,
            ),
        ) > 0,
        dot3(
            scale3(
                k,
                combined_move(
                    intent.forward as int,
                    intent.right as int,
                    intent.up as int,
                    sy,
                    cy,
                    cp,
                    dy,
                    dp,
                ),
            ),
            scale3(
                k,
                combined_move(
                    intent.forward as int,
                    intent.right as int,
                    intent.up as int,
                    sy,
                    cy,
                    cp,
                    dy,
                    dp,
                ),
            ),
        ) == k * k * dot3(
            combined_move(
                intent.forward as int,
                intent.right as int,
                intent.up as int,
                sy,
                cy,
                cp,
                dy,
                dp,
            ),
            combined_move(
                intent.forward as int,
                intent.right as int,
                intent.up as int,
                sy,
                cy,
                cp,
                dy,
                dp,
            ),
        ),
{
    lemma_normalized_step_magnitude(
        k,
        intent.forward as int,
        intent.right as int,
        intent.up as int,
        sy,
        cy,
        cp,
        dy,
        dp,
    );
}

} // verus!
