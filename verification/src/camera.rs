//! The camera's orientation state and the per-tick look update.
//!
//! Yaw and pitch are the authoritative orientation, kept in whole
//! microradians. Each mouse-motion sample turns the camera by
//! `sensitivity` microradians per device count, and after every sample
//! the pitch is clamped to ±1.54 rad, just under ±π/2, so the view can
//! never flip past vertical.

use vstd::prelude::*;

use crate::input::{InputSnapshot, MouseDelta};
use crate::motion::{move_intent, MoveIntent};

verus! {

/// The pitch clamp bound: 1.54 rad in microradians.
pub const PITCH_LIMIT_MICRORAD: i64 = 1_540_000;

/// The most mouse-motion samples one tick is asked to drain.
pub const MAX_TICK_DELTAS: usize = 0x4000_0000;

/// `p` lies within the pitch clamp.
pub open spec fn pitch_in_range(p: int) -> bool {
    -(PITCH_LIMIT_MICRORAD as int) <= p <= PITCH_LIMIT_MICRORAD as int
}

/// `p` clamped to the pitch bound.
pub open spec fn clamp_pitch(p: int) -> int {
    if p < -(PITCH_LIMIT_MICRORAD as int) {
        -(PITCH_LIMIT_MICRORAD as int)
    } else if p > PITCH_LIMIT_MICRORAD as int {
        PITCH_LIMIT_MICRORAD as int
    } else {
        p
    }
}

/// One sample's effect on the yaw: turn by `sensitivity * dx`
/// microradians while the cursor is locked, otherwise leave it.
pub open spec fn yaw_step(yaw: int, d: MouseDelta, sensitivity: int, locked: bool) -> int {
    if locked {
        yaw - sensitivity * d.dx
    } else {
        yaw
    }
}

/// One sample's effect on the pitch: turn by `sensitivity * dy`
/// microradians while the cursor is locked, then clamp. The clamp is
/// applied per sample, as the update loop does.
pub open spec fn pitch_step(pitch: int, d: MouseDelta, sensitivity: int, locked: bool) -> int {
    clamp_pitch(
        if locked {
            pitch - sensitivity * d.dy
        } else {
            pitch
        },
    )
}

/// The yaw after draining `deltas` in order.
pub open spec fn yaw_after(yaw: int, deltas: Seq<MouseDelta>, sensitivity: int, locked: bool) -> int
    decreases deltas.len(),
{
    if deltas.len() == 0 {
        yaw
    } else {
        yaw_step(yaw_after(yaw, deltas.drop_last(), sensitivity, locked), deltas.last(), sensitivity, locked)
    }
}

/// The pitch after draining `deltas` in order, clamped after each sample.
pub open spec fn pitch_after(pitch: int, deltas: Seq<MouseDelta>, sensitivity: int, locked: bool) -> int
    decreases deltas.len(),
{
    if deltas.len() == 0 {
        pitch
    } else {
        pitch_step(pitch_after(pitch, deltas.drop_last(), sensitivity, locked), deltas.last(), sensitivity, locked)
    }
}

/// However many samples one tick drains and however large each is, the
/// resulting pitch stays within the clamp: a start within the bound
/// stays within it, and any drained sample forces the result within it.
pub proof fn lemma_pitch_always_clamped(pitch: int, deltas: Seq<MouseDelta>, sensitivity: int, locked: bool)
    ensures
        pitch_in_range(pitch) ==> pitch_in_range(pitch_after(pitch, deltas, sensitivity, locked)),
        deltas.len() > 0 ==> pitch_in_range(pitch_after(pitch, deltas, sensitivity, locked)),
    decreases deltas.len(),
{
    if deltas.len() > 0 {
        lemma_pitch_always_clamped(pitch, deltas.drop_last(), sensitivity, locked);
    }
}

/// While the cursor is unlocked, draining any batch of samples leaves
/// the orientation exactly as it was (the pitch must already lie within
/// the clamp, as the controller's invariant guarantees).
pub proof fn lemma_unlocked_drains_without_turning(
    yaw: int,
    pitch: int,
    deltas: Seq<MouseDelta>,
    sensitivity: int,
)
    ensures
        yaw_after(yaw, deltas, sensitivity, false) == yaw,
        pitch_in_range(pitch) ==> pitch_after(pitch, deltas, sensitivity, false) == pitch,
    decreases deltas.len(),
{
    if deltas.len() > 0 {
        lemma_unlocked_drains_without_turning(yaw, pitch, deltas.drop_last(), sensitivity);
    }
}

/// The product of a sensitivity below 2^32 and a device count within
/// i32 stays at least 2^31 away from the i64 bounds, so subtracting it
/// from a clamped pitch cannot leave i64.
proof fn lemma_sens_product_bound(s: int, d: int)
    by (nonlinear_arith)
    requires
        0 <= s < 0x1_0000_0000,
        -0x8000_0000 <= d <= 0x7FFF_FFFF,
    ensures
        -0x7FFF_FFFF_8000_0000 <= s * d <= 0x7FFF_FFFF_8000_0000,
{
}

/// Draining a batch of samples drifts the yaw by less than 2^63 per
/// sample, so a bounded batch keeps the running yaw within i128.
proof fn lemma_yaw_after_drift(yaw: int, deltas: Seq<MouseDelta>, sensitivity: int, locked: bool)
    requires
        0 <= sensitivity < 0x1_0000_0000,
    ensures
        yaw - deltas.len() * 0x8000_0000_0000_0000 <= yaw_after(yaw, deltas, sensitivity, locked)
            <= yaw + deltas.len() * 0x8000_0000_0000_0000,
    decreases deltas.len(),
{
    if deltas.len() > 0 {
        lemma_yaw_after_drift(yaw, deltas.drop_last(), sensitivity, locked);
        lemma_sens_product_bound(sensitivity, deltas.last().dx as int);
    }
}

/// The camera's authoritative orientation: yaw about the world up and
/// pitch about the camera's right, both in microradians. The world
/// position is owned by the engine's transform; the controller only
/// decides how it changes.
#[derive(Clone, Copy, Debug, PartialEq, Eq, Structural)]
pub struct CameraState {
    /// Rotation about the world vertical axis, in microradians.
    pub yaw_microrad: i64,
    /// Rotation about the camera's local right axis, in microradians.
    pub pitch_microrad: i64,
}

impl CameraState {
    /// The yaw as a mathematical integer.
    pub open spec fn yaw(self) -> int {
        self.yaw_microrad as int
    }

    /// The pitch as a mathematical integer.
    pub open spec fn pitch(self) -> int {
        self.pitch_microrad as int
    }

    /// The controller's invariant: the pitch lies within the clamp.
    pub open spec fn wf(self) -> bool {
        pitch_in_range(self.pitch())
    }

    /// A starting orientation. The caller supplies a pitch within the
    /// clamp; the invariant then holds for every state the controller
    /// ever produces.
    pub fn new(yaw_microrad: i64, pitch_microrad: i64) -> (r: CameraState)
        requires
            pitch_in_range(pitch_microrad as int),
        ensures
            r.yaw() == yaw_microrad as int,
            r.pitch() == pitch_microrad as int,
            r.wf(),
    {
        CameraState { yaw_microrad, pitch_microrad }
    }

    /// A level camera looking along its starting yaw.
    pub fn level(yaw_microrad: i64) -> (r: CameraState)
        ensures
            r.yaw() == yaw_microrad as int,
            r.pitch() == 0,
            r.wf(),
    {
        CameraState { yaw_microrad, pitch_microrad: 0 }
    }

    /// Drains one tick's mouse-motion samples in production order and
    /// returns the turned orientation. While the cursor is unlocked the
    /// samples are consumed but the orientation is returned unchanged;
    /// while it is locked, each sample turns the yaw and pitch by
    /// `sensitivity` microradians per device count, and the pitch is
    /// clamped after every sample.
    pub fn apply_look(
        &self,
        deltas: &Vec<MouseDelta>,
        sensitivity: u32,
        cursor_locked: bool,
    ) -> (r: CameraState)
        requires
            self.wf(),
            deltas.len() <= MAX_TICK_DELTAS,
            i64::MIN <= yaw_after(self.yaw(), deltas@, sensitivity as int, cursor_locked)
                <= i64::MAX,
        ensures
            r.yaw() == yaw_after(self.yaw(), deltas@, sensitivity as int, cursor_locked),
            r.pitch() == pitch_after(self.pitch(), deltas@, sensitivity as int, cursor_locked),
            r.wf(),
            !cursor_locked ==> r == *self,
            deltas.len() == 0 ==> r == *self,
    {
        let ghost s: int = sensitivity as int;
        let mut yaw_acc: i128 = self.yaw_microrad as i128;
        let mut pitch_acc: i64 = self.pitch_microrad;
        let mut i: usize = 0;
        while i < deltas.len()
            invariant
                0 <= i <= deltas.len(),
                deltas.len() <= MAX_TICK_DELTAS,
                0 <= s < 0x1_0000_0000,
                s == sensitivity as int,
                yaw_acc as int == yaw_after(self.yaw(), deltas@.take(i as int), s, cursor_locked),
                self.yaw() - (i as int) * 0x8000_0000_0000_0000 <= yaw_acc as int
                    <= self.yaw() + (i as int) * 0x8000_0000_0000_0000,
                pitch_acc as int == pitch_after(self.pitch(), deltas@.take(i as int), s, cursor_locked),
                pitch_in_range(pitch_acc as int),
                self.wf(),
            decreases deltas.len() - i,
        {
            let d = deltas[i];
            proof {
                assert(deltas@.take(i as int + 1).drop_last() =~= deltas@.take(i as int));
                assert(deltas@.take(i as int + 1).last() == deltas@[i as int]);
                lemma_sens_product_bound(s, d.dx as int);
                lemma_sens_product_bound(s, d.dy as int);
            }
            if cursor_locked {
                yaw_acc = yaw_acc - (sensitivity as i128) * (d.dx as i128);
                let turn: i64 = (sensitivity as i64) * (d.dy as i64);
                let raw: i64 = pitch_acc - turn;
                pitch_acc = if raw < -PITCH_LIMIT_MICRORAD {
                    -PITCH_LIMIT_MICRORAD
                } else if raw > PITCH_LIMIT_MICRORAD {
                    PITCH_LIMIT_MICRORAD
                } else {
                    raw
                };
            } else {
                // The sample is drained but, with the pitch already
                // within the clamp, the orientation does not move.
            }
            i = i + 1;
        }
        proof {
            assert(deltas@.take(deltas@.len() as int) =~= deltas@);
            if !cursor_locked {
                lemma_unlocked_drains_without_turning(self.yaw(), self.pitch(), deltas@, s);
            }
        }
        CameraState { yaw_microrad: yaw_acc as i64, pitch_microrad: pitch_acc }
    }

    /// Runs one simulation tick: drains the tick's mouse samples into a
    /// turned, clamp-respecting orientation, decides the movement
    /// coefficients from the held keys, and fixes the step length
    /// `move_speed · dt`. The caller writes the result into the
    /// engine's transform: the orientation as the yaw-outside-pitch
    /// rotation, the movement as the normalized coefficient sum scaled
    /// by the step length.
    pub fn on_tick(
        &self,
        input: &InputSnapshot,
        deltas: &Vec<MouseDelta>,
        sensitivity: u32,
        move_speed_micro: u32,
        dt_micro: u32,
    ) -> (r: TickOutcome)
        requires
            self.wf(),
            deltas.len() <= MAX_TICK_DELTAS,
            i64::MIN <= yaw_after(self.yaw(), deltas@, sensitivity as int, input.cursor_locked)
                <= i64::MAX,
        ensures
            r.state.yaw() == yaw_after(self.yaw(), deltas@, sensitivity as int, input.cursor_locked),
            r.state.pitch() == pitch_after(
                self.pitch(),
                deltas@,
                sensitivity as int,
                input.cursor_locked,
            ),
            r.state.wf(),
            r.intent.decides(*input),
            0 <= r.intent.norm_sq <= 3,
            r.intent.is_zero() <==> r.intent.norm_sq == 0,
            r.step_length_pico == (move_speed_micro as int) * (dt_micro as int),
            !input.cursor_locked ==> r.state == *self && r.intent.is_zero(),
            deltas.len() == 0 && input.no_movement_keys() ==> r.state == *self
                && r.intent.is_zero(),
    {
        let state = self.apply_look(deltas, sensitivity, input.cursor_locked);
        let intent = move_intent(input);
        proof {
            assert((move_speed_micro as int) * (dt_micro as int) <= 0xFFFF_FFFF * 0xFFFF_FFFF)
                by (nonlinear_arith)
                requires
                    0 <= move_speed_micro as int <= 0xFFFF_FFFF,
                    0 <= dt_micro as int <= 0xFFFF_FFFF,
            ;
        }
        let step_length_pico: u64 = (move_speed_micro as u64) * (dt_micro as u64);
        TickOutcome { state, intent, step_length_pico }
    }
}

/// What one tick decides. The orientation is final; the movement is
/// handed back as exact data for the engine's floating-point step: the
/// normalized coefficient sum, scaled by the step length, is the
/// translation to apply.
#[derive(Clone, Copy, Debug, PartialEq, Eq, Structural)]
pub struct TickOutcome {
    /// The turned orientation after draining the tick's samples.
    pub state: CameraState,
    /// The movement decision from the held keys.
    pub intent: MoveIntent,
    /// `move_speed · dt` in pico-units: with speed in micro-units per
    /// second and `dt` in microseconds, their product is the tick's
    /// displacement magnitude in units of 10⁻¹².
    pub step_length_pico: u64,
}

} // verus!
