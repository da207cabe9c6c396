//! The rotation angle owned by the capture loop.
//!
//! The angle is a degree value in `[0, 360)`, advanced once per produced frame
//! by a fixed step and wrapped to zero as soon as it reaches a full turn. It
//! is held in tenths of a degree, which represents the fixed step of 3.0
//! degrees exactly.

use vstd::prelude::*;
use vstd::arithmetic::div_mod::{lemma_add_mod_noop, lemma_mod_adds, lemma_mod_self_0, lemma_small_mod};

verus! {

/// Tenths of a degree in a full turn.
pub const FULL_TURN_TENTHS: u32 = 3600;

/// The fixed per-frame step, in tenths of a degree: 3.0 degrees.
pub const STEP_TENTHS: u32 = 30;

/// One advance of the wrap rule: add the step, and reset to zero as soon as
/// a full turn is reached or passed.
pub open spec fn advanced(tenths: int, step: int) -> int {
    if tenths + step >= FULL_TURN_TENTHS as int {
        0
    } else {
        tenths + step
    }
}

/// The angle after `n` advances by `step`, starting from zero.
pub open spec fn angle_after(n: nat, step: int) -> int
    decreases n,
{
    if n == 0 {
        0
    } else {
        advanced(angle_after((n - 1) as nat, step), step)
    }
}

/// The rotation angle, in tenths of a degree, always below a full turn.
pub struct RotationAngle {
    tenths: u32,
}

impl RotationAngle {
    /// The angle as tenths of a degree.
    pub closed spec fn view(&self) -> int {
        self.tenths as int
    }

    /// The angle is a degree value in `[0, 360)`.
    pub closed spec fn wf(&self) -> bool {
        self.tenths < FULL_TURN_TENTHS
    }

    /// A fresh angle of zero degrees.
    pub fn new() -> (a: Self)
        ensures
            a.wf(),
            a@ == 0,
    {
        RotationAngle { tenths: 0 }
    }

    /// The current value, in tenths of a degree.
    pub fn tenths(&self) -> (t: u32)
        ensures
            t == self@,
    {
        self.tenths
    }

    /// Advance by `step` tenths of a degree, wrapping to zero as soon as a
    /// full turn is reached or passed.
    pub fn advance(&mut self, step: u32)
        requires
            old(self).wf(),
        ensures
            final(self).wf(),
            final(self)@ == advanced(old(self)@, step as int),
    {
        if step >= FULL_TURN_TENTHS - self.tenths {
            self.tenths = 0;
        } else {
            self.tenths = self.tenths + step;
        }
    }
}

/// Every angle reached from zero by the wrap rule stays in `[0, 360)`.
pub proof fn lemma_angle_in_range(n: nat, step: int)
    requires
        0 <= step,
    ensures
        0 <= angle_after(n, step) < FULL_TURN_TENTHS as int,
    decreases n,
{
    if n > 0 {
        lemma_angle_in_range((n - 1) as nat, step);
    }
}

/// When the step divides a full turn, the threshold reset is exact modular
/// arithmetic: after `n` advances from zero the angle equals
/// `(n * step) % 3600` tenths of a degree. The fixed step of 3.0 degrees
/// divides a full turn, so this holds of the capture loop as built.
pub proof fn lemma_angle_is_modular(n: nat, step: int)
    requires
        0 < step <= FULL_TURN_TENTHS as int,
        FULL_TURN_TENTHS as int % step == 0,
    ensures
        angle_after(n, step) == (n * step) % (FULL_TURN_TENTHS as int),
    decreases n,
{
    let full = FULL_TURN_TENTHS as int;
    if n == 0 {
        assert(0int * step == 0) by (nonlinear_arith);
        lemma_small_mod(0nat, full as nat);
    } else {
        let m = (n - 1) as nat;
        lemma_angle_is_modular(m, step);
        lemma_angle_divisible(m, step);
        let a = angle_after(m, step);
        lemma_angle_in_range(m, step);
        assert((m + 1) * step == m * step + step) by (nonlinear_arith);
        lemma_add_mod_noop(m * step, step, full);
        if step < full {
            lemma_small_mod(step as nat, full as nat);
            if a + step >= full {
                // `a` is a multiple of the step below a full turn, so the sum
                // can reach the threshold only exactly.
                assert(a + step == full);
                lemma_mod_self_0(full);
            } else {
                lemma_small_mod((a + step) as nat, full as nat);
            }
        } else {
            // The step is a whole turn: the angle stays at zero and every
            // multiple of the step vanishes modulo a full turn.
            lemma_mod_self_0(full);
            assert(a == 0);
            lemma_small_mod(0nat, full as nat);
        }
    }
}

/// The shipped step of 3.0 degrees divides a full turn, so for the capture
/// loop as built the angle after `n` produced frames is exactly
/// `(n * step) mod 3600` tenths of a degree.
pub proof fn lemma_fixed_step_is_modular(n: nat)
    ensures
        angle_after(n, STEP_TENTHS as int) == (n * (STEP_TENTHS as int)) % (
        FULL_TURN_TENTHS as int),
{
    lemma_angle_is_modular(n, STEP_TENTHS as int);
}

/// Helper: every angle reached from zero is a multiple of the step.
proof fn lemma_angle_divisible(n: nat, step: int)
    requires
        0 < step <= FULL_TURN_TENTHS as int,
        FULL_TURN_TENTHS as int % step == 0,
    ensures
        angle_after(n, step) % step == 0,
        angle_after(n, step) + step <= FULL_TURN_TENTHS as int,
    decreases n,
{
    let full = FULL_TURN_TENTHS as int;
    if n == 0 {
        lemma_small_mod(0nat, step as nat);
    } else {
        let m = (n - 1) as nat;
        lemma_angle_divisible(m, step);
        let a = angle_after(m, step);
        lemma_angle_in_range(m, step);
        if a + step >= full {
            lemma_small_mod(0nat, step as nat);
        } else {
            lemma_mod_adds(a, step, step);
            lemma_mod_self_0(step);
            lemma_small_mod(0nat, step as nat);
            // A multiple of `step` strictly below `full` is at most
            // `full - step`, because `full` is a multiple of `step` too.
            lemma_multiple_below(a + step, step, full);
        }
    }
}

/// Helper: a nonnegative multiple of `step` strictly below a multiple `full`
/// of `step` is at most `full - step`.
proof fn lemma_multiple_below(x: int, step: int, full: int)
    requires
        0 < step,
        0 <= x < full,
        x % step == 0,
        full % step == 0,
    ensures
        x + step <= full,
{
    let q = x / step;
    let r = full / step;
    assert(x == q * step) by {
        vstd::arithmetic::div_mod::lemma_fundamental_div_mod(x, step);
    }
    assert(full == r * step) by {
        vstd::arithmetic::div_mod::lemma_fundamental_div_mod(full, step);
    }
    assert(q < r) by (nonlinear_arith)
        requires
            q * step < r * step,
            0 < step,
    ;
    assert((q + 1) * step <= r * step) by (nonlinear_arith)
        requires
            q + 1 <= r,
            0 < step,
    ;
    assert((q + 1) * step == q * step + step) by (nonlinear_arith);
}

} // verus!
