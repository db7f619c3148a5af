//! Parameter smoothing for anti-zipper and natural decay.
//!
//! Provides configurable attack/release filtering to prevent harsh
//! transitions, and sentinel-aware decay for inputs that can go missing.
use vstd::prelude::*;

verus! {

use vstd::arithmetic::mul::lemma_mul_inequality;
use vstd::arithmetic::div_mod::{lemma_div_is_ordered, lemma_multiply_divide_lt};
use crate::fixed::{
    UNIT,
    spec_abs,
    spec_clamp,
    spec_mul_unit,
    spec_lerp_toward,
    lemma_mul_unit_bounds,
    lemma_lerp_toward_bounds,
    clamp_i64,
    lerp_toward,
    mul_unit,
    abs_i64,
};

/// The smallest accepted smoothing coefficient (`0.001`).
pub const MIN_COEFF: i64 = 1_000;

/// A value this close to its target counts as settled (`0.001`).
pub const SETTLE_EPS: i64 = 1_000;

/// Smoothed parameter with configurable attack/release.
///
/// A single-pole filter whose time constant depends on the direction of
/// travel: rising values use `attack`, falling values use `release`.
#[derive(Debug, Clone, Copy, PartialEq, Eq, Structural)]
pub struct SmoothedParam {
    /// Current smoothed value in `[0, 1]` micro-units.
    pub current: i64,
    /// Target value in `[0, 1]` micro-units.
    pub target: i64,
    /// Attack coefficient in `[0.001, 1]` micro-units (higher = faster).
    pub attack: i64,
    /// Release coefficient in `[0.001, 1]` micro-units (higher = faster).
    pub release: i64,
}

impl SmoothedParam {
    /// Value and target are on the unit scale, coefficients in their band.
    pub open spec fn wf(self) -> bool {
        &&& 0 <= self.current <= UNIT
        &&& 0 <= self.target <= UNIT
        &&& MIN_COEFF <= self.attack <= UNIT
        &&& MIN_COEFF <= self.release <= UNIT
    }

    /// The value after one smoothing step.
    pub open spec fn spec_step(self) -> int {
        spec_lerp_toward(
            self.current as int,
            self.target as int,
            if self.target > self.current {
                self.attack as int
            } else {
                self.release as int
            },
        )
    }

    /// The whole parameter after one smoothing step.
    pub open spec fn stepped(self) -> SmoothedParam {
        SmoothedParam { current: self.spec_step() as i64, ..self }
    }

    /// The parameter after `n` smoothing steps.
    pub open spec fn stepped_n(self, n: nat) -> SmoothedParam
        decreases n,
    {
        if n == 0 {
            self
        } else {
            self.stepped().stepped_n((n - 1) as nat)
        }
    }

    /// Create a new smoothed parameter with the default coefficients,
    /// biased toward a slow attack and an even slower release.
    pub fn new(initial: i64) -> (r: SmoothedParam)
        requires
            0 <= initial <= UNIT,
        ensures
            r == (SmoothedParam {
                current: initial,
                target: initial,
                attack: 50_000i64,
                release: 20_000i64,
            }),
            r.wf(),
    {
        SmoothedParam { current: initial, target: initial, attack: 50_000, release: 20_000 }
    }

    /// Create with custom attack/release coefficients, each clamped into
    /// `[0.001, 1]`.
    pub fn with_coefficients(initial: i64, attack: i64, release: i64) -> (r: SmoothedParam)
        requires
            0 <= initial <= UNIT,
        ensures
            r == (SmoothedParam {
                current: initial,
                target: initial,
                attack: spec_clamp(attack as int, MIN_COEFF as int, UNIT as int) as i64,
                release: spec_clamp(release as int, MIN_COEFF as int, UNIT as int) as i64,
            }),
            r.wf(),
    {
        SmoothedParam {
            current: initial,
            target: initial,
            attack: clamp_i64(attack, MIN_COEFF, UNIT),
            release: clamp_i64(release, MIN_COEFF, UNIT),
        }
    }

    /// Set the target value.
    pub fn set_target(&mut self, target: i64)
        requires
            0 <= target <= UNIT,
        ensures
            *final(self) == (SmoothedParam { target, ..*old(self) }),
    {
        self.target = target;
    }

    /// Get the current smoothed value.
    pub fn value(&self) -> (v: i64)
        ensures
            v == self.current,
    {
        self.current
    }

    /// Get the target value.
    pub fn target(&self) -> (t: i64)
        ensures
            t == self.target,
    {
        self.target
    }

    /// Update the smoothed value (call once per frame).
    pub fn update(&mut self)
        requires
            old(self).wf(),
        ensures
            *final(self) == old(self).stepped(),
            final(self).wf(),
    {
        proof {
            lemma_lerp_toward_bounds(
                self.current as int,
                self.target as int,
                if self.target > self.current {
                    self.attack as int
                } else {
                    self.release as int
                },
            );
        }
        let coeff = if self.target > self.current {
            self.attack
        } else {
            self.release
        };
        self.current = lerp_toward(self.current, self.target, coeff);
    }

    /// Check whether the value has effectively reached its target.
    pub fn is_settled(&self) -> (r: bool)
        requires
            self.wf(),
        ensures
            r == (spec_abs(self.current - self.target) < SETTLE_EPS),
    {
        abs_i64(self.current - self.target) < SETTLE_EPS
    }

    /// Set the attack coefficient, clamped into `[0.001, 1]`.
    pub fn set_attack(&mut self, attack: i64)
        ensures
            *final(self) == (SmoothedParam {
                attack: spec_clamp(attack as int, MIN_COEFF as int, UNIT as int) as i64,
                ..*old(self)
            }),
    {
        self.attack = clamp_i64(attack, MIN_COEFF, UNIT);
    }

    /// Set the release coefficient, clamped into `[0.001, 1]`.
    pub fn set_release(&mut self, release: i64)
        ensures
            *final(self) == (SmoothedParam {
                release: spec_clamp(release as int, MIN_COEFF as int, UNIT as int) as i64,
                ..*old(self)
            }),
    {
        self.release = clamp_i64(release, MIN_COEFF, UNIT);
    }
}

impl Default for SmoothedParam {
    /// A parameter resting at zero with the default coefficients.
    fn default() -> (r: Self)
        ensures
            r == (SmoothedParam {
                current: 0i64,
                target: 0i64,
                attack: 50_000i64,
                release: 20_000i64,
            }),
            r.wf(),
    {
        SmoothedParam::new(0)
    }
}

/// Convergence law for one step: with the target held fixed, a smoothing
/// step never overshoots and never moves away from the target, and while
/// the value is not settled it strictly approaches the target.
pub proof fn lemma_smoothing_step_converges(p: SmoothedParam)
    requires
        p.wf(),
    ensures
        p.stepped().wf(),
        p.stepped().target == p.target,
        p.current <= p.target ==> p.current <= p.stepped().current <= p.target,
        p.current >= p.target ==> p.target <= p.stepped().current <= p.current,
        spec_abs(p.stepped().current - p.target) <= spec_abs(p.current - p.target),
        spec_abs(p.current - p.target) >= SETTLE_EPS ==> spec_abs(p.stepped().current - p.target)
            < spec_abs(p.current - p.target),
{
    let coeff: int = if p.target > p.current {
        p.attack as int
    } else {
        p.release as int
    };
    lemma_lerp_toward_bounds(p.current as int, p.target as int, coeff);
    let diff = spec_abs(p.current - p.target);
    if diff >= SETTLE_EPS {
        let step = spec_mul_unit(diff, coeff);
        assert(diff * coeff >= SETTLE_EPS * MIN_COEFF) by {
            lemma_mul_inequality(SETTLE_EPS as int, diff, coeff);
            lemma_mul_inequality(MIN_COEFF as int, coeff, SETTLE_EPS as int);
            assert(SETTLE_EPS * coeff == coeff * SETTLE_EPS) by (nonlinear_arith);
            assert(MIN_COEFF * SETTLE_EPS == SETTLE_EPS * MIN_COEFF) by (nonlinear_arith);
        }
        assert(step >= 1) by {
            lemma_div_is_ordered(UNIT as int, diff * coeff, UNIT as int);
        }
    }
}

/// Convergence law over many steps: with the target held fixed, the distance
/// to the target never grows, and it falls below the settling threshold
/// after at most `n` steps when `n` is at least the starting distance.
pub proof fn lemma_smoothing_converges(p: SmoothedParam, n: nat)
    requires
        p.wf(),
    ensures
        p.stepped_n(n).wf(),
        p.stepped_n(n).target == p.target,
        p.stepped_n(n).attack == p.attack,
        p.stepped_n(n).release == p.release,
        spec_abs(p.stepped_n(n).current - p.target) <= spec_abs(p.current - p.target),
        spec_abs(p.stepped_n(n).current - p.target) < SETTLE_EPS || spec_abs(
            p.stepped_n(n).current - p.target,
        ) <= spec_abs(p.current - p.target) - n,
    decreases n,
{
    if n > 0 {
        lemma_smoothing_step_converges(p);
        lemma_smoothing_converges(p.stepped(), (n - 1) as nat);
    }
}

/// Smoother for all eight musical parameters.
///
/// All eight share one attack/release profile: the bulk setters keep the
/// coefficients uniform.
#[derive(Debug, Clone, Copy, PartialEq, Eq, Structural)]
pub struct ParamSmoother {
    pub master: SmoothedParam,
    pub warmth: SmoothedParam,
    pub brightness: SmoothedParam,
    pub width: SmoothedParam,
    pub motion: SmoothedParam,
    pub reverb: SmoothedParam,
    pub density: SmoothedParam,
    pub tension: SmoothedParam,
}

impl ParamSmoother {
    /// Every parameter is well formed and the profile is uniform.
    pub open spec fn wf(self) -> bool {
        &&& self.master.wf()
        &&& self.warmth.wf()
        &&& self.brightness.wf()
        &&& self.width.wf()
        &&& self.motion.wf()
        &&& self.reverb.wf()
        &&& self.density.wf()
        &&& self.tension.wf()
        &&& self.warmth.attack == self.master.attack
        &&& self.brightness.attack == self.master.attack
        &&& self.width.attack == self.master.attack
        &&& self.motion.attack == self.master.attack
        &&& self.reverb.attack == self.master.attack
        &&& self.density.attack == self.master.attack
        &&& self.tension.attack == self.master.attack
        &&& self.warmth.release == self.master.release
        &&& self.brightness.release == self.master.release
        &&& self.width.release == self.master.release
        &&& self.motion.release == self.master.release
        &&& self.reverb.release == self.master.release
        &&& self.density.release == self.master.release
        &&& self.tension.release == self.master.release
    }

    /// The smoother after one step of every parameter.
    pub open spec fn stepped(self) -> ParamSmoother {
        ParamSmoother {
            master: self.master.stepped(),
            warmth: self.warmth.stepped(),
            brightness: self.brightness.stepped(),
            width: self.width.stepped(),
            motion: self.motion.stepped(),
            reverb: self.reverb.stepped(),
            density: self.density.stepped(),
            tension: self.tension.stepped(),
        }
    }

    /// The smoother with every parameter's coefficients replaced.
    pub open spec fn with_profile(self, attack: i64, release: i64) -> ParamSmoother {
        ParamSmoother {
            master: SmoothedParam { attack, release, ..self.master },
            warmth: SmoothedParam { attack, release, ..self.warmth },
            brightness: SmoothedParam { attack, release, ..self.brightness },
            width: SmoothedParam { attack, release, ..self.width },
            motion: SmoothedParam { attack, release, ..self.motion },
            reverb: SmoothedParam { attack, release, ..self.reverb },
            density: SmoothedParam { attack, release, ..self.density },
            tension: SmoothedParam { attack, release, ..self.tension },
        }
    }

    /// The eight current values, read as a parameter bundle.
    pub open spec fn spec_values(self) -> crate::types::MusicParams {
        crate::types::MusicParams {
            master: self.master.current,
            warmth: self.warmth.current,
            brightness: self.brightness.current,
            width: self.width.current,
            motion: self.motion.current,
            reverb: self.reverb.current,
            density: self.density.current,
            tension: self.tension.current,
        }
    }

    /// Create a new smoother with every parameter resting at its baseline
    /// for an idle, centered frame.
    pub fn new() -> (r: ParamSmoother)
        ensures
            r == spec_initial_smoother(),
            r.wf(),
    {
        ParamSmoother {
            master: SmoothedParam::new(550_000),
            warmth: SmoothedParam::new(300_000),
            brightness: SmoothedParam::new(500_000),
            width: SmoothedParam::new(0),
            motion: SmoothedParam::new(0),
            reverb: SmoothedParam::new(200_000),
            density: SmoothedParam::new(0),
            tension: SmoothedParam::new(0),
        }
    }

    /// Update all smoothed parameters one step.
    pub fn update(&mut self)
        requires
            old(self).wf(),
        ensures
            *final(self) == old(self).stepped(),
            final(self).wf(),
    {
        self.master.update();
        self.warmth.update();
        self.brightness.update();
        self.width.update();
        self.motion.update();
        self.reverb.update();
        self.density.update();
        self.tension.update();
    }

    /// Apply the reduced-motion profile: slower attack and release for all
    /// eight parameters.
    pub fn apply_reduced_motion(&mut self)
        requires
            old(self).wf(),
        ensures
            *final(self) == old(self).with_profile(20_000i64, 10_000i64),
            final(self).wf(),
    {
        self.master.set_attack(20_000);
        self.master.set_release(10_000);
        self.warmth.set_attack(20_000);
        self.warmth.set_release(10_000);
        self.brightness.set_attack(20_000);
        self.brightness.set_release(10_000);
        self.width.set_attack(20_000);
        self.width.set_release(10_000);
        self.motion.set_attack(20_000);
        self.motion.set_release(10_000);
        self.reverb.set_attack(20_000);
        self.reverb.set_release(10_000);
        self.density.set_attack(20_000);
        self.density.set_release(10_000);
        self.tension.set_attack(20_000);
        self.tension.set_release(10_000);
    }

    /// Apply the normal smoothing profile.
    pub fn apply_normal_motion(&mut self)
        requires
            old(self).wf(),
        ensures
            *final(self) == old(self).with_profile(50_000i64, 20_000i64),
            final(self).wf(),
    {
        self.master.set_attack(50_000);
        self.master.set_release(20_000);
        self.warmth.set_attack(50_000);
        self.warmth.set_release(20_000);
        self.brightness.set_attack(50_000);
        self.brightness.set_release(20_000);
        self.width.set_attack(50_000);
        self.width.set_release(20_000);
        self.motion.set_attack(50_000);
        self.motion.set_release(20_000);
        self.reverb.set_attack(50_000);
        self.reverb.set_release(20_000);
        self.density.set_attack(50_000);
        self.density.set_release(20_000);
        self.tension.set_attack(50_000);
        self.tension.set_release(20_000);
    }

    /// The shared attack coefficient (for diagnostics).
    pub fn attack(&self) -> (a: i64)
        ensures
            a == self.master.attack,
    {
        self.master.attack
    }

    /// The shared release coefficient (for diagnostics).
    pub fn release(&self) -> (r: i64)
        ensures
            r == self.master.release,
    {
        self.master.release
    }
}

/// The smoother an engine starts with: each parameter at its idle baseline,
/// normal profile.
pub open spec fn spec_initial_smoother() -> ParamSmoother {
    ParamSmoother {
        master: SmoothedParam {
            current: 550_000i64,
            target: 550_000i64,
            attack: 50_000i64,
            release: 20_000i64,
        },
        warmth: SmoothedParam {
            current: 300_000i64,
            target: 300_000i64,
            attack: 50_000i64,
            release: 20_000i64,
        },
        brightness: SmoothedParam {
            current: 500_000i64,
            target: 500_000i64,
            attack: 50_000i64,
            release: 20_000i64,
        },
        width: SmoothedParam { current: 0i64, target: 0i64, attack: 50_000i64, release: 20_000i64 },
        motion: SmoothedParam {
            current: 0i64,
            target: 0i64,
            attack: 50_000i64,
            release: 20_000i64,
        },
        reverb: SmoothedParam {
            current: 200_000i64,
            target: 200_000i64,
            attack: 50_000i64,
            release: 20_000i64,
        },
        density: SmoothedParam {
            current: 0i64,
            target: 0i64,
            attack: 50_000i64,
            release: 20_000i64,
        },
        tension: SmoothedParam {
            current: 0i64,
            target: 0i64,
            attack: 50_000i64,
            release: 20_000i64,
        },
    }
}

/// State tracker for values that should decay when no input is received.
#[derive(Debug, Clone, Copy, PartialEq, Eq, Structural)]
pub struct DecayingValue {
    /// Current value in `[0, 1]` micro-units.
    pub current: i64,
    /// Decay rate per sentinel update, in `[0, 1]` micro-units.
    pub decay_rate: i64,
    /// Last known valid value (for sentinel handling).
    pub last_valid: i64,
}

impl DecayingValue {
    /// All three fields are on the unit scale.
    pub open spec fn wf(self) -> bool {
        &&& 0 <= self.current <= UNIT
        &&& 0 <= self.decay_rate <= UNIT
        &&& 0 <= self.last_valid <= UNIT
    }

    /// The current value after one sentinel decay step.
    pub open spec fn spec_decayed(self) -> int {
        spec_mul_unit(self.current as int, UNIT - self.decay_rate)
    }

    /// Create a new decaying value; the rate is clamped into `[0, 1]`.
    pub fn new(initial: i64, decay_rate: i64) -> (r: DecayingValue)
        requires
            0 <= initial <= UNIT,
        ensures
            r == (DecayingValue {
                current: initial,
                decay_rate: spec_clamp(decay_rate as int, 0, UNIT as int) as i64,
                last_valid: initial,
            }),
            r.wf(),
    {
        DecayingValue {
            current: initial,
            decay_rate: clamp_i64(decay_rate, 0, UNIT),
            last_valid: initial,
        }
    }

    /// Update with a new value. A negative value is the "no data" sentinel:
    /// the current value decays toward zero and `last_valid` is untouched.
    pub fn update(&mut self, value: i64)
        requires
            old(self).wf(),
            value <= UNIT,
        ensures
            *final(self) == spec_decay_update(*old(self), value),
            value < 0 ==> *final(self) == (DecayingValue {
                current: old(self).spec_decayed() as i64,
                ..*old(self)
            }),
            value >= 0 ==> *final(self) == (DecayingValue {
                current: value,
                last_valid: value,
                ..*old(self)
            }),
            final(self).wf(),
    {
        if value < 0 {
            proof {
                lemma_mul_unit_bounds(self.current as int, UNIT - self.decay_rate);
            }
            self.current = mul_unit(self.current, UNIT - self.decay_rate);
        } else {
            self.current = value;
            self.last_valid = value;
        }
    }

    /// Get the current value.
    pub fn value(&self) -> (v: i64)
        ensures
            v == self.current,
    {
        self.current
    }

    /// Get the last known valid value.
    pub fn last_valid(&self) -> (v: i64)
        ensures
            v == self.last_valid,
    {
        self.last_valid
    }
}

/// The whole tracker after an update with `value`.
pub open spec fn spec_decay_update(d: DecayingValue, value: i64) -> DecayingValue {
    if value < 0 {
        DecayingValue { current: d.spec_decayed() as i64, ..d }
    } else {
        DecayingValue { current: value, last_valid: value, ..d }
    }
}

/// Sentinel decay law: one sentinel step keeps the value on the unit scale,
/// strictly shrinks any positive value (for a positive decay rate), and
/// holds zero at zero. That `last_valid` is untouched is part of `update`'s
/// contract.
pub proof fn lemma_sentinel_decay(d: DecayingValue)
    requires
        d.wf(),
        d.decay_rate >= 1,
    ensures
        0 <= d.spec_decayed() <= d.current,
        d.current >= 1 ==> d.spec_decayed() < d.current,
        d.current == 0 ==> d.spec_decayed() == 0,
{
    lemma_mul_unit_bounds(d.current as int, UNIT - d.decay_rate);
    if d.current >= 1 {
        assert(d.current * (UNIT - d.decay_rate) < UNIT * d.current) by (nonlinear_arith)
            requires
                d.current >= 1,
                d.decay_rate >= 1,
                d.decay_rate <= UNIT,
        ;
        lemma_multiply_divide_lt(
            d.current * (UNIT - d.decay_rate),
            UNIT as int,
            d.current as int,
        );
    }
}

} // verus!
