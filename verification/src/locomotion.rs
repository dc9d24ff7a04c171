//! Walking, jumping and friction of a body in its own gravity-relative
//! frame.
//!
//! Each function answers, for one body and one tick, whether a stage acts
//! and with which scalar. The caller applies the answer to its vectors:
//! a stride along the body's axes, an impulse along gravity-up, a damping of
//! the velocity across gravity-up.

use vstd::prelude::*;
use crate::fraction::Fraction;
use crate::gravity::{upright_correction, GravityBound, UprightSettings};

verus! {

/// The direction controls as held during one tick.
#[derive(Clone, Copy, Debug, PartialEq, Eq, Structural)]
pub struct Controls {
    pub forward: bool,
    pub back: bool,
    pub left: bool,
    pub right: bool,
}

/// A wanted direction in the body's own frame: how often its forward axis
/// and its right axis enter the sum. Opposed controls cancel.
#[derive(Clone, Copy, Debug, PartialEq, Eq, Structural)]
pub struct Heading {
    pub forward: i8,
    pub right: i8,
}

impl Heading {
    /// Each axis enters once, once negated, or not at all.
    pub open spec fn wf(self) -> bool {
        &&& -1 <= self.forward <= 1
        &&& -1 <= self.right <= 1
    }

    /// No direction is wanted.
    pub open spec fn is_still(self) -> bool {
        self.forward == 0 && self.right == 0
    }

    /// The wanted direction is exactly opposite to the way the body faces.
    pub open spec fn is_straight_back(self) -> bool {
        self.forward == -1 && self.right == 0
    }
}

impl Controls {
    /// Forward against back, right against left.
    pub open spec fn heading_of(self) -> Heading {
        Heading {
            forward: ((if self.forward { 1int } else { 0 }) - (if self.back { 1int } else { 0 })) as i8,
            right: ((if self.right { 1int } else { 0 }) - (if self.left { 1int } else { 0 })) as i8,
        }
    }

    /// Sums the held controls into a heading.
    pub fn heading(&self) -> (heading: Heading)
        ensures
            heading == self.heading_of(),
            heading.wf(),
            heading.is_still() <==> (self.forward == self.back && self.left == self.right),
    {
        let ahead: i8 = if self.forward { 1 } else { 0 };
        let behind: i8 = if self.back { 1 } else { 0 };
        let rightward: i8 = if self.right { 1 } else { 0 };
        let leftward: i8 = if self.left { 1 } else { 0 };
        Heading { forward: ahead - behind, right: rightward - leftward }
    }
}

/// The constants of locomotion.
#[derive(Clone, Copy, Debug, PartialEq, Eq, Structural)]
pub struct LocomotionSettings {
    /// The speed one tick of full control adds along the heading.
    pub run_speed: Fraction,
    /// The share of the run speed that is left while airborne.
    pub air_control: Fraction,
    /// The share of the velocity across gravity-up that friction removes
    /// per tick on the ground.
    pub friction: Fraction,
    /// The size of the jump impulse along gravity-up.
    pub jump_strength: Fraction,
    /// The share of the way toward facing the heading that one tick turns.
    pub turn_blend: Fraction,
}

impl LocomotionSettings {
    /// The shares are at most one; the speed and the air share are small
    /// enough to be multiplied.
    pub open spec fn wf(self) -> bool {
        &&& self.run_speed.small()
        &&& self.air_control.small()
        &&& self.air_control.proper()
        &&& self.friction.wf()
        &&& self.friction.proper()
        &&& self.jump_strength.wf()
        &&& self.turn_blend.wf()
        &&& self.turn_blend.proper()
    }

    /// Tells whether the settings can be used.
    pub fn is_valid(&self) -> (valid: bool)
        ensures
            valid == self.wf(),
    {
        self.run_speed.is_small() && self.air_control.is_small() && self.air_control.is_share()
            && self.friction.is_share() && self.jump_strength.denominator > 0
            && self.turn_blend.is_share()
    }

    /// Run at 6.4, a fifth of it in the air, two fifths lost to friction,
    /// jump with 16, turn a tenth of the way.
    pub fn recommended() -> (settings: LocomotionSettings)
        ensures
            settings.wf(),
            settings.run_speed == (Fraction { numerator: 32, denominator: 5 }),
            settings.air_control == (Fraction { numerator: 1, denominator: 5 }),
            settings.friction == (Fraction { numerator: 2, denominator: 5 }),
            settings.jump_strength == (Fraction { numerator: 16, denominator: 1 }),
            settings.turn_blend == (Fraction { numerator: 1, denominator: 10 }),
    {
        LocomotionSettings {
            run_speed: Fraction { numerator: 32, denominator: 5 },
            air_control: Fraction { numerator: 1, denominator: 5 },
            friction: Fraction { numerator: 2, denominator: 5 },
            jump_strength: Fraction { numerator: 16, denominator: 1 },
            turn_blend: Fraction { numerator: 1, denominator: 10 },
        }
    }
}

/// Facing is kept only when backing straight up, and that is the only
/// heading near the reverse of the facing: of all headings the controls can
/// give, straight back alone makes an angle of less than 45 degrees with
/// the reversed forward axis. `cos_squared` is the squared cosine of any
/// narrower cone about that axis, so above one half and at most one; a
/// heading lies in the cone when it points backward and the square of its
/// forward part is at least that share of its squared length.
pub proof fn lemma_only_straight_back_is_near_reverse(heading: Heading, cos_squared: Fraction)
    requires
        heading.wf(),
        !heading.is_still(),
        cos_squared.wf(),
        cos_squared.proper(),
        2 * cos_squared.numerator > cos_squared.denominator,
    ensures
        heading.is_straight_back() <==> (heading.forward < 0 && heading.forward * heading.forward
            * cos_squared.denominator >= cos_squared.numerator * (heading.forward
            * heading.forward + heading.right * heading.right)),
{
    let f = heading.forward as int;
    let r = heading.right as int;
    let n = cos_squared.numerator as int;
    let d = cos_squared.denominator as int;
    assert(f * f == if f == 0 { 0int } else { 1int }) by (nonlinear_arith)
        requires
            -1 <= f <= 1,
    ;
    assert(r * r == if r == 0 { 0int } else { 1int }) by (nonlinear_arith)
        requires
            -1 <= r <= 1,
    ;
    assert(n * 1 == n && n * 2 == 2 * n && 1 * d == d && 0 * d == 0) by (nonlinear_arith);
}

/// A body stands on the ground when its downward shape cast hit something
/// that is not a trigger volume. `hit_is_sensor[i]` says whether hit `i` is
/// one.
pub open spec fn on_ground(hit_is_sensor: Seq<bool>) -> bool {
    exists|i: int| 0 <= i < hit_is_sensor.len() && !hit_is_sensor[i]
}

/// Tells whether any of the hits of the downward shape cast is solid.
pub fn touching_ground(hit_is_sensor: &[bool]) -> (grounded: bool)
    ensures
        grounded == on_ground(hit_is_sensor@),
{
    let mut i: usize = 0;
    while i < hit_is_sensor.len()
        invariant
            i <= hit_is_sensor@.len(),
            forall|j: int| 0 <= j < i ==> hit_is_sensor@[j],
        decreases hit_is_sensor@.len() - i,
    {
        if !hit_is_sensor[i] {
            return true;
        }
        i += 1;
    }
    false
}

/// What one tick of walking does to a body.
#[derive(Clone, Copy, Debug, PartialEq, Eq, Structural)]
pub struct Stride {
    /// The wanted direction in the body's frame, to be normalised.
    pub heading: Heading,
    /// The length of the velocity added along that direction.
    pub gain: Fraction,
    /// The share of the way toward facing that direction, about gravity-up,
    /// that the body turns; `None` keeps its facing.
    pub turn: Option<Fraction>,
}

/// The velocity one tick adds: the run speed on the ground, its air-control
/// share otherwise.
pub open spec fn stride_gain(settings: LocomotionSettings, grounded: bool) -> Fraction {
    if grounded {
        settings.run_speed
    } else {
        Fraction::product(settings.run_speed, settings.air_control)
    }
}

/// A body turns toward its heading unless it backs straight up.
pub open spec fn stride_turn(settings: LocomotionSettings, heading: Heading) -> Option<Fraction> {
    if heading.is_straight_back() {
        None
    } else {
        Some(settings.turn_blend)
    }
}

/// A body strides exactly when gravity pulls it and the controls leave a
/// direction.
pub open spec fn movement_plan(
    settings: LocomotionSettings,
    controls: Controls,
    bound: GravityBound,
    grounded: bool,
) -> Option<Stride> {
    let heading = controls.heading_of();
    if bound == GravityBound::Floating || heading.is_still() {
        None
    } else {
        Some(
            Stride {
                heading,
                gain: stride_gain(settings, grounded),
                turn: stride_turn(settings, heading),
            },
        )
    }
}

/// Decides the stride of one body for one tick, or `None` when it takes
/// none: a floating body is not steered at all.
pub fn movement(
    settings: &LocomotionSettings,
    controls: Controls,
    bound: GravityBound,
    grounded: bool,
) -> (plan: Option<Stride>)
    requires
        settings.wf(),
    ensures
        plan == movement_plan(*settings, controls, bound, grounded),
        plan matches Some(stride) ==> {
            &&& stride.heading.wf()
            &&& !stride.heading.is_still()
            &&& stride.gain.wf()
            &&& stride.gain.at_most(settings.run_speed)
            &&& grounded ==> stride.gain == settings.run_speed
            &&& !grounded ==> stride.gain.is_product_of(settings.run_speed, settings.air_control)
        },
{
    let heading = controls.heading();
    if !bound.has_up() || (heading.forward == 0 && heading.right == 0) {
        return None;
    }
    let gain = if grounded {
        settings.run_speed
    } else {
        let reduced = settings.run_speed.times(settings.air_control);
        proof {
            lemma_share_does_not_grow(settings.run_speed, settings.air_control);
        }
        reduced
    };
    let turn = if heading.forward == -1 && heading.right == 0 {
        None
    } else {
        Some(settings.turn_blend)
    };
    Some(Stride { heading, gain, turn })
}

/// Taking a share of at most one of a quantity does not make it larger.
pub proof fn lemma_share_does_not_grow(quantity: Fraction, share: Fraction)
    requires
        quantity.small(),
        share.small(),
        share.proper(),
    ensures
        Fraction::product(quantity, share).at_most(quantity),
{
    let qn = quantity.numerator as int;
    let qd = quantity.denominator as int;
    let sn = share.numerator as int;
    let sd = share.denominator as int;
    crate::fraction::lemma_product_fits(quantity.numerator, share.numerator);
    crate::fraction::lemma_product_fits(quantity.denominator, share.denominator);
    assert((qn * sn) * qd <= qn * (qd * sd)) by (nonlinear_arith)
        requires
            0 <= qn,
            0 <= qd,
            0 <= sn <= sd,
    ;
}

/// A control went from released to pressed between two samples.
pub open spec fn rising_edge(previous: bool, current: bool) -> bool {
    current && !previous
}

/// Remembers whether a control was down at the last sample, to tell a
/// fresh press from a held one. It serves an input layer that reports
/// levels only; one that reports presses itself needs none.
#[derive(Clone, Copy, Debug, PartialEq, Eq, Structural)]
pub struct EdgeTrigger {
    /// The level at the last sample.
    pub down: bool,
}

impl Default for EdgeTrigger {
    /// A control starts released.
    fn default() -> (trigger: EdgeTrigger)
        ensures
            !trigger.down,
    {
        EdgeTrigger { down: false }
    }
}

impl EdgeTrigger {
    /// A trigger for a control that starts released.
    pub fn new() -> (trigger: EdgeTrigger)
        ensures
            !trigger.down,
    {
        EdgeTrigger { down: false }
    }

    /// Takes the level of the control at this sample and tells whether it
    /// was pressed just now.
    pub fn sample(&mut self, down: bool) -> (fired: bool)
        ensures
            fired == rising_edge(old(self).down, down),
            final(self).down == down,
    {
        let fired = down && !self.down;
        self.down = down;
        fired
    }
}

/// A body jumps exactly when gravity pulls it, it stands on the ground and
/// the jump control was pressed on this tick. The impulse has the jump
/// strength and points along gravity-up.
pub open spec fn jump_impulse(
    settings: LocomotionSettings,
    bound: GravityBound,
    grounded: bool,
    just_pressed: bool,
) -> Option<Fraction> {
    if bound == GravityBound::Pulled && grounded && just_pressed {
        Some(settings.jump_strength)
    } else {
        None
    }
}

/// Decides the jump of one body for one tick: the size of the impulse
/// along gravity-up, or `None` for no impulse.
pub fn jump(
    settings: &LocomotionSettings,
    bound: GravityBound,
    grounded: bool,
    just_pressed: bool,
) -> (impulse: Option<Fraction>)
    ensures
        impulse == jump_impulse(*settings, bound, grounded, just_pressed),
{
    if bound.has_up() && grounded && just_pressed {
        Some(settings.jump_strength)
    } else {
        None
    }
}

/// Friction acts on a body that gravity pulls and that stands on the
/// ground. It keeps the velocity along gravity-up and leaves of the
/// velocity across it the share that the friction factor does not take.
pub open spec fn friction_retention(
    settings: LocomotionSettings,
    bound: GravityBound,
    grounded: bool,
) -> Option<Fraction> {
    if bound == GravityBound::Pulled && grounded {
        Some(Fraction::complement_of(settings.friction))
    } else {
        None
    }
}

/// Decides the friction on one body for one tick: the factor by which the
/// velocity across gravity-up is scaled, or `None` to leave the velocity
/// as it is. The velocity along gravity-up is never scaled.
pub fn apply_friction(settings: &LocomotionSettings, bound: GravityBound, grounded: bool) -> (kept:
    Option<Fraction>)
    requires
        settings.wf(),
    ensures
        kept == friction_retention(*settings, bound, grounded),
        kept matches Some(share) ==> {
            &&& share.wf()
            &&& share.proper()
            &&& share.is_complement_of(settings.friction)
        },
{
    if bound.has_up() && grounded {
        Some(settings.friction.complement())
    } else {
        None
    }
}

/// How many impulses a run of ticks yields, given the level of the jump
/// control before the run and at each of its ticks.
pub open spec fn impulses_fired(
    settings: LocomotionSettings,
    bound: GravityBound,
    grounded: bool,
    was_down: bool,
    samples: Seq<bool>,
) -> nat
    decreases samples.len(),
{
    if samples.len() == 0 {
        0
    } else {
        let fired: nat = if jump_impulse(
            settings,
            bound,
            grounded,
            rising_edge(was_down, samples[0]),
        ) is Some {
            1
        } else {
            0
        };
        fired + impulses_fired(settings, bound, grounded, samples[0], samples.skip(1))
    }
}

/// A jump control that was already down and stays down fires nothing.
pub proof fn lemma_held_control_is_silent(
    settings: LocomotionSettings,
    bound: GravityBound,
    grounded: bool,
    samples: Seq<bool>,
)
    requires
        forall|i: int| 0 <= i < samples.len() ==> samples[i],
    ensures
        impulses_fired(settings, bound, grounded, true, samples) == 0,
    decreases samples.len(),
{
    if samples.len() > 0 {
        lemma_held_control_is_silent(settings, bound, grounded, samples.skip(1));
    }
}

/// Jumping is edge-triggered: a grounded, pulled body whose jump control
/// goes down and is then held for any number of ticks gets exactly one
/// impulse, on the first of them.
pub proof fn lemma_held_jump_fires_once(settings: LocomotionSettings, samples: Seq<bool>)
    requires
        samples.len() >= 1,
        forall|i: int| 0 <= i < samples.len() ==> samples[i],
    ensures
        impulses_fired(settings, GravityBound::Pulled, true, false, samples) == 1,
        jump_impulse(settings, GravityBound::Pulled, true, rising_edge(false, samples[0]))
            == Some(settings.jump_strength),
        forall|i: int|
            1 <= i < samples.len() ==> jump_impulse(
                settings,
                GravityBound::Pulled,
                true,
                rising_edge(samples[i - 1], #[trigger] samples[i]),
            ) is None,
{
    lemma_held_control_is_silent(settings, GravityBound::Pulled, true, samples.skip(1));
}

/// Zero gravity passes through: a body that no gravity source overlaps
/// floats, and on a floating body no control adds velocity or turns it, no
/// jump gives an impulse, the corrector leaves the rotation alone and
/// friction leaves the velocity alone, whatever else holds on that tick.
pub proof fn lemma_floating_body_is_left_alone(
    net_force_is_zero: bool,
    walking: LocomotionSettings,
    upright: UprightSettings,
    controls: Controls,
    grounded: bool,
    just_pressed: bool,
    axis_is_zero: bool,
    beyond_threshold: bool,
)
    ensures
        GravityBound::settled(0, net_force_is_zero) == GravityBound::Floating,
        movement_plan(walking, controls, GravityBound::Floating, grounded) is None,
        jump_impulse(walking, GravityBound::Floating, grounded, just_pressed) is None,
        upright_correction(upright, GravityBound::Floating, axis_is_zero, beyond_threshold)
            is None,
        friction_retention(walking, GravityBound::Floating, grounded) is None,
{
}

} // verus!
