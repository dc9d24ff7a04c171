//! Which bodies gravity acts on, what the rest of a tick may know of the
//! net force, and the gates of the upright correction.
//!
//! The vectors themselves are the caller's: this module decides, from facts
//! the caller has measured, whether a stage acts and with which scalar.

use vstd::prelude::*;
use crate::fraction::Fraction;

verus! {

/// How the physics backend moves a rigid body.
#[derive(Clone, Copy, Debug, PartialEq, Eq, Structural)]
pub enum BodyKind {
    /// Moved by forces and contacts.
    Dynamic,
    /// Never moves.
    Static,
    /// Moved by the game only.
    Kinematic,
}

/// Gravity acts on dynamic bodies that are not themselves trigger volumes.
pub open spec fn gravity_applies(kind: BodyKind, sensor: bool) -> bool {
    kind == BodyKind::Dynamic && !sensor
}

/// Tells whether the accumulator has to visit a body at all.
pub fn receives_gravity(kind: BodyKind, sensor: bool) -> (applies: bool)
    ensures
        applies == gravity_applies(kind, sensor),
{
    match kind {
        BodyKind::Dynamic => !sensor,
        BodyKind::Static => false,
        BodyKind::Kinematic => false,
    }
}

/// What the later stages of a tick know of the net gravity force on a body:
/// whether it is the zero vector. It is settled anew each tick.
#[derive(Clone, Copy, Debug, PartialEq, Eq, Structural)]
pub enum GravityBound {
    /// The net force is the zero vector: the body has no "up".
    Floating,
    /// The net force is not zero: "up" is the direction against it.
    Pulled,
}

impl GravityBound {
    /// A body that no source reaches floats, whatever the caller measured;
    /// one that sources reach floats when their forces cancel.
    pub open spec fn settled(sources: usize, net_force_is_zero: bool) -> GravityBound {
        if sources == 0 || net_force_is_zero {
            GravityBound::Floating
        } else {
            GravityBound::Pulled
        }
    }

    /// Settles the state for this tick from the number of overlapping
    /// sources and from whether their summed force came out as zero.
    pub fn settle(sources: usize, net_force_is_zero: bool) -> (bound: GravityBound)
        ensures
            bound == GravityBound::settled(sources, net_force_is_zero),
    {
        if sources == 0 || net_force_is_zero {
            GravityBound::Floating
        } else {
            GravityBound::Pulled
        }
    }

    /// Whether there is a gravity-up direction to work with.
    pub fn has_up(&self) -> (pulled: bool)
        ensures
            pulled == (*self == GravityBound::Pulled),
    {
        match self {
            GravityBound::Floating => false,
            GravityBound::Pulled => true,
        }
    }
}

impl Default for GravityBound {
    /// Before the first tick nothing pulls.
    fn default() -> (bound: GravityBound)
        ensures
            bound == GravityBound::Floating,
    {
        GravityBound::Floating
    }
}

/// The constants of the force rules.
#[derive(Clone, Copy, Debug, PartialEq, Eq, Structural)]
pub struct GravitySettings {
    /// The least distance a point source divides by.
    pub min_distance: Fraction,
    /// How many refinement steps the closest-point search may take.
    pub search_steps: u32,
    /// The search stops early once the point found is this close.
    pub search_tolerance: Fraction,
    /// The curve parameter the search starts from, within `0..=1`.
    pub search_start: Fraction,
}

impl GravitySettings {
    /// The minimum distance is positive, so that no force divides by zero,
    /// and the search starts on the curve.
    pub open spec fn wf(self) -> bool {
        &&& self.min_distance.wf()
        &&& !self.min_distance.is_zero()
        &&& self.search_tolerance.wf()
        &&& self.search_start.wf()
        &&& self.search_start.proper()
    }

    /// Tells whether the settings can be used.
    pub fn is_valid(&self) -> (valid: bool)
        ensures
            valid == self.wf(),
    {
        self.min_distance.denominator > 0 && self.min_distance.numerator > 0
            && self.search_tolerance.denominator > 0 && self.search_start.is_share()
    }

    /// A thousandth of a unit, ten steps, a millionth, the middle of the curve.
    pub fn recommended() -> (settings: GravitySettings)
        ensures
            settings.wf(),
            settings.min_distance == (Fraction { numerator: 1, denominator: 1000 }),
            settings.search_steps == 10,
            settings.search_tolerance == (Fraction { numerator: 1, denominator: 1000000 }),
            settings.search_start == (Fraction { numerator: 1, denominator: 2 }),
    {
        GravitySettings {
            min_distance: Fraction { numerator: 1, denominator: 1000 },
            search_steps: 10,
            search_tolerance: Fraction { numerator: 1, denominator: 1000000 },
            search_start: Fraction { numerator: 1, denominator: 2 },
        }
    }
}

/// The closest-point search refines once more while it has steps left and
/// has not come within tolerance.
pub open spec fn search_goes_on(settings: GravitySettings, steps_taken: u32, converged: bool)
    -> bool {
    steps_taken < settings.search_steps && !converged
}

/// Decides, after `steps_taken` refinements, whether the closest-point
/// search on a curve takes another.
pub fn search_continues(settings: &GravitySettings, steps_taken: u32, converged: bool) -> (go: bool)
    ensures
        go == search_goes_on(*settings, steps_taken, converged),
{
    steps_taken < settings.search_steps && !converged
}

/// The constants of the upright correction.
#[derive(Clone, Copy, Debug, PartialEq, Eq, Structural)]
pub struct UprightSettings {
    /// Beyond this angle, in degrees, between body-up and gravity-up the
    /// corrector leaves the body alone.
    pub threshold_degrees: Fraction,
    /// The share of the remaining angle that one tick takes away.
    pub blend: Fraction,
}

impl UprightSettings {
    /// The threshold is an angle between two directions; the blend moves
    /// toward the target and never past it.
    pub open spec fn wf(self) -> bool {
        &&& self.threshold_degrees.wf()
        &&& self.threshold_degrees.at_most(Fraction { numerator: 180, denominator: 1 })
        &&& self.blend.wf()
        &&& !self.blend.is_zero()
        &&& self.blend.proper()
    }

    /// Tells whether the settings can be used.
    pub fn is_valid(&self) -> (valid: bool)
        ensures
            valid == self.wf(),
    {
        let half_turns: u128 = 180 * (self.threshold_degrees.denominator as u128);
        self.threshold_degrees.denominator > 0 && (self.threshold_degrees.numerator as u128)
            <= half_turns && self.blend.numerator > 0 && self.blend.is_share()
    }

    /// Sixty degrees, three tenths of the way per tick.
    pub fn recommended() -> (settings: UprightSettings)
        ensures
            settings.wf(),
            settings.threshold_degrees == (Fraction { numerator: 60, denominator: 1 }),
            settings.blend == (Fraction { numerator: 3, denominator: 10 }),
    {
        UprightSettings {
            threshold_degrees: Fraction { numerator: 60, denominator: 1 },
            blend: Fraction { numerator: 3, denominator: 10 },
        }
    }
}

/// The corrector turns a body exactly when gravity pulls it, its up axis is
/// neither along nor against gravity-up, and the angle between the two is
/// within the threshold. It then turns by the blend.
pub open spec fn upright_correction(
    settings: UprightSettings,
    bound: GravityBound,
    axis_is_zero: bool,
    beyond_threshold: bool,
) -> Option<Fraction> {
    if bound == GravityBound::Pulled && !axis_is_zero && !beyond_threshold {
        Some(settings.blend)
    } else {
        None
    }
}

/// Decides the upright correction of one body for one tick.
///
/// `axis_is_zero` says that the cross product of body-up and gravity-up is
/// the zero vector; `beyond_threshold` says that the angle between them
/// exceeds `settings.threshold_degrees`. Both are read only for a pulled
/// body. The result is the share of the way from the current rotation to
/// the aligned one that this tick covers, or `None` to leave the rotation
/// as it is.
pub fn keep_upright(
    settings: &UprightSettings,
    bound: GravityBound,
    axis_is_zero: bool,
    beyond_threshold: bool,
) -> (correction: Option<Fraction>)
    requires
        settings.wf(),
    ensures
        correction == upright_correction(*settings, bound, axis_is_zero, beyond_threshold),
        correction matches Some(share) ==> share.wf() && !share.is_zero() && share.proper(),
{
    match bound {
        GravityBound::Floating => None,
        GravityBound::Pulled => {
            if axis_is_zero || beyond_threshold {
                None
            } else {
                Some(settings.blend)
            }
        },
    }
}

/// One correction takes some of the angle between body-up and gravity-up
/// and never more than all of it: what it leaves is a share of the angle
/// that is below one.
pub proof fn lemma_correction_leaves_less(settings: UprightSettings)
    requires
        settings.wf(),
    ensures
        Fraction::complement_of(settings.blend).is_complement_of(settings.blend),
        Fraction::complement_of(settings.blend).proper(),
        !Fraction::complement_of(settings.blend).same_number(
            Fraction { numerator: 1, denominator: 1 },
        ),
{
    crate::fraction::lemma_complement_adds_to_one(settings.blend);
}

} // verus!
