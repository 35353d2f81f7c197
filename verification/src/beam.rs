//! The draft of a refraction-angle calculation.

use crate::binary64::Binary64;
use vstd::prelude::*;

verus! {

/// A refraction calculation being edited. It is never saved.
#[derive(Debug)]
pub struct BeamAngle {
    /// Smaller incidence angle, in degrees.
    pub incidence_min: Binary64,
    /// Refraction angle for the smaller incidence angle.
    pub refraction_min: Binary64,
    /// Larger incidence angle, in degrees.
    pub incidence_max: Binary64,
    /// Refraction angle for the larger incidence angle.
    pub refraction_max: Binary64,
    /// Smaller refraction angle in steel.
    pub refraction_steel_min: Binary64,
    /// Larger refraction angle in steel.
    pub refraction_steel_max: Binary64,
    /// Sound velocity in steel, in m/s.
    pub velocity_steel: Binary64,
    /// Sound velocity where the beam arrives, in m/s.
    pub velocity_incidence: Binary64,
    /// Sound velocity where the beam continues, in m/s.
    pub velocity_medium: Binary64,
    /// The outcome of the last calculation, in words.
    pub result: String,
}

/// What a refraction draft holds, with its text as a sequence of characters.
pub struct BeamAngleView {
    pub incidence_min: Binary64,
    pub refraction_min: Binary64,
    pub incidence_max: Binary64,
    pub refraction_max: Binary64,
    pub refraction_steel_min: Binary64,
    pub refraction_steel_max: Binary64,
    pub velocity_steel: Binary64,
    pub velocity_incidence: Binary64,
    pub velocity_medium: Binary64,
    pub result: Seq<char>,
}

impl BeamAngleView {
    /// The draft of a form that was just opened: every quantity positive
    /// zero, no text.
    pub open spec fn empty() -> BeamAngleView {
        BeamAngleView {
            incidence_min: Binary64 { bits: 0 },
            refraction_min: Binary64 { bits: 0 },
            incidence_max: Binary64 { bits: 0 },
            refraction_max: Binary64 { bits: 0 },
            refraction_steel_min: Binary64 { bits: 0 },
            refraction_steel_max: Binary64 { bits: 0 },
            velocity_steel: Binary64 { bits: 0 },
            velocity_incidence: Binary64 { bits: 0 },
            velocity_medium: Binary64 { bits: 0 },
            result: Seq::empty(),
        }
    }
}

impl View for BeamAngle {
    type V = BeamAngleView;

    open spec fn view(&self) -> BeamAngleView {
        BeamAngleView {
            incidence_min: self.incidence_min,
            refraction_min: self.refraction_min,
            incidence_max: self.incidence_max,
            refraction_max: self.refraction_max,
            refraction_steel_min: self.refraction_steel_min,
            refraction_steel_max: self.refraction_steel_max,
            velocity_steel: self.velocity_steel,
            velocity_incidence: self.velocity_incidence,
            velocity_medium: self.velocity_medium,
            result: self.result@,
        }
    }
}

impl Clone for BeamAngle {
    fn clone(&self) -> (r: Self)
        ensures
            r@ == self@,
    {
        BeamAngle {
            incidence_min: self.incidence_min,
            refraction_min: self.refraction_min,
            incidence_max: self.incidence_max,
            refraction_max: self.refraction_max,
            refraction_steel_min: self.refraction_steel_min,
            refraction_steel_max: self.refraction_steel_max,
            velocity_steel: self.velocity_steel,
            velocity_incidence: self.velocity_incidence,
            velocity_medium: self.velocity_medium,
            result: self.result.clone(),
        }
    }
}

impl BeamAngle {
    /// The empty draft.
    pub fn empty() -> (r: Self)
        ensures
            r@ == BeamAngleView::empty(),
    {
        BeamAngle {
            incidence_min: Binary64::zero(),
            refraction_min: Binary64::zero(),
            incidence_max: Binary64::zero(),
            refraction_max: Binary64::zero(),
            refraction_steel_min: Binary64::zero(),
            refraction_steel_max: Binary64::zero(),
            velocity_steel: Binary64::zero(),
            velocity_incidence: Binary64::zero(),
            velocity_medium: Binary64::zero(),
            result: String::new(),
        }
    }

    /// Tests whether the draft is the empty one.
    pub fn is_empty(&self) -> (r: bool)
        ensures
            r == (self@ == BeamAngleView::empty()),
    {
        let r = self.incidence_min.bits == 0 && self.refraction_min.bits == 0
            && self.incidence_max.bits == 0 && self.refraction_max.bits == 0
            && self.refraction_steel_min.bits == 0 && self.refraction_steel_max.bits == 0
            && self.velocity_steel.bits == 0 && self.velocity_incidence.bits == 0
            && self.velocity_medium.bits == 0 && self.result.as_str().is_empty();
        proof {
            if r {
                assert(self@.result =~= Seq::<char>::empty());
            }
        }
        r
    }
}

} // verus!
