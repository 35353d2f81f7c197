//! A probe record: the inputs of one wavelength and pitch calculation, its
//! results and its description.

use crate::binary64::Binary64;
use vstd::prelude::*;

verus! {

/// One calculation, saved or still being edited.
#[derive(Debug)]
pub struct Probe {
    /// Free text: what the user typed, or the outcome of the last calculation.
    pub description: String,
    /// Frequency in MHz; zero while unset.
    pub frequency: Binary64,
    /// Sound velocity in m/s; zero while unset.
    pub velocity: Binary64,
    /// Wavelength in mm; zero until computed.
    pub lambda: Binary64,
    /// Minimum pitch in mm; zero until computed.
    pub pitch: Binary64,
}

/// What a probe record holds, with its text as a sequence of characters.
pub struct ProbeView {
    pub description: Seq<char>,
    pub frequency: Binary64,
    pub velocity: Binary64,
    pub lambda: Binary64,
    pub pitch: Binary64,
}

impl ProbeView {
    /// The record of a form that was just opened: no text, every quantity
    /// positive zero.
    pub open spec fn empty() -> ProbeView {
        ProbeView {
            description: Seq::empty(),
            frequency: Binary64 { bits: 0 },
            velocity: Binary64 { bits: 0 },
            lambda: Binary64 { bits: 0 },
            pitch: Binary64 { bits: 0 },
        }
    }

    /// Whether a calculation can run: neither input compares equal to zero.
    pub open spec fn computable(self) -> bool {
        !self.frequency.is_zero() && !self.velocity.is_zero()
    }
}

impl View for Probe {
    type V = ProbeView;

    open spec fn view(&self) -> ProbeView {
        ProbeView {
            description: self.description@,
            frequency: self.frequency,
            velocity: self.velocity,
            lambda: self.lambda,
            pitch: self.pitch,
        }
    }
}

impl Clone for Probe {
    fn clone(&self) -> (r: Self)
        ensures
            r@ == self@,
    {
        Probe {
            description: self.description.clone(),
            frequency: self.frequency,
            velocity: self.velocity,
            lambda: self.lambda,
            pitch: self.pitch,
        }
    }
}

impl Probe {
    /// The empty record.
    pub fn empty() -> (r: Self)
        ensures
            r@ == ProbeView::empty(),
    {
        Probe {
            description: String::new(),
            frequency: Binary64::zero(),
            velocity: Binary64::zero(),
            lambda: Binary64::zero(),
            pitch: Binary64::zero(),
        }
    }

    /// Tests whether the record is the empty one.
    pub fn is_empty(&self) -> (r: bool)
        ensures
            r == (self@ == ProbeView::empty()),
    {
        let r = self.description.as_str().is_empty() && self.frequency.bits == 0
            && self.velocity.bits == 0 && self.lambda.bits == 0 && self.pitch.bits == 0;
        proof {
            if r {
                assert(self@.description =~= Seq::<char>::empty());
            }
        }
        r
    }

    /// Tests whether a calculation can run on the record.
    pub fn computable(&self) -> (r: bool)
        ensures
            r == self@.computable(),
    {
        !self.frequency.equals_zero() && !self.velocity.equals_zero()
    }
}

} // verus!
