//! The saved records, in the order in which they were saved.

use crate::probe::{Probe, ProbeView};
use vstd::prelude::*;

verus! {

/// All saved records. The order of saving is the order of display.
#[derive(Debug)]
pub struct Database {
    pub probes: Vec<Probe>,
}

impl View for Database {
    type V = Seq<ProbeView>;

    open spec fn view(&self) -> Seq<ProbeView> {
        Seq::new(self.probes@.len(), |i: int| self.probes@[i]@)
    }
}

impl Database {
    /// A database without records.
    pub fn new() -> (r: Self)
        ensures
            r@ == Seq::<ProbeView>::empty(),
    {
        let r = Database { probes: Vec::new() };
        assert(r@ =~= Seq::<ProbeView>::empty());
        r
    }

    /// The number of records.
    pub fn len(&self) -> (r: usize)
        ensures
            r == self@.len(),
    {
        self.probes.len()
    }

    /// The record at a position, if there is one.
    pub fn get(&self, index: usize) -> (r: Option<&Probe>)
        ensures
            index < self@.len() ==> r is Some && r->Some_0@ == self@[index as int],
            index >= self@.len() ==> r is None,
    {
        if index < self.probes.len() {
            Some(&self.probes[index])
        } else {
            None
        }
    }

    /// Appends a record behind all others.
    pub fn push(&mut self, probe: Probe)
        ensures
            final(self)@ == old(self)@.push(probe@),
    {
        self.probes.push(probe);
        assert(self@ =~= old(self)@.push(probe@));
    }

    /// Removes every record.
    pub fn clear(&mut self)
        ensures
            final(self)@ == Seq::<ProbeView>::empty(),
    {
        self.probes.clear();
        assert(self@ =~= Seq::<ProbeView>::empty());
    }
}

} // verus!
