//! The vocabulary of a brightness change: its direction, its kind and the
//! pause between the writes of a sweep.

use vstd::prelude::*;

verus! {

/// The direction in which the brightness moves: `Inc` raises it, `Dec` lowers it.
#[derive(Clone, Copy, Debug, PartialEq, Eq, Structural, PartialOrd, Ord)]
pub enum Direction {
    Inc,
    Dec,
}

/// How a change is applied: `Regular` writes the new value at once, `Sweep`
/// reaches it in small steps.
#[derive(Clone, Copy, Debug, PartialEq, Eq, Structural, PartialOrd, Ord)]
pub enum Change {
    Regular,
    Sweep,
}

impl Default for Change {
    fn default() -> (r: Change)
        ensures
            r == Change::Regular,
    {
        Change::Regular
    }
}

/// The pause between two writes of a sweep, held as whole seconds and the
/// nanoseconds beyond them.
#[derive(Clone, Copy, Debug, PartialEq, Eq, Structural)]
pub struct Delay {
    secs: u64,
    subsec_nanos: u32,
}

impl Delay {
    /// The pause in milliseconds, as a number.
    pub open spec fn millis(self) -> nat {
        (self.spec_secs() * 1000 + self.spec_subsec_nanos() / 1_000_000) as nat
    }

    pub closed spec fn spec_secs(&self) -> u64 {
        self.secs
    }

    pub closed spec fn spec_subsec_nanos(&self) -> u32 {
        self.subsec_nanos
    }

    /// A delay of `millis` milliseconds.
    pub fn from_millis(millis: u64) -> (r: Delay)
        ensures
            r.spec_secs() == millis / 1000,
            r.spec_subsec_nanos() == (millis % 1000) * 1_000_000,
            r.millis() == millis,
    {
        let rest: u32 = (millis % 1000) as u32;
        Delay { secs: millis / 1000, subsec_nanos: rest * 1_000_000 }
    }

    /// The whole seconds of the pause.
    #[verifier::when_used_as_spec(spec_secs)]
    pub fn secs(&self) -> (r: u64)
        ensures
            r == self.spec_secs(),
    {
        self.secs
    }

    /// The nanoseconds of the pause beyond its whole seconds.
    #[verifier::when_used_as_spec(spec_subsec_nanos)]
    pub fn subsec_nanos(&self) -> (r: u32)
        ensures
            r == self.spec_subsec_nanos(),
    {
        self.subsec_nanos
    }
}

impl Default for Delay {
    /// The recommended pause for a smooth transition: 25 milliseconds.
    fn default() -> (r: Delay)
        ensures
            r.millis() == 25,
            r.spec_secs() == 0,
            r.spec_subsec_nanos() == 25_000_000,
    {
        Delay::from_millis(25)
    }
}

} // verus!
