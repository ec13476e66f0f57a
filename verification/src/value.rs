//! Scores as a protocol front-end reports them: a forced mate being
//! delivered (sooner is better), a forced mate being suffered (later
//! is better), or a plain centipawn judgement in between.

use vstd::prelude::*;

verus! {

/// A reportable score: delivering mate in `n`, suffering mate in `n`,
/// or a centipawn evaluation.
#[derive(Clone, Copy, PartialEq, Eq, Structural, Debug)]
pub enum OutStyleScore {
    MatingIn(i8),
    MatedIn(i8),
    Centipawn(i8),
}

/// The total order on scores: every mate being delivered beats every
/// other score, and a sooner mate beats a later one; every mate being
/// suffered loses to every other score, and a later mate beats a
/// sooner one; centipawn scores sit in between, ordered by value.
pub open spec fn score_order(a: OutStyleScore, b: OutStyleScore) -> core::cmp::Ordering {
    match a {
        OutStyleScore::MatingIn(n) => match b {
            OutStyleScore::MatingIn(k) => int_order(k as int, n as int),
            _ => core::cmp::Ordering::Greater,
        },
        OutStyleScore::MatedIn(n) => match b {
            OutStyleScore::MatedIn(k) => int_order(n as int, k as int),
            _ => core::cmp::Ordering::Less,
        },
        OutStyleScore::Centipawn(n) => match b {
            OutStyleScore::MatingIn(_) => core::cmp::Ordering::Less,
            OutStyleScore::MatedIn(_) => core::cmp::Ordering::Greater,
            OutStyleScore::Centipawn(k) => int_order(n as int, k as int),
        },
    }
}

/// The order of two integers.
pub open spec fn int_order(a: int, b: int) -> core::cmp::Ordering {
    if a < b {
        core::cmp::Ordering::Less
    } else if a == b {
        core::cmp::Ordering::Equal
    } else {
        core::cmp::Ordering::Greater
    }
}

impl OutStyleScore {
    /// Compare two scores under the total order.
    pub fn cmp(&self, other: &OutStyleScore) -> (r: core::cmp::Ordering)
        ensures
            r == score_order(*self, *other),
    {
        match *self {
            OutStyleScore::MatingIn(n) => {
                match *other {
                    OutStyleScore::MatingIn(k) => int_compare(k, n),
                    _ => core::cmp::Ordering::Greater,
                }
            },
            OutStyleScore::MatedIn(n) => {
                match *other {
                    OutStyleScore::MatedIn(k) => int_compare(n, k),
                    _ => core::cmp::Ordering::Less,
                }
            },
            OutStyleScore::Centipawn(n) => {
                match *other {
                    OutStyleScore::MatingIn(_) => core::cmp::Ordering::Less,
                    OutStyleScore::MatedIn(_) => core::cmp::Ordering::Greater,
                    OutStyleScore::Centipawn(k) => int_compare(n, k),
                }
            },
        }
    }
}

impl PartialOrd for OutStyleScore {
    fn partial_cmp(&self, other: &OutStyleScore) -> (r: Option<core::cmp::Ordering>) {
        Some(self.cmp(other))
    }
}

impl vstd::std_specs::cmp::PartialOrdSpecImpl for OutStyleScore {
    open spec fn obeys_partial_cmp_spec() -> bool {
        true
    }

    open spec fn partial_cmp_spec(&self, other: &OutStyleScore) -> Option<core::cmp::Ordering> {
        Some(score_order(*self, *other))
    }
}

/// Compare two machine integers.
fn int_compare(a: i8, b: i8) -> (r: core::cmp::Ordering)
    ensures
        r == int_order(a as int, b as int),
{
    if a < b {
        core::cmp::Ordering::Less
    } else if a == b {
        core::cmp::Ordering::Equal
    } else {
        core::cmp::Ordering::Greater
    }
}

} // verus!
