use vstd::prelude::*;
use crate::selection::{is_nearest, lemma_force_iff_counted, num_present};

verus! {

/// Counts of the obstacles in a scenario: those that lie clear of the
/// vehicle's feeler volume (insignificant) and those that intersect it
/// (significant).
#[derive(Clone, Copy, Debug, PartialEq, Eq, Structural)]
pub struct Obstacles {
    pub total: u32,
    pub insignificant: u32,
    pub significant: u32,
}

/// How a scenario places its obstacles: `count` of them, all inside the
/// feeler volume when `significant` holds and all clear of it otherwise.
#[derive(Clone, Copy, Debug, PartialEq, Eq, Structural)]
pub struct Placement {
    pub count: u32,
    pub significant: bool,
}

impl Obstacles {
    /// The total is the sum of the two kinds.
    pub open spec fn wf(self) -> bool {
        self.total == self.insignificant + self.significant
    }

    /// The placement that a scenario generator uses for these counts: a
    /// scenario holds obstacles of one kind only.
    pub open spec fn placement_spec(self) -> Option<Placement> {
        if self.significant == 0 {
            Some(Placement { count: self.insignificant, significant: false })
        } else if self.insignificant == 0 {
            Some(Placement { count: self.significant, significant: true })
        } else {
            None
        }
    }

    /// A scenario with `interactions` feeler interactions, which produced an
    /// avoidance force exactly when `has_avoidance`, is what these counts
    /// describe: every significant obstacle interacts, and a force comes
    /// exactly when one does.
    pub open spec fn met_by(self, interactions: u32, has_avoidance: bool) -> bool {
        interactions == self.significant && has_avoidance == (self.significant > 0)
    }

    /// Returns the counts for `insignificant` and `significant` obstacles.
    pub fn new(insignificant: u32, significant: u32) -> (r: Obstacles)
        requires
            insignificant + significant <= u32::MAX,
        ensures
            r.insignificant == insignificant,
            r.significant == significant,
            r.total == insignificant + significant,
            r.wf(),
    {
        Obstacles { total: insignificant + significant, insignificant, significant }
    }

    /// Returns the number of insignificant and of significant obstacles.
    pub fn details(&self) -> (r: (u32, u32))
        ensures
            r == (self.insignificant, self.significant),
    {
        (self.insignificant, self.significant)
    }

    /// Returns how a scenario with these counts places its obstacles, or
    /// `None` where it would need obstacles of both kinds.
    pub fn placement(&self) -> (r: Option<Placement>)
        ensures
            r == self.placement_spec(),
    {
        match self.details() {
            (count, 0) => Some(Placement { count, significant: false }),
            (0, count) => Some(Placement { count, significant: true }),
            _ => None,
        }
    }

    /// Tells whether a scenario's outcome agrees with these counts.
    pub fn is_met_by(&self, interactions: u32, has_avoidance: bool) -> (r: bool)
        ensures
            r == self.met_by(interactions, has_avoidance),
    {
        if interactions != self.significant {
            return false;
        }
        let significance = self.significant > 0;
        !((has_avoidance && !significance) || (!has_avoidance && significance))
    }
}

/// A scenario in which exactly the significant obstacles interact with the
/// feelers meets its obstacle counts: the avoidance force, present exactly
/// when some interaction is counted, is present exactly when significant
/// obstacles are.
pub proof fn lemma_counted_scenario_meets(obstacles: Obstacles, keys: Seq<Option<u64>>)
    requires
        num_present(keys) == obstacles.significant,
    ensures
        obstacles.met_by(obstacles.significant, exists|i: int| is_nearest(keys, i)),
{
    lemma_force_iff_counted(keys);
}

} // verus!
