use vstd::prelude::*;
use crate::obstacles::Obstacles;

verus! {

/// Raised when a segment's two endpoints coincide, so that its direction and
/// normal are undefined.
#[derive(Clone, Copy, Debug, PartialEq, Eq, Structural)]
pub struct Degenerate;

/// Arrangements of a vehicle's feelers.
#[derive(Clone, Copy, Debug, PartialEq, Eq, Structural)]
pub enum FeelerShape {
    Spear,
    Fork,
    Trident,
}

/// Positions a feeler can take on a vehicle: angled off to the left, straight
/// ahead, or angled off to the right.
#[derive(Clone, Copy, Debug, PartialEq, Eq, Structural)]
pub enum FeelerSlot {
    Left,
    Centre,
    Right,
}

impl FeelerShape {
    /// The feelers of the arrangement, from left to right.
    pub open spec fn slots_spec(self) -> Seq<FeelerSlot> {
        match self {
            FeelerShape::Spear => seq![FeelerSlot::Centre],
            FeelerShape::Fork => seq![FeelerSlot::Left, FeelerSlot::Right],
            FeelerShape::Trident => seq![FeelerSlot::Left, FeelerSlot::Centre, FeelerSlot::Right],
        }
    }

    /// Returns the feelers of the arrangement, from left to right.
    pub fn slots(&self) -> (r: Vec<FeelerSlot>)
        ensures
            r@ == self.slots_spec(),
    {
        let mut r: Vec<FeelerSlot> = Vec::new();
        match self {
            FeelerShape::Spear => r.push(FeelerSlot::Centre),
            FeelerShape::Fork => {
                r.push(FeelerSlot::Left);
                r.push(FeelerSlot::Right);
            },
            FeelerShape::Trident => {
                r.push(FeelerSlot::Left);
                r.push(FeelerSlot::Centre);
                r.push(FeelerSlot::Right);
            },
        }
        r
    }
}

/// In a wall scenario each feeler of `shape` has one wall placed near it, and
/// every feeler is tested against every wall. When `crossing`, each wall
/// crosses its own feeler, so one pair per feeler interacts; otherwise every
/// wall lies beyond the tips and no pair interacts.
pub open spec fn wall_layout(obstacles: Obstacles, shape: FeelerShape, crossing: bool) -> bool {
    let k = shape.slots_spec().len();
    if crossing {
        obstacles.insignificant == k * k - k && obstacles.significant == k
    } else {
        obstacles.insignificant == k * k && obstacles.significant == 0
    }
}

/// Number of feeler-wall pairs of each arrangement.
proof fn lemma_pair_count(shape: FeelerShape)
    ensures
        shape.slots_spec().len() * shape.slots_spec().len() == match shape {
            FeelerShape::Spear => 1int,
            FeelerShape::Fork => 4int,
            FeelerShape::Trident => 9int,
        },
{
    let k = shape.slots_spec().len();
    match shape {
        FeelerShape::Spear => assert(k == 1),
        FeelerShape::Fork => assert(k == 2),
        FeelerShape::Trident => assert(k == 3),
    }
    assert(k * k == k as int * k as int);
}

/// Returns the feeler arrangement and wall placement of a wall scenario with
/// the given counts of feeler-wall pairs, or `None` where no arrangement
/// yields those counts.
pub fn wall_scenario_layout(obstacles: &Obstacles) -> (r: Option<(FeelerShape, bool)>)
    ensures
        forall|shape: FeelerShape, crossing: bool|
            #[trigger] wall_layout(*obstacles, shape, crossing) <==> r == Some((shape, crossing)),
{
    let (insignificant, significant) = obstacles.details();
    let r = if insignificant == 1 && significant == 0 {
        Some((FeelerShape::Spear, false))
    } else if insignificant == 4 && significant == 0 {
        Some((FeelerShape::Fork, false))
    } else if insignificant == 9 && significant == 0 {
        Some((FeelerShape::Trident, false))
    } else if insignificant == 0 && significant == 1 {
        Some((FeelerShape::Spear, true))
    } else if insignificant == 2 && significant == 2 {
        Some((FeelerShape::Fork, true))
    } else if insignificant == 6 && significant == 3 {
        Some((FeelerShape::Trident, true))
    } else {
        None
    };
    proof {
        assert forall|shape: FeelerShape, crossing: bool|
            r == Some((shape, crossing)) implies #[trigger] wall_layout(*obstacles, shape, crossing) by {
            lemma_pair_count(shape);
        }
        assert forall|shape: FeelerShape, crossing: bool|
            #[trigger] wall_layout(*obstacles, shape, crossing) implies r == Some((shape, crossing)) by {
            lemma_pair_count(shape);
        }
    }
    r
}

} // verus!
