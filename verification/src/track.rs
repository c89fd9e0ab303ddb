//! The course: its pieces, where they lie, and the rails that they put up.

use vstd::prelude::*;
use crate::fixed::{Fixed, HALF};
use crate::vector::Vector3;
use crate::matrices::{Matrix4, ModelMatrix};
use crate::collider::{Collider, ColliderView};
use crate::track_side::{TrackSegmentSideType, TrackSide};
use crate::utils::FacingDirection;

verus! {

/// Raw count of the height of the road above the ground.
pub const TRACK_ELEVATION: i64 = 30_000_000_000;

/// Raw count of the height of the platform under the road.
pub const TRACK_BOX_HEIGHT: i64 = 5_000_000_000;

/// Raw count of the width of the road.
pub const TRACK_WIDTH: i64 = 20_000_000_000;

/// Raw count of the nominal length of a corner piece.
pub const CORNER_LENGTH: i64 = 20_000_000_000;

/// Where the rails of a piece at `position` stand: half a unit above the
/// road.
pub open spec fn spec_rail_position(position: Vector3) -> Vector3 {
    position.plus(
        Vector3::new(
            Fixed::from_raw(0),
            Fixed::from_raw(TRACK_ELEVATION).plus(Fixed::from_raw(HALF)),
            Fixed::from_raw(0),
        ),
    )
}

/// Where the rails of a piece at `position` stand.
#[verifier::when_used_as_spec(spec_rail_position)]
pub fn rail_position(position: Vector3) -> (r: Vector3)
    ensures
        r == spec_rail_position(position),
{
    position.plus(
        Vector3::new(
            Fixed::from_raw(0),
            Fixed::from_raw(TRACK_ELEVATION).plus(Fixed::from_raw(HALF)),
            Fixed::from_raw(0),
        ),
    )
}

/// The turn about the vertical of a straight piece that runs in the given
/// direction.
pub open spec fn heading(direction: FacingDirection) -> Fixed {
    match direction {
        FacingDirection::North => Fixed::from_raw(0),
        FacingDirection::West => Fixed::from_int(90).to_radians(),
    }
}

/// A straight piece of track.
pub struct TrackStraightSegment {
    pub position: Vector3,
    pub direction: FacingDirection,
    pub length: Fixed,
    pub sides: TrackSide,
}

/// A corner to the right.
pub struct TrackRightCornerSegment {
    pub position: Vector3,
    pub sides: TrackSide,
}

/// A turn back.
pub struct TrackUCornerSegment {
    pub position: Vector3,
    pub rotation: Fixed,
    pub sides: TrackSide,
}

/// A piece of track.
pub enum TrackSegment {
    Straight(TrackStraightSegment),
    RightCorner(TrackRightCornerSegment),
    UCorner(TrackUCornerSegment),
}

/// A piece of track before it is built: its shape and where it lies.
#[derive(Clone, Copy, Debug, PartialEq, Eq, Structural)]
pub enum SegmentPlan {
    /// A straight piece about `position`, of the given length.
    Straight { position: Vector3, direction: FacingDirection, length: Fixed },
    /// A corner to the right at `position`.
    RightCorner { position: Vector3 },
    /// A turn back at `position`, turned by `rotation` about the vertical.
    UCorner { position: Vector3, rotation: Fixed },
}

impl SegmentPlan {
    /// The walls that the piece puts up under the transform `base`.
    pub open spec fn walls(self, base: Matrix4) -> Seq<Collider> {
        match self {
            SegmentPlan::Straight { position, direction, length } => TrackSide::walls(
                base,
                rail_position(position),
                heading(direction),
                length,
                TrackSegmentSideType::Straight,
            ),
            SegmentPlan::RightCorner { position } => TrackSide::walls(
                base,
                rail_position(position),
                Fixed::from_raw(0),
                Fixed::from_raw(CORNER_LENGTH),
                TrackSegmentSideType::RightCorner,
            ),
            SegmentPlan::UCorner { position, rotation } => TrackSide::walls(
                base,
                rail_position(position),
                rotation,
                Fixed::from_raw(CORNER_LENGTH),
                TrackSegmentSideType::UTurn,
            ),
        }
    }
}

impl TrackStraightSegment {
    /// The straight piece about `position` that runs in `direction` over
    /// `length`, with its rails.
    pub fn new(
        position: Vector3,
        direction: FacingDirection,
        length: Fixed,
        model_matrix: &mut ModelMatrix,
    ) -> (r: TrackStraightSegment)
        ensures
            r.position == position,
            r.direction == direction,
            r.length == length,
            r.sides.colliders@ == (SegmentPlan::Straight { position, direction, length }).walls(
                old(model_matrix).matrix,
            ),
            final(model_matrix).matrix == old(model_matrix).matrix,
            final(model_matrix).stack@ == old(model_matrix).stack@,
    {
        let rot = match direction {
            FacingDirection::North => Fixed::from_raw(0),
            FacingDirection::West => Fixed::from_int(90).to_radians(),
        };
        let sides = TrackSide::new(
            rail_position(position),
            rot,
            length,
            TrackSegmentSideType::Straight,
            model_matrix,
        );
        TrackStraightSegment { position, direction, length, sides }
    }
}

impl TrackRightCornerSegment {
    /// The corner to the right at `position`, with its rails.
    pub fn new(position: Vector3, model_matrix: &mut ModelMatrix) -> (r: TrackRightCornerSegment)
        ensures
            r.position == position,
            r.sides.colliders@ == (SegmentPlan::RightCorner { position }).walls(
                old(model_matrix).matrix,
            ),
            final(model_matrix).matrix == old(model_matrix).matrix,
            final(model_matrix).stack@ == old(model_matrix).stack@,
    {
        let sides = TrackSide::new(
            rail_position(position),
            Fixed::from_raw(0),
            Fixed::from_raw(CORNER_LENGTH),
            TrackSegmentSideType::RightCorner,
            model_matrix,
        );
        TrackRightCornerSegment { position, sides }
    }
}

impl TrackUCornerSegment {
    /// The turn back at `position`, turned by `rotation`, with its rails.
    pub fn new(position: Vector3, rotation: Fixed, model_matrix: &mut ModelMatrix) -> (r:
        TrackUCornerSegment)
        ensures
            r.position == position,
            r.rotation == rotation,
            r.sides.colliders@ == (SegmentPlan::UCorner { position, rotation }).walls(
                old(model_matrix).matrix,
            ),
            final(model_matrix).matrix == old(model_matrix).matrix,
            final(model_matrix).stack@ == old(model_matrix).stack@,
    {
        let sides = TrackSide::new(
            rail_position(position),
            rotation,
            Fixed::from_raw(CORNER_LENGTH),
            TrackSegmentSideType::UTurn,
            model_matrix,
        );
        TrackUCornerSegment { position, rotation, sides }
    }
}

impl TrackSegment {
    /// The rails of the piece.
    pub open spec fn sides(self) -> TrackSide {
        match self {
            TrackSegment::Straight(s) => s.sides,
            TrackSegment::RightCorner(s) => s.sides,
            TrackSegment::UCorner(s) => s.sides,
        }
    }

    /// The plan that the piece was built from.
    pub open spec fn plan(self) -> SegmentPlan {
        match self {
            TrackSegment::Straight(s) => SegmentPlan::Straight {
                position: s.position,
                direction: s.direction,
                length: s.length,
            },
            TrackSegment::RightCorner(s) => SegmentPlan::RightCorner { position: s.position },
            TrackSegment::UCorner(s) => SegmentPlan::UCorner {
                position: s.position,
                rotation: s.rotation,
            },
        }
    }

    /// What the piece presents to run into, as a tree.
    pub open spec fn info(self) -> ColliderView {
        ColliderView::MultiCollider(Collider::views(self.sides().colliders))
    }

    /// Builds the piece that `plan` describes.
    pub fn build(plan: &SegmentPlan, model_matrix: &mut ModelMatrix) -> (r: TrackSegment)
        ensures
            r.plan() == *plan,
            r.sides().colliders@ == plan.walls(old(model_matrix).matrix),
            final(model_matrix).matrix == old(model_matrix).matrix,
            final(model_matrix).stack@ == old(model_matrix).stack@,
    {
        match plan {
            SegmentPlan::Straight { position, direction, length } => TrackSegment::Straight(
                TrackStraightSegment::new(*position, *direction, *length, model_matrix),
            ),
            SegmentPlan::RightCorner { position } => TrackSegment::RightCorner(
                TrackRightCornerSegment::new(*position, model_matrix),
            ),
            SegmentPlan::UCorner { position, rotation } => TrackSegment::UCorner(
                TrackUCornerSegment::new(*position, *rotation, model_matrix),
            ),
        }
    }

    /// What the piece presents to run into: its rails.
    pub fn collision_info(&self) -> (r: Collider)
        ensures
            r@ == self.info(),
    {
        match self {
            TrackSegment::Straight(s) => s.sides.collision_info(),
            TrackSegment::RightCorner(s) => s.sides.collision_info(),
            TrackSegment::UCorner(s) => s.sides.collision_info(),
        }
    }
}

/// The whole course.
pub struct Track {
    pub track: Vec<TrackSegment>,
}

impl Track {
    /// The point on the ground with the given coordinates in tenths.
    pub open spec fn spec_place(x: int, z: int) -> Vector3 {
        Vector3::new(
            Fixed::from_int(x as i32).over(Fixed::from_int(10)),
            Fixed::from_raw(0),
            Fixed::from_int(z as i32).over(Fixed::from_int(10)),
        )
    }

    /// The course of the game, piece by piece from the start: a long
    /// straight, a right corner, a straight to the west, three turns back
    /// that make a double bend, and the way home by a straight, a right
    /// corner and a last turn back.
    pub open spec fn layout() -> Seq<SegmentPlan> {
        seq![
            SegmentPlan::Straight {
                position: Track::spec_place(0, 660),
                direction: FacingDirection::North,
                length: Fixed::from_int(240),
            },
            SegmentPlan::RightCorner { position: Track::spec_place(-100, 2850) },
            SegmentPlan::Straight {
                position: Track::spec_place(1860, 2750),
                direction: FacingDirection::West,
                length: Fixed::from_int(200),
            },
            SegmentPlan::UCorner {
                position: Track::spec_place(2860, 2350),
                rotation: Fixed::from_int(90).to_radians(),
            },
            SegmentPlan::UCorner {
                position: Track::spec_place(2923, 1590),
                rotation: Fixed::from_int(270).to_radians(),
            },
            SegmentPlan::UCorner {
                position: Track::spec_place(2920, 790),
                rotation: Fixed::from_int(90).to_radians(),
            },
            SegmentPlan::Straight {
                position: Track::spec_place(2260, 400),
                direction: FacingDirection::West,
                length: Fixed::from_int(140),
            },
            SegmentPlan::RightCorner { position: Track::spec_place(670, 500) },
            SegmentPlan::UCorner {
                position: Track::spec_place(370, -490),
                rotation: Fixed::from_int(180).to_radians(),
            },
        ]
    }

    /// The pieces are those of `plans`, in order, each with its rails under
    /// the transform `base`.
    pub open spec fn built_from(self, plans: Seq<SegmentPlan>, base: Matrix4) -> bool {
        &&& self.track@.len() == plans.len()
        &&& forall|i: int|
            0 <= i < plans.len() ==> (#[trigger] self.track@[i]).plan() == plans[i]
                && self.track@[i].sides().colliders@ == plans[i].walls(base)
    }

    /// The point on the ground with the given coordinates in tenths.
    fn place(x: i32, z: i32) -> (r: Vector3)
        ensures
            r == Track::spec_place(x as int, z as int),
    {
        Vector3::new(
            Fixed::from_int(x).over(Fixed::from_int(10)),
            Fixed::from_raw(0),
            Fixed::from_int(z).over(Fixed::from_int(10)),
        )
    }

    /// The plans of the course of the game.
    pub fn create_track() -> (plans: Vec<SegmentPlan>)
        ensures
            plans@ == Track::layout(),
    {
        let mut track: Vec<SegmentPlan> = Vec::new();
        track.push(
            SegmentPlan::Straight {
                position: Track::place(0, 660),
                direction: FacingDirection::North,
                length: Fixed::from_int(240),
            },
        );
        track.push(SegmentPlan::RightCorner { position: Track::place(-100, 2850) });
        track.push(
            SegmentPlan::Straight {
                position: Track::place(1860, 2750),
                direction: FacingDirection::West,
                length: Fixed::from_int(200),
            },
        );

        // The double bend.
        track.push(
            SegmentPlan::UCorner {
                position: Track::place(2860, 2350),
                rotation: Fixed::from_int(90).to_radians(),
            },
        );
        track.push(
            SegmentPlan::UCorner {
                position: Track::place(2923, 1590),
                rotation: Fixed::from_int(270).to_radians(),
            },
        );
        track.push(
            SegmentPlan::UCorner {
                position: Track::place(2920, 790),
                rotation: Fixed::from_int(90).to_radians(),
            },
        );

        // The way home.
        track.push(
            SegmentPlan::Straight {
                position: Track::place(2260, 400),
                direction: FacingDirection::West,
                length: Fixed::from_int(140),
            },
        );
        track.push(SegmentPlan::RightCorner { position: Track::place(670, 500) });
        track.push(
            SegmentPlan::UCorner {
                position: Track::place(370, -490),
                rotation: Fixed::from_int(180).to_radians(),
            },
        );
        assert(track@ =~= Track::layout());
        track
    }

    /// Builds the pieces that `plans` describe, in order.
    pub fn build(plans: &Vec<SegmentPlan>, model_matrix: &mut ModelMatrix) -> (r: Track)
        ensures
            r.built_from(plans@, old(model_matrix).matrix),
            final(model_matrix).matrix == old(model_matrix).matrix,
            final(model_matrix).stack@ == old(model_matrix).stack@,
    {
        let ghost base = model_matrix.matrix;
        let mut track: Vec<TrackSegment> = Vec::new();
        let mut i: usize = 0;
        while i < plans.len()
            invariant
                i <= plans@.len(),
                track@.len() == i,
                forall|k: int|
                    0 <= k < i ==> (#[trigger] track@[k]).plan() == plans@[k]
                        && track@[k].sides().colliders@ == plans@[k].walls(base),
                model_matrix.matrix == base,
                model_matrix.stack@ == old(model_matrix).stack@,
            decreases plans.len() - i,
        {
            track.push(TrackSegment::build(&plans[i], model_matrix));
            i += 1;
        }
        Track { track }
    }

    /// The course of the game, built under the current transform of
    /// `model_matrix`, which is left as it was.
    pub fn new(model_matrix: &mut ModelMatrix) -> (r: Track)
        ensures
            r.built_from(Track::layout(), old(model_matrix).matrix),
            final(model_matrix).matrix == old(model_matrix).matrix,
            final(model_matrix).stack@ == old(model_matrix).stack@,
    {
        let plans = Track::create_track();
        Track::build(&plans, model_matrix)
    }

    /// What the pieces of the first `n` positions present to run into.
    pub open spec fn infos(self, n: nat) -> Seq<ColliderView>
        decreases n,
    {
        if n == 0 || n > self.track@.len() {
            Seq::empty()
        } else {
            self.infos((n - 1) as nat).push(self.track@[n - 1].info())
        }
    }

    /// What the course presents to run into: the rails of all its pieces,
    /// piece by piece.
    pub fn collision_info(&self) -> (r: Collider)
        ensures
            r@ == ColliderView::MultiCollider(self.infos(self.track@.len())),
    {
        let mut list: Vec<Collider> = Vec::new();
        let mut i: usize = 0;
        while i < self.track.len()
            invariant
                i <= self.track@.len(),
                list@.len() == i,
                Collider::models(list, i as nat) == self.infos(i as nat),
            decreases self.track.len() - i,
        {
            let ghost before = list;
            list.push(self.track[i].collision_info());
            proof {
                Collider::lemma_models_of_prefix(before, list, i as nat);
            }
            i += 1;
        }
        Collider::MultiCollider(list)
    }
}

} // verus!
