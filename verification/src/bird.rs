use vstd::prelude::*;

verus! {

/// The way a bird flies.
#[derive(Clone, Copy, Debug, PartialEq, Eq, Structural)]
pub enum Direction {
    LEFT,
    RIGHT,
}

impl Direction {
    /// The opposite direction.
    pub fn reverse(self) -> (r: Self)
        ensures
            r == opposite(self),
    {
        match self {
            Self::LEFT => Self::RIGHT,
            Self::RIGHT => Self::LEFT,
        }
    }

    /// The direction that a "facing right" flag names (as the wire carries
    /// it, and as a coin toss picks a new bird's direction).
    pub fn from_is_right(is_right: bool) -> (d: Self)
        ensures
            d == (if is_right { Direction::RIGHT } else { Direction::LEFT }),
    {
        match is_right {
            false => Direction::LEFT,
            true => Direction::RIGHT,
        }
    }
}

/// A bird: the way it flies and whether it is turning around.
#[derive(Clone, Copy, Debug, PartialEq, Eq, Structural)]
pub struct Bird {
    pub direction: Direction,
    pub turning: bool,
}

/// What a bird's motion becomes after one step.
#[derive(Clone, Copy, Debug, PartialEq, Eq, Structural)]
pub enum BirdMotion {
    /// Leave the velocity as it is (while turning, the bird has none).
    Keep,
    /// Remove the velocity: the bird has reached the edge and starts turning.
    Stop,
    /// Fly forward at the bird speed (in its own frame).
    Fly,
}

/// The bird's decision for one frame, given that the turn animation has
/// completed (`turn_finished`, read only while turning) and that the bird is
/// past the edge that it flies towards (`past_edge`, read only otherwise).
pub open spec fn bird_step(bird: Bird, turn_finished: bool, past_edge: bool) -> (Bird, BirdMotion) {
    if bird.turning {
        if turn_finished {
            (Bird { direction: opposite(bird.direction), turning: false }, BirdMotion::Keep)
        } else {
            (bird, BirdMotion::Keep)
        }
    } else if past_edge {
        (Bird { direction: bird.direction, turning: true }, BirdMotion::Stop)
    } else {
        (bird, BirdMotion::Fly)
    }
}

/// The opposite direction.
pub open spec fn opposite(d: Direction) -> Direction {
    match d {
        Direction::LEFT => Direction::RIGHT,
        Direction::RIGHT => Direction::LEFT,
    }
}

/// Moves birds across the stage and turns them around at its edges.
pub struct BirdSystem;

impl BirdSystem {
    /// One frame of a bird: a turning bird that finished its turn flies the
    /// other way; a flying bird past its edge stops and starts turning;
    /// otherwise it keeps flying.
    pub fn step(bird: &mut Bird, turn_finished: bool, past_edge: bool) -> (motion: BirdMotion)
        ensures
            (*final(bird), motion) == bird_step(*old(bird), turn_finished, past_edge),
            !old(bird).turning && past_edge ==> final(bird).turning && motion == BirdMotion::Stop
                && final(bird).direction == old(bird).direction,
            !old(bird).turning && !past_edge ==> *final(bird) == *old(bird) && motion == BirdMotion::Fly,
            old(bird).turning ==> motion == BirdMotion::Keep,
            old(bird).turning && turn_finished ==> !final(bird).turning && final(bird).direction
                != old(bird).direction,
            old(bird).turning && !turn_finished ==> *final(bird) == *old(bird),
    {
        if bird.turning {
            if turn_finished {
                bird.turning = false;
                bird.direction = bird.direction.reverse();
            }
            BirdMotion::Keep
        } else if past_edge {
            bird.turning = true;
            BirdMotion::Stop
        } else {
            BirdMotion::Fly
        }
    }
}

/// A turning bird is never pushed forward, and a finished turn leaves the
/// bird flying the opposite way.
pub proof fn law_turning_bird_does_not_fly(bird: Bird, turn_finished: bool, past_edge: bool)
    requires
        bird.turning,
    ensures
        bird_step(bird, turn_finished, past_edge).1 == BirdMotion::Keep,
        turn_finished ==> bird_step(bird, turn_finished, past_edge).0.direction != bird.direction,
        turn_finished ==> !bird_step(bird, turn_finished, past_edge).0.turning,
{
}

/// A bird flying towards an edge that it has passed stops and starts
/// turning, whichever way it flies; one that has not passed it flies on
/// unchanged. Only a bird at its edge stops.
pub proof fn law_bird_turns_at_either_edge(bird: Bird, turn_finished: bool, past_edge: bool)
    requires
        !bird.turning,
    ensures
        past_edge ==> bird_step(bird, turn_finished, past_edge).0.turning,
        past_edge ==> bird_step(bird, turn_finished, past_edge).1 == BirdMotion::Stop,
        past_edge ==> bird_step(bird, turn_finished, past_edge).0.direction == bird.direction,
        !past_edge ==> bird_step(bird, turn_finished, past_edge) == (bird, BirdMotion::Fly),
        bird_step(bird, turn_finished, past_edge).1 == BirdMotion::Stop ==> past_edge,
{
}

/// Reversing a direction changes it, and reversing twice gives it back.
pub proof fn law_reverse_involution(d: Direction)
    ensures
        opposite(d) != d,
        opposite(opposite(d)) == d,
{
}

/// Whether new birds are released (only while playing alone).
#[derive(Clone, Copy, Debug, PartialEq, Eq, Structural)]
pub struct CreateBirdSystemController {
    pub enabled: bool,
}

impl Default for CreateBirdSystemController {
    /// Birds are not released until offline play starts.
    fn default() -> (c: Self)
        ensures
            !c.enabled,
    {
        CreateBirdSystemController { enabled: false }
    }
}

} // verus!
