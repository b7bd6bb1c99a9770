//! Point masses with a committed state and a staged one.

use crate::ids::{successor, IdAllocator};
use vstd::prelude::*;

verus! {

/// What a body is, as a value: its identity, its mass, the state that the last
/// completed step left it in, and the state staged for the next commit.
pub struct BodyState<M, X> {
    pub id: usize,
    pub mass: M,
    pub position: X,
    pub velocity: X,
    pub staged_position: X,
    pub staged_velocity: X,
}

/// A point mass.
///
/// `position` and `velocity` are the committed state. `apply` writes a new
/// state into the staging slots without touching the committed one, and
/// `advance` commits what is staged. Nothing but `advance` reads the staging
/// slots.
pub struct Body<M, X> {
    id: usize,
    position: X,
    velocity: X,
    mass: M,
    n_pos: X,
    n_vel: X,
}

impl<M, X> View for Body<M, X> {
    type V = BodyState<M, X>;

    closed spec fn view(&self) -> BodyState<M, X> {
        BodyState {
            id: self.id,
            mass: self.mass,
            position: self.position,
            velocity: self.velocity,
            staged_position: self.n_pos,
            staged_velocity: self.n_vel,
        }
    }
}

impl<M: Copy, X: Copy> Body<M, X> {
    /// Stages a new position and velocity. The committed state is unchanged.
    pub fn apply(&mut self, position: X, velocity: X)
        ensures
            final(self)@ == (BodyState {
                staged_position: position,
                staged_velocity: velocity,
                ..old(self)@
            }),
    {
        self.n_pos = position;
        self.n_vel = velocity;
    }

    /// Commits the staged position and velocity.
    pub fn advance(&mut self)
        ensures
            final(self)@ == (BodyState {
                position: old(self)@.staged_position,
                velocity: old(self)@.staged_velocity,
                ..old(self)@
            }),
    {
        self.position = self.n_pos;
        self.velocity = self.n_vel;
    }

    pub fn position(&self) -> (position: X)
        ensures
            position == self@.position,
    {
        self.position
    }

    pub fn velocity(&self) -> (velocity: X)
        ensures
            velocity == self@.velocity,
    {
        self.velocity
    }

    pub fn mass(&self) -> (mass: M)
        ensures
            mass == self@.mass,
    {
        self.mass
    }

    pub fn id(&self) -> (id: usize)
        ensures
            id == self@.id,
    {
        self.id
    }
}

/// What a builder has been told so far.
pub struct BodySeed<M, X> {
    pub mass: M,
    pub position: Option<X>,
    pub velocity: Option<X>,
}

/// The start value that a builder gives for `chosen`: the chosen value
/// itself, or else the zero vector.
pub open spec fn start_of<X>(chosen: Option<X>, zero: X) -> X {
    match chosen {
        Some(x) => x,
        None => zero,
    }
}

/// `actual` is the start value that a builder gives for `chosen`.
pub open spec fn starts_at<X>(chosen: Option<X>, zero: X, actual: X) -> bool {
    actual == start_of(chosen, zero)
}

/// `body` is what `seed` builds under the identifier `id`, with `zero` for
/// the zero vector: a position or velocity that was not chosen is `zero`,
/// and nothing is staged that differs from the committed state.
pub open spec fn built_from<M, X>(seed: BodySeed<M, X>, zero: X, id: usize, body: BodyState<M, X>) -> bool {
    &&& body.id == id
    &&& body.mass == seed.mass
    &&& starts_at(seed.position, zero, body.position)
    &&& starts_at(seed.velocity, zero, body.velocity)
    &&& body.staged_position == body.position
    &&& body.staged_velocity == body.velocity
}

/// Collects the mass and the optional initial position and velocity of a body.
pub struct BodyBuilder<M, X> {
    mass: M,
    position: Option<X>,
    velocity: Option<X>,
}

impl<M, X> View for BodyBuilder<M, X> {
    type V = BodySeed<M, X>;

    closed spec fn view(&self) -> BodySeed<M, X> {
        BodySeed { mass: self.mass, position: self.position, velocity: self.velocity }
    }
}

impl<M: Copy, X: Copy> BodyBuilder<M, X> {
    pub fn new(mass: M) -> (builder: Self)
        ensures
            builder@ == (BodySeed { mass, position: None::<X>, velocity: None::<X> }),
    {
        BodyBuilder { mass, position: None, velocity: None }
    }

    pub fn with_position(self, position: X) -> (builder: Self)
        ensures
            builder@ == (BodySeed { position: Some(position), ..self@ }),
    {
        BodyBuilder { mass: self.mass, position: Some(position), velocity: self.velocity }
    }

    pub fn with_velocity(self, velocity: X) -> (builder: Self)
        ensures
            builder@ == (BodySeed { velocity: Some(velocity), ..self@ }),
    {
        BodyBuilder { mass: self.mass, position: self.position, velocity: Some(velocity) }
    }

    /// Builds a body under the next identifier of `ids`. A position or velocity
    /// that was not given is `zero`, the zero vector. The staging slots start
    /// out equal to the committed state. The builder is unchanged, and builds
    /// the same body again, but for the identifier.
    pub fn build(&self, ids: &mut IdAllocator, zero: X) -> (body: Body<M, X>)
        ensures
            built_from(self@, zero, old(ids).next_id(), body@),
            final(ids).next_id() == successor(old(ids).next_id()),
    {
        let position = match self.position {
            Some(p) => p,
            None => zero,
        };
        let velocity = match self.velocity {
            Some(v) => v,
            None => zero,
        };
        Body {
            id: ids.allocate(),
            position,
            velocity,
            mass: self.mass,
            n_pos: position,
            n_vel: velocity,
        }
    }
}

} // verus!
