//! The set of bodies, the pairwise sweep over it and the two-phase step.

use crate::sim::body::{Body, BodyState};
use vstd::prelude::*;

verus! {

/// The bodies of a simulation, in the order in which they were inserted.
pub struct System<M, X> {
    bodies: Vec<Body<M, X>>,
}

/// The states of a sequence of bodies.
pub open spec fn states<M, X>(bodies: Seq<Body<M, X>>) -> Seq<BodyState<M, X>> {
    bodies.map_values(|b: Body<M, X>| b@)
}

/// No two bodies share an identifier.
pub open spec fn distinct_ids<M, X>(bodies: Seq<BodyState<M, X>>) -> bool {
    forall|i: int, j: int| 0 <= i < j < bodies.len() ==> bodies[i].id != bodies[j].id
}

/// A relation between a running total, the mass and the position of a body,
/// and the total after the body's contribution has been added.
pub type Pull<M, X> = spec_fn(X, M, X, X) -> bool;

/// What the closure `pull` may return, as a relation.
pub open spec fn relation_of<M, X, F: Fn(X, M, X) -> X>(pull: F) -> Pull<M, X> {
    |so_far: X, mass: M, position: X, total: X| call_ensures(pull, (so_far, mass, position), total)
}

/// `total` is what is left after starting from `start` and letting `pull` add
/// the contribution of each body in `others`, in order, except the bodies
/// whose identifier is `id`.
pub open spec fn accumulated<M, X>(
    others: Seq<BodyState<M, X>>,
    id: usize,
    start: X,
    pull: Pull<M, X>,
    total: X,
) -> bool
    decreases others.len(),
{
    if others.len() == 0 {
        total == start
    } else if others.last().id == id {
        accumulated(others.drop_last(), id, start, pull, total)
    } else {
        exists|before: X|
            {
                &&& accumulated(others.drop_last(), id, start, pull, before)
                &&& #[trigger] pull(before, others.last().mass, others.last().position, total)
            }
    }
}

/// `after` is `before` with every body moved to the position and velocity
/// that `integrate` gives for it when it looks at `before`. Each body keeps
/// its identifier and its mass, and nothing is left staged.
pub open spec fn stepped<M, X, T, F: Fn(&System<M, X>, usize, T) -> (X, X)>(
    before: System<M, X>,
    dt: T,
    integrate: F,
    after: Seq<BodyState<M, X>>,
) -> bool {
    &&& after.len() == before@.len()
    &&& forall|i: int|
        0 <= i < after.len() ==> {
            &&& (#[trigger] after[i]).id == before@[i].id
            &&& after[i].mass == before@[i].mass
            &&& call_ensures(integrate, (&before, i as usize, dt), (after[i].position, after[i].velocity))
            &&& after[i].staged_position == after[i].position
            &&& after[i].staged_velocity == after[i].velocity
        }
}

/// `pull` gives at most one total for each running total and body.
pub open spec fn single_valued_pull<M, X>(pull: Pull<M, X>) -> bool {
    forall|so_far: X, mass: M, position: X, a: X, b: X|
        #[trigger] pull(so_far, mass, position, a) && #[trigger] pull(so_far, mass, position, b) ==> a == b
}

/// A body that has no neighbour feels nothing: when every body of the system
/// carries the identifier `id`, the sweep for `id` ends where it started.
pub proof fn lemma_isolated_body_feels_nothing<M, X>(
    others: Seq<BodyState<M, X>>,
    id: usize,
    start: X,
    pull: Pull<M, X>,
    total: X,
)
    requires
        forall|j: int| 0 <= j < others.len() ==> others[j].id == id,
    ensures
        accumulated(others, id, start, pull, total) <==> total == start,
    decreases others.len(),
{
    if others.len() > 0 {
        lemma_isolated_body_feels_nothing(others.drop_last(), id, start, pull, total);
    }
}

/// A body never pulls on itself: taking an entry that carries the identifier
/// `id` out of the system, wherever it stands, leaves the sweep for `id` as it
/// was.
pub proof fn lemma_own_entry_is_skipped<M, X>(
    others: Seq<BodyState<M, X>>,
    k: int,
    id: usize,
    start: X,
    pull: Pull<M, X>,
    total: X,
)
    requires
        0 <= k < others.len(),
        others[k].id == id,
    ensures
        accumulated(others, id, start, pull, total) <==> accumulated(others.remove(k), id, start, pull, total),
    decreases others.len(),
{
    let rest = others.remove(k);
    if k == others.len() - 1 {
        assert(rest =~= others.drop_last());
    } else {
        assert(rest.len() > 0);
        assert(rest.last() == others.last());
        assert(rest.drop_last() =~= others.drop_last().remove(k));
        if others.last().id == id {
            lemma_own_entry_is_skipped(others.drop_last(), k, id, start, pull, total);
        } else {
            if accumulated(others, id, start, pull, total) {
                let before = choose|before: X|
                    {
                        &&& accumulated(others.drop_last(), id, start, pull, before)
                        &&& #[trigger] pull(before, others.last().mass, others.last().position, total)
                    };
                lemma_own_entry_is_skipped(others.drop_last(), k, id, start, pull, before);
                assert(accumulated(rest.drop_last(), id, start, pull, before));
                assert(pull(before, rest.last().mass, rest.last().position, total));
            }
            if accumulated(rest, id, start, pull, total) {
                let before = choose|before: X|
                    {
                        &&& accumulated(rest.drop_last(), id, start, pull, before)
                        &&& #[trigger] pull(before, rest.last().mass, rest.last().position, total)
                    };
                lemma_own_entry_is_skipped(others.drop_last(), k, id, start, pull, before);
                assert(accumulated(others.drop_last(), id, start, pull, before));
                assert(pull(before, others.last().mass, others.last().position, total));
            }
        }
    }
}

/// Entry by entry, `a` and `b` hold bodies of the same mass, position and
/// velocity. Their identifiers may differ.
pub open spec fn same_matter<M, X>(a: Seq<BodyState<M, X>>, b: Seq<BodyState<M, X>>) -> bool {
    &&& a.len() == b.len()
    &&& forall|j: int|
        0 <= j < a.len() ==> {
            &&& (#[trigger] a[j]).mass == b[j].mass
            &&& a[j].position == b[j].position
            &&& a[j].velocity == b[j].velocity
        }
}

/// The sweep looks at identifiers only to decide which bodies to leave out:
/// two systems of the same matter, in which the same entries are left out,
/// give the same totals.
pub proof fn lemma_sweep_ignores_identifiers<M, X>(
    a: Seq<BodyState<M, X>>,
    id_a: usize,
    b: Seq<BodyState<M, X>>,
    id_b: usize,
    start: X,
    pull: Pull<M, X>,
    total: X,
)
    requires
        same_matter(a, b),
        forall|j: int| 0 <= j < a.len() ==> ((#[trigger] a[j]).id == id_a <==> b[j].id == id_b),
    ensures
        accumulated(a, id_a, start, pull, total) <==> accumulated(b, id_b, start, pull, total),
    decreases a.len(),
{
    if a.len() > 0 {
        let rest_a = a.drop_last();
        let rest_b = b.drop_last();
        assert(same_matter(rest_a, rest_b)) by {
            assert forall|j: int| 0 <= j < rest_a.len() implies {
                &&& (#[trigger] rest_a[j]).mass == rest_b[j].mass
                &&& rest_a[j].position == rest_b[j].position
                &&& rest_a[j].velocity == rest_b[j].velocity
            } by {
                assert(rest_a[j] == a[j]);
                assert(rest_b[j] == b[j]);
            }
        }
        assert forall|j: int| 0 <= j < rest_a.len() implies ((#[trigger] rest_a[j]).id == id_a <==> rest_b[j].id
            == id_b) by {
            assert(rest_a[j] == a[j]);
            assert(rest_b[j] == b[j]);
        }
        assert(a.last() == a[a.len() - 1]);
        assert(b.last() == b[a.len() - 1]);
        if a.last().id == id_a {
            lemma_sweep_ignores_identifiers(rest_a, id_a, rest_b, id_b, start, pull, total);
        } else {
            if accumulated(a, id_a, start, pull, total) {
                let before = choose|before: X|
                    {
                        &&& accumulated(rest_a, id_a, start, pull, before)
                        &&& #[trigger] pull(before, a.last().mass, a.last().position, total)
                    };
                lemma_sweep_ignores_identifiers(rest_a, id_a, rest_b, id_b, start, pull, before);
                assert(pull(before, b.last().mass, b.last().position, total));
            }
            if accumulated(b, id_b, start, pull, total) {
                let before = choose|before: X|
                    {
                        &&& accumulated(rest_b, id_b, start, pull, before)
                        &&& #[trigger] pull(before, b.last().mass, b.last().position, total)
                    };
                lemma_sweep_ignores_identifiers(rest_a, id_a, rest_b, id_b, start, pull, before);
                assert(pull(before, a.last().mass, a.last().position, total));
            }
        }
    }
}

/// A sweep under one relation is a sweep under every wider relation.
pub proof fn lemma_sweep_is_monotone<M, X>(
    others: Seq<BodyState<M, X>>,
    id: usize,
    start: X,
    narrow: Pull<M, X>,
    wide: Pull<M, X>,
    total: X,
)
    requires
        forall|so_far: X, mass: M, position: X, next: X|
            #[trigger] narrow(so_far, mass, position, next) ==> wide(so_far, mass, position, next),
        accumulated(others, id, start, narrow, total),
    ensures
        accumulated(others, id, start, wide, total),
    decreases others.len(),
{
    if others.len() > 0 {
        if others.last().id == id {
            lemma_sweep_is_monotone(others.drop_last(), id, start, narrow, wide, total);
        } else {
            let before = choose|before: X|
                {
                    &&& accumulated(others.drop_last(), id, start, narrow, before)
                    &&& #[trigger] narrow(before, others.last().mass, others.last().position, total)
                };
            lemma_sweep_is_monotone(others.drop_last(), id, start, narrow, wide, before);
            assert(wide(before, others.last().mass, others.last().position, total));
        }
    }
}

/// With a single-valued `pull` the sweep has one outcome.
pub proof fn lemma_sweep_is_deterministic<M, X>(
    others: Seq<BodyState<M, X>>,
    id: usize,
    start: X,
    pull: Pull<M, X>,
    a: X,
    b: X,
)
    requires
        single_valued_pull(pull),
        accumulated(others, id, start, pull, a),
        accumulated(others, id, start, pull, b),
    ensures
        a == b,
    decreases others.len(),
{
    if others.len() > 0 {
        if others.last().id == id {
            lemma_sweep_is_deterministic(others.drop_last(), id, start, pull, a, b);
        } else {
            let before_a = choose|before: X|
                {
                    &&& accumulated(others.drop_last(), id, start, pull, before)
                    &&& #[trigger] pull(before, others.last().mass, others.last().position, a)
                };
            let before_b = choose|before: X|
                {
                    &&& accumulated(others.drop_last(), id, start, pull, before)
                    &&& #[trigger] pull(before, others.last().mass, others.last().position, b)
                };
            lemma_sweep_is_deterministic(others.drop_last(), id, start, pull, before_a, before_b);
        }
    }
}

impl<M, X> View for System<M, X> {
    type V = Seq<BodyState<M, X>>;

    closed spec fn view(&self) -> Seq<BodyState<M, X>> {
        states(self.bodies@)
    }
}

impl<M, X> System<M, X> {
    /// The number of bodies fits into a machine word.
    pub proof fn lemma_count_fits(&self)
        ensures
            self@.len() <= usize::MAX,
    {
        assert(self.bodies@.len() == self.bodies.len());
    }
}

impl<M: Copy, X: Copy> System<M, X> {
    pub fn new() -> (system: Self)
        ensures
            system@ == Seq::<BodyState<M, X>>::empty(),
    {
        let system = System { bodies: Vec::new() };
        assert(system@ =~= Seq::<BodyState<M, X>>::empty());
        system
    }

    /// The bodies, in insertion order.
    pub fn bodies(&self) -> (bodies: &[Body<M, X>])
        ensures
            states(bodies@) == self@,
    {
        self.bodies.as_slice()
    }

    /// Adds `body` behind the bodies that are already there.
    pub fn insert(&mut self, body: Body<M, X>)
        ensures
            final(self)@ == old(self)@.push(body@),
    {
        self.bodies.push(body);
        assert(self@ =~= old(self)@.push(body@));
    }

    /// Sweeps over the bodies other than `body` and lets `pull` add the
    /// contribution of each to a running total that starts at `start`. `pull`
    /// is handed the total so far and the mass and position of the other
    /// body. A body is left out when its identifier equals that of `body`,
    /// wherever it stands in the system.
    pub fn sweep<F: Fn(X, M, X) -> X>(&self, body: &Body<M, X>, start: X, pull: F) -> (total: X)
        requires
            forall|so_far: X, j: int|
                0 <= j < self@.len() && self@[j].id != body@.id ==> #[trigger] call_requires(
                    pull,
                    (so_far, self@[j].mass, self@[j].position),
                ),
        ensures
            accumulated(self@, body@.id, start, relation_of(pull), total),
    {
        let id = body.id();
        let n = self.bodies.len();
        let mut total = start;
        let mut j: usize = 0;
        assert(self@.take(0) =~= Seq::<BodyState<M, X>>::empty());
        while j < n
            invariant
                n == self.bodies@.len(),
                n == self@.len(),
                j <= n,
                id == body@.id,
                forall|so_far: X, k: int|
                    0 <= k < self@.len() && self@[k].id != id ==> #[trigger] call_requires(
                        pull,
                        (so_far, self@[k].mass, self@[k].position),
                    ),
                accumulated(self@.take(j as int), id, start, relation_of(pull), total),
            decreases n - j,
        {
            let other = &self.bodies[j];
            assert(other@ == self@[j as int]);
            let ghost seen = self@.take(j as int + 1);
            assert(seen.drop_last() =~= self@.take(j as int));
            assert(seen.last() == self@[j as int]);
            if other.id() != id {
                let ghost before = total;
                total = pull(total, other.mass(), other.position());
                assert(accumulated(seen.drop_last(), id, start, relation_of(pull), before));
                assert(relation_of(pull)(before, seen.last().mass, seen.last().position, total));
            }
            j += 1;
        }
        assert(self@.take(n as int) =~= self@);
        total
    }

    /// Advances every body by one step.
    ///
    /// The step has two phases. First `integrate` is asked, for each body in
    /// turn, for the body's next position and velocity; it is handed the
    /// system as it was when the step began, the index of the body, and `dt`.
    /// Only when that has been done for every body are the results staged and
    /// committed, so no body is ever integrated against a neighbour that has
    /// already moved.
    pub fn step_with<T: Copy, F: Fn(&System<M, X>, usize, T) -> (X, X)>(&mut self, dt: T, integrate: F)
        requires
            forall|i: usize| i < old(self)@.len() ==> call_requires(integrate, (old(self), i, dt)),
        ensures
            stepped(*old(self), dt, integrate, final(self)@),
    {
        let n = self.bodies.len();
        let mut next: Vec<(X, X)> = Vec::new();
        let mut i: usize = 0;
        while i < n
            invariant
                *self == *old(self),
                n == self.bodies@.len(),
                i <= n,
                next@.len() == i,
                forall|k: usize| k < n ==> call_requires(integrate, (old(self), k, dt)),
                forall|k: int|
                    0 <= k < i ==> call_ensures(integrate, (old(self), k as usize, dt), #[trigger] next@[k]),
            decreases n - i,
        {
            let moved = integrate(&*self, i, dt);
            next.push(moved);
            i += 1;
        }
        let mut j: usize = 0;
        while j < n
            invariant
                n == self.bodies@.len(),
                n == old(self).bodies@.len(),
                next@.len() == n,
                j <= n,
                forall|k: int|
                    0 <= k < j ==> (#[trigger] self.bodies@[k])@ == (BodyState {
                        staged_position: next@[k].0,
                        staged_velocity: next@[k].1,
                        ..old(self).bodies@[k]@
                    }),
                forall|k: int| j <= k < n ==> self.bodies@[k] == old(self).bodies@[k],
            decreases n - j,
        {
            let (position, velocity) = next[j];
            self.bodies[j].apply(position, velocity);
            j += 1;
        }
        let mut j: usize = 0;
        while j < n
            invariant
                n == self.bodies@.len(),
                n == old(self).bodies@.len(),
                next@.len() == n,
                j <= n,
                forall|k: int|
                    0 <= k < j ==> (#[trigger] self.bodies@[k])@ == (BodyState {
                        position: next@[k].0,
                        velocity: next@[k].1,
                        staged_position: next@[k].0,
                        staged_velocity: next@[k].1,
                        ..old(self).bodies@[k]@
                    }),
                forall|k: int|
                    j <= k < n ==> (#[trigger] self.bodies@[k])@ == (BodyState {
                        staged_position: next@[k].0,
                        staged_velocity: next@[k].1,
                        ..old(self).bodies@[k]@
                    }),
            decreases n - j,
        {
            self.bodies[j].advance();
            j += 1;
        }
        assert forall|k: int| 0 <= k < self@.len() implies {
            &&& (#[trigger] self@[k]).id == old(self)@[k].id
            &&& self@[k].mass == old(self)@[k].mass
            &&& call_ensures(integrate, (old(self), k as usize, dt), (self@[k].position, self@[k].velocity))
            &&& self@[k].staged_position == self@[k].position
            &&& self@[k].staged_velocity == self@[k].velocity
        } by {
            assert(self@[k] == self.bodies@[k]@);
            assert(old(self)@[k] == old(self).bodies@[k]@);
            assert(next@[k] == (self@[k].position, self@[k].velocity));
        }
    }
}

} // verus!
