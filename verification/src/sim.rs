//! The simulation: a set of bodies that is seeded once and then stepped.

use crate::ids::{issued_after, lemma_identifiers_differ, lemma_identifiers_increase, IdAllocator};
use crate::sim::body::{built_from, BodyBuilder, BodyState};
use crate::sim::integrator::{
    advanced, defined_everywhere, lemma_isolated_body_drifts, zero_is_neutral, Arithmetic, Weights,
};
use crate::sim::system::{distinct_ids, System};
use vstd::prelude::*;

pub mod body;
pub mod integrator;
pub mod system;

verus! {

/// A simulation owns one system of bodies. The bodies are fixed when the
/// simulation is made; afterwards the only change is `step`.
pub struct Sim<M, X> {
    system: System<M, X>,
}

impl<M, X> View for Sim<M, X> {
    type V = System<M, X>;

    closed spec fn view(&self) -> System<M, X> {
        self.system
    }
}

/// `bodies` are what `seeds` build, in order, with `zero` for the zero
/// vector and under the identifiers that an allocator issues from `first`
/// on.
pub open spec fn seeded<M, X>(
    seeds: Seq<BodyBuilder<M, X>>,
    zero: X,
    first: usize,
    bodies: Seq<BodyState<M, X>>,
) -> bool {
    &&& bodies.len() == seeds.len()
    &&& forall|i: int|
        0 <= i < seeds.len() ==> built_from(seeds[i]@, zero, issued_after(first, i as nat), #[trigger] bodies[i])
}

/// A simulation that is made later with the same allocator carries greater
/// identifiers than one that was made earlier, and within a simulation the
/// identifiers increase from body to body, as long as the counter of the
/// allocator does not wrap.
pub proof fn lemma_later_bodies_have_greater_ids<M, X>(
    earlier_seeds: Seq<BodyBuilder<M, X>>,
    earlier_zero: X,
    first: usize,
    earlier: Seq<BodyState<M, X>>,
    later_seeds: Seq<BodyBuilder<M, X>>,
    later_zero: X,
    later: Seq<BodyState<M, X>>,
)
    requires
        seeded(earlier_seeds, earlier_zero, first, earlier),
        seeded(later_seeds, later_zero, issued_after(first, earlier_seeds.len()), later),
        first + earlier_seeds.len() + later_seeds.len() <= usize::MAX,
    ensures
        forall|i: int, j: int| 0 <= i < earlier.len() && 0 <= j < later.len() ==> earlier[i].id < later[j].id,
        forall|i: int, j: int| 0 <= i < j < earlier.len() ==> earlier[i].id < earlier[j].id,
        forall|i: int, j: int| 0 <= i < j < later.len() ==> later[i].id < later[j].id,
{
    lemma_identifiers_increase(first, earlier_seeds.len());
    let second = issued_after(first, earlier_seeds.len());
    assert forall|i: int| 0 <= i < earlier.len() implies (#[trigger] earlier[i]).id == first + i by {
        lemma_identifiers_increase(first, i as nat);
    }
    assert forall|j: int| 0 <= j < later.len() implies (#[trigger] later[j]).id == second + j by {
        lemma_identifiers_increase(second, j as nat);
    }
}

/// A body that is built without a velocity and is alone in its simulation
/// stays where it was built, at rest: when the zero vector that it was built
/// with is that of the arithmetic and is neutral in it, one step leaves its
/// position and its velocity as they were.
pub proof fn lemma_lone_body_at_rest_stays<M, X, S, A, B, C, V, G>(
    seeds: Seq<BodyBuilder<M, X>>,
    first: usize,
    before: Seq<BodyState<M, X>>,
    weights: Weights<S>,
    arithmetic: Arithmetic<X, A, B, C, V>,
    attraction: G,
    after: Seq<BodyState<M, X>>,
) where A: Fn(X, X) -> X, B: Fn(X, X) -> X, C: Fn(S, X) -> X, V: Fn(X, X) -> X, G: Fn(M, X) -> X
    requires
        seeds.len() == 1,
        seeds[0]@.velocity.is_none(),
        seeded(seeds, arithmetic.zero, first, before),
        zero_is_neutral(arithmetic),
        advanced(before, weights, arithmetic, attraction, after),
    ensures
        after.len() == 1,
        after[0].position == before[0].position,
        after[0].velocity == arithmetic.zero,
        before[0].velocity == arithmetic.zero,
        seeds[0]@.position.is_none() ==> after[0].position == arithmetic.zero,
{
    assert(built_from(seeds[0]@, arithmetic.zero, issued_after(first, 0), before[0]));
    lemma_isolated_body_drifts(
        before,
        0,
        weights,
        arithmetic,
        attraction,
        (after[0].position, after[0].velocity),
    );
}

impl<M: Copy, X: Copy> Sim<M, X> {
    /// Makes a simulation of one body per seed, in the order of the seeds.
    /// Each body gets the next identifier of `ids`. So the bodies of one
    /// simulation carry distinct identifiers, and simulations that are made
    /// with the same allocator do not share an identifier until its counter
    /// wraps. A seed without a position, or without a velocity, gets `zero`,
    /// the zero vector.
    pub fn new(ids: &mut IdAllocator, seeds: Vec<BodyBuilder<M, X>>, zero: X) -> (sim: Self)
        ensures
            seeded(seeds@, zero, old(ids).next_id(), sim@@),
            final(ids).next_id() == issued_after(old(ids).next_id(), seeds@.len()),
            distinct_ids(sim@@),
    {
        let mut system = System::new();
        let n = seeds.len();
        let mut i: usize = 0;
        while i < n
            invariant
                n == seeds@.len(),
                i <= n,
                ids.next_id() == issued_after(old(ids).next_id(), i as nat),
                seeded(seeds@.take(i as int), zero, old(ids).next_id(), system@),
            decreases n - i,
        {
            let body = seeds[i].build(ids, zero);
            system.insert(body);
            assert(seeds@.take(i as int + 1).drop_last() =~= seeds@.take(i as int));
            i += 1;
        }
        assert(seeds@.take(n as int) =~= seeds@);
        assert forall|j: int, k: int| 0 <= j < k < system@.len() implies system@[j].id != system@[k].id by {
            lemma_identifiers_differ(old(ids).next_id(), j as nat, k as nat);
        }
        Sim { system }
    }

    /// Advances every body by one step; see `System::step`.
    pub fn step<S: Copy, A, B, C, V, G>(
        &mut self,
        weights: Weights<S>,
        arithmetic: &Arithmetic<X, A, B, C, V>,
        attraction: &G,
    ) where A: Fn(X, X) -> X, B: Fn(X, X) -> X, C: Fn(S, X) -> X, V: Fn(X, X) -> X, G: Fn(M, X) -> X
        requires
            defined_everywhere(*arithmetic, *attraction),
        ensures
            advanced(old(self)@@, weights, *arithmetic, *attraction, final(self)@@),
    {
        self.system.step(weights, arithmetic, attraction);
    }

    pub fn system(&self) -> (system: &System<M, X>)
        ensures
            *system == self@,
    {
        &self.system
    }
}

} // verus!
