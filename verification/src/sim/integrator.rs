//! Gravity and the fourth-order integration stencil, over an arithmetic that
//! the caller supplies.

use crate::sim::body::{Body, BodyState};
use crate::sim::system::{
    accumulated, distinct_ids, lemma_isolated_body_feels_nothing, lemma_sweep_ignores_identifiers,
    lemma_sweep_is_deterministic, lemma_sweep_is_monotone, relation_of, same_matter, single_valued_pull, Pull,
    System,
};
use vstd::prelude::*;

verus! {

/// The arithmetic on vectors that the integrator is written in.
///
/// `plus` and `minus` are the sum and the difference of two vectors, `scale`
/// is the product of a scalar and a vector, and `times` is the product of two
/// vectors component by component. `zero` is the vector that sums start from
/// and the offset of the first sample.
pub struct Arithmetic<X, A, B, C, V> {
    pub zero: X,
    pub plus: A,
    pub minus: B,
    pub scale: C,
    pub times: V,
}

/// The scalars of one step: its length, half and a sixth of its length, and
/// the weight of the two middle samples.
pub struct Weights<S> {
    pub step: S,
    pub half_step: S,
    pub sixth_step: S,
    pub two: S,
}

impl<S: Copy> Clone for Weights<S> {
    fn clone(&self) -> (copy: Self)
        ensures
            copy == *self,
    {
        *self
    }
}

impl<S: Copy> Copy for Weights<S> {

}

/// Every operation can be called on every argument.
pub open spec fn defined_everywhere<M, X, S, A, B, C, V, G>(
    arithmetic: Arithmetic<X, A, B, C, V>,
    attraction: G,
) -> bool where A: Fn(X, X) -> X, B: Fn(X, X) -> X, C: Fn(S, X) -> X, V: Fn(X, X) -> X, G: Fn(M, X) -> X {
    &&& forall|a: X, b: X| call_requires(arithmetic.plus, (a, b))
    &&& forall|a: X, b: X| call_requires(arithmetic.minus, (a, b))
    &&& forall|s: S, a: X| call_requires(arithmetic.scale, (s, a))
    &&& forall|a: X, b: X| call_requires(arithmetic.times, (a, b))
    &&& forall|m: M, x: X| call_requires(attraction, (m, x))
}

/// The contribution of one body to the acceleration of a point at
/// `position`, as a relation: `total` is `so_far` plus the attraction that a
/// body of mass `mass` exerts across the separation from `position` to
/// `other`, the place of that body.
pub open spec fn pull_at<M, X, A, B, C, V, G>(
    arithmetic: Arithmetic<X, A, B, C, V>,
    attraction: G,
    position: X,
) -> Pull<M, X> where A: Fn(X, X) -> X, B: Fn(X, X) -> X, G: Fn(M, X) -> X {
    |so_far: X, mass: M, other: X, total: X|
        exists|separation: X, pull: X|
            {
                &&& call_ensures(arithmetic.minus, (other, position), separation)
                &&& #[trigger] call_ensures(attraction, (mass, separation), pull)
                &&& call_ensures(arithmetic.plus, (so_far, pull), total)
            }
}

/// `total` is the acceleration of the body `id`, which stands at `place`, as
/// it would be if the body stood at `place` plus `offset`: the sum, starting
/// from zero, of the attractions of all bodies of other identifiers, each
/// taken where it stands.
pub open spec fn accelerated<M, X, A, B, C, V, G>(
    bodies: Seq<BodyState<M, X>>,
    id: usize,
    place: X,
    offset: X,
    arithmetic: Arithmetic<X, A, B, C, V>,
    attraction: G,
    total: X,
) -> bool where A: Fn(X, X) -> X, B: Fn(X, X) -> X, G: Fn(M, X) -> X {
    exists|position: X|
        {
            &&& #[trigger] call_ensures(arithmetic.plus, (place, offset), position)
            &&& accumulated(bodies, id, arithmetic.zero, pull_at(arithmetic, attraction, position), total)
        }
}

/// The values that the stencil computes on its way.
///
/// `k1v` to `k4v` are the four acceleration samples and `k2r` to `k4r` the
/// position samples after the first, which is the velocity itself. An `o` is
/// the offset at which an acceleration sample is taken, a `d` is a middle
/// sample doubled, an `s` is a running sum and a `w` is a full sum weighted
/// with a sixth of the step.
pub struct Stages<X> {
    pub half_v: X,
    pub step_v: X,
    pub k1v: X,
    pub o2: X,
    pub k2v: X,
    pub k2r: X,
    pub o3: X,
    pub k3v: X,
    pub k3r: X,
    pub o4: X,
    pub k4v: X,
    pub k4r: X,
    pub d2r: X,
    pub d3r: X,
    pub s2r: X,
    pub s3r: X,
    pub s4r: X,
    pub wr: X,
    pub d2v: X,
    pub d3v: X,
    pub s2v: X,
    pub s3v: X,
    pub s4v: X,
    pub wv: X,
}

/// The stencil, stage by stage. With `r` and `v` the position and velocity
/// of the body `index` and `h` the step:
///
/// - `k1v = a(r)`, and the first position sample is `v`;
/// - `k2v = a(r + h/2 * v)` and `k2r = (h/2 * v) * k1v`;
/// - `k3v = a(r + h/2 * k2r)` and `k3r = (h/2 * v) * k2v`;
/// - `k4v = a(r + h * k3r)` and `k4r = (h * v) * k3v`;
/// - the next position is `r + h/6 * (v + 2 * k2r + 2 * k3r + k4r)`;
/// - the next velocity is `v + h/6 * (k1v + 2 * k2v + 2 * k3v + k4v)`.
///
/// Here `a` is the acceleration of the body at a displaced position, the
/// products of two vectors are taken component by component, and sums are
/// taken from left to right.
pub open spec fn staged<M, X, S, A, B, C, V, G>(
    bodies: Seq<BodyState<M, X>>,
    index: int,
    weights: Weights<S>,
    arithmetic: Arithmetic<X, A, B, C, V>,
    attraction: G,
    t: Stages<X>,
    next: (X, X),
) -> bool where A: Fn(X, X) -> X, B: Fn(X, X) -> X, C: Fn(S, X) -> X, V: Fn(X, X) -> X, G: Fn(M, X) -> X {
    let id = bodies[index].id;
    let r = bodies[index].position;
    let v = bodies[index].velocity;
    &&& call_ensures(arithmetic.scale, (weights.half_step, v), t.half_v)
    &&& call_ensures(arithmetic.scale, (weights.step, v), t.step_v)
    &&& accelerated(bodies, id, r, arithmetic.zero, arithmetic, attraction, t.k1v)
    &&& call_ensures(arithmetic.scale, (weights.half_step, v), t.o2)
    &&& accelerated(bodies, id, r, t.o2, arithmetic, attraction, t.k2v)
    &&& call_ensures(arithmetic.times, (t.half_v, t.k1v), t.k2r)
    &&& call_ensures(arithmetic.scale, (weights.half_step, t.k2r), t.o3)
    &&& accelerated(bodies, id, r, t.o3, arithmetic, attraction, t.k3v)
    &&& call_ensures(arithmetic.times, (t.half_v, t.k2v), t.k3r)
    &&& call_ensures(arithmetic.scale, (weights.step, t.k3r), t.o4)
    &&& accelerated(bodies, id, r, t.o4, arithmetic, attraction, t.k4v)
    &&& call_ensures(arithmetic.times, (t.step_v, t.k3v), t.k4r)
    &&& call_ensures(arithmetic.scale, (weights.two, t.k2r), t.d2r)
    &&& call_ensures(arithmetic.scale, (weights.two, t.k3r), t.d3r)
    &&& call_ensures(arithmetic.plus, (v, t.d2r), t.s2r)
    &&& call_ensures(arithmetic.plus, (t.s2r, t.d3r), t.s3r)
    &&& call_ensures(arithmetic.plus, (t.s3r, t.k4r), t.s4r)
    &&& call_ensures(arithmetic.scale, (weights.sixth_step, t.s4r), t.wr)
    &&& call_ensures(arithmetic.plus, (r, t.wr), next.0)
    &&& call_ensures(arithmetic.scale, (weights.two, t.k2v), t.d2v)
    &&& call_ensures(arithmetic.scale, (weights.two, t.k3v), t.d3v)
    &&& call_ensures(arithmetic.plus, (t.k1v, t.d2v), t.s2v)
    &&& call_ensures(arithmetic.plus, (t.s2v, t.d3v), t.s3v)
    &&& call_ensures(arithmetic.plus, (t.s3v, t.k4v), t.s4v)
    &&& call_ensures(arithmetic.scale, (weights.sixth_step, t.s4v), t.wv)
    &&& call_ensures(arithmetic.plus, (v, t.wv), next.1)
}

/// `next` is the position and velocity that the stencil gives for the body
/// `index` when the bodies are as in `bodies`.
pub open spec fn integrated<M, X, S, A, B, C, V, G>(
    bodies: Seq<BodyState<M, X>>,
    index: int,
    weights: Weights<S>,
    arithmetic: Arithmetic<X, A, B, C, V>,
    attraction: G,
    next: (X, X),
) -> bool where A: Fn(X, X) -> X, B: Fn(X, X) -> X, C: Fn(S, X) -> X, V: Fn(X, X) -> X, G: Fn(M, X) -> X {
    exists|t: Stages<X>| #[trigger] staged(bodies, index, weights, arithmetic, attraction, t, next)
}

/// `after` is `before` one step later: every body has moved to what the
/// stencil gives for it when all bodies are as in `before`. Each body keeps
/// its identifier and its mass, and nothing is left staged.
pub open spec fn advanced<M, X, S, A, B, C, V, G>(
    before: Seq<BodyState<M, X>>,
    weights: Weights<S>,
    arithmetic: Arithmetic<X, A, B, C, V>,
    attraction: G,
    after: Seq<BodyState<M, X>>,
) -> bool where A: Fn(X, X) -> X, B: Fn(X, X) -> X, C: Fn(S, X) -> X, V: Fn(X, X) -> X, G: Fn(M, X) -> X {
    &&& after.len() == before.len()
    &&& forall|i: int|
        0 <= i < after.len() ==> {
            &&& (#[trigger] after[i]).id == before[i].id
            &&& after[i].mass == before[i].mass
            &&& integrated(before, i, weights, arithmetic, attraction, (after[i].position, after[i].velocity))
            &&& after[i].staged_position == after[i].position
            &&& after[i].staged_velocity == after[i].velocity
        }
}

/// Adding zero changes nothing, and scaling zero or multiplying by zero
/// gives zero.
pub open spec fn zero_is_neutral<X, S, A, B, C, V>(arithmetic: Arithmetic<X, A, B, C, V>) -> bool where
    A: Fn(X, X) -> X,
    C: Fn(S, X) -> X,
    V: Fn(X, X) -> X,
 {
    &&& forall|a: X, sum: X| #[trigger] call_ensures(arithmetic.plus, (a, arithmetic.zero), sum) ==> sum == a
    &&& forall|s: S, scaled: X|
        #[trigger] call_ensures(arithmetic.scale, (s, arithmetic.zero), scaled) ==> scaled == arithmetic.zero
    &&& forall|a: X, product: X|
        #[trigger] call_ensures(arithmetic.times, (a, arithmetic.zero), product) ==> product == arithmetic.zero
}

/// Every operation gives at most one result for each argument.
pub open spec fn single_valued<M, X, S, A, B, C, V, G>(
    arithmetic: Arithmetic<X, A, B, C, V>,
    attraction: G,
) -> bool where A: Fn(X, X) -> X, B: Fn(X, X) -> X, C: Fn(S, X) -> X, V: Fn(X, X) -> X, G: Fn(M, X) -> X {
    &&& forall|a: X, b: X, p: X, q: X|
        #[trigger] call_ensures(arithmetic.plus, (a, b), p) && #[trigger] call_ensures(arithmetic.plus, (a, b), q)
            ==> p == q
    &&& forall|a: X, b: X, p: X, q: X|
        #[trigger] call_ensures(arithmetic.minus, (a, b), p) && #[trigger] call_ensures(
            arithmetic.minus,
            (a, b),
            q,
        ) ==> p == q
    &&& forall|s: S, a: X, p: X, q: X|
        #[trigger] call_ensures(arithmetic.scale, (s, a), p) && #[trigger] call_ensures(arithmetic.scale, (s, a), q)
            ==> p == q
    &&& forall|a: X, b: X, p: X, q: X|
        #[trigger] call_ensures(arithmetic.times, (a, b), p) && #[trigger] call_ensures(
            arithmetic.times,
            (a, b),
            q,
        ) ==> p == q
    &&& forall|m: M, x: X, p: X, q: X|
        #[trigger] call_ensures(attraction, (m, x), p) && #[trigger] call_ensures(attraction, (m, x), q) ==> p == q
}

/// A body without neighbours is not accelerated: when every body of the
/// system carries the identifier `id`, the acceleration of `id` is zero at
/// every offset.
pub proof fn lemma_isolated_body_is_not_accelerated<M, X, A, B, C, V, G>(
    bodies: Seq<BodyState<M, X>>,
    id: usize,
    place: X,
    offset: X,
    arithmetic: Arithmetic<X, A, B, C, V>,
    attraction: G,
    total: X,
) where A: Fn(X, X) -> X, B: Fn(X, X) -> X, G: Fn(M, X) -> X
    requires
        forall|j: int| 0 <= j < bodies.len() ==> bodies[j].id == id,
        accelerated(bodies, id, place, offset, arithmetic, attraction, total),
    ensures
        total == arithmetic.zero,
{
    let position = choose|position: X|
        {
            &&& #[trigger] call_ensures(arithmetic.plus, (place, offset), position)
            &&& accumulated(bodies, id, arithmetic.zero, pull_at(arithmetic, attraction, position), total)
        };
    lemma_isolated_body_feels_nothing(
        bodies,
        id,
        arithmetic.zero,
        pull_at(arithmetic, attraction, position),
        total,
    );
}

/// One step of a body without neighbours, in an arithmetic in which zero is
/// neutral: the body keeps its velocity, and its position moves by a sixth
/// of the step times the velocity. A body that is at rest stays where it
/// is.
///
/// The position samples after the first are products with acceleration
/// samples, which are all zero here; so only the first sample, the velocity
/// itself, is left in the sum, with the weight of a sixth.
pub proof fn lemma_isolated_body_drifts<M, X, S, A, B, C, V, G>(
    bodies: Seq<BodyState<M, X>>,
    index: int,
    weights: Weights<S>,
    arithmetic: Arithmetic<X, A, B, C, V>,
    attraction: G,
    next: (X, X),
) where A: Fn(X, X) -> X, B: Fn(X, X) -> X, C: Fn(S, X) -> X, V: Fn(X, X) -> X, G: Fn(M, X) -> X
    requires
        0 <= index < bodies.len(),
        forall|j: int| 0 <= j < bodies.len() ==> bodies[j].id == bodies[index].id,
        zero_is_neutral(arithmetic),
        integrated(bodies, index, weights, arithmetic, attraction, next),
    ensures
        next.1 == bodies[index].velocity,
        exists|drift: X|
            {
                &&& #[trigger] call_ensures(arithmetic.scale, (weights.sixth_step, bodies[index].velocity), drift)
                &&& call_ensures(arithmetic.plus, (bodies[index].position, drift), next.0)
            },
        bodies[index].velocity == arithmetic.zero ==> next.0 == bodies[index].position,
{
    let id = bodies[index].id;
    let r = bodies[index].position;
    let v = bodies[index].velocity;
    let t = choose|t: Stages<X>| #[trigger] staged(bodies, index, weights, arithmetic, attraction, t, next);
    lemma_isolated_body_is_not_accelerated(bodies, id, r, arithmetic.zero, arithmetic, attraction, t.k1v);
    lemma_isolated_body_is_not_accelerated(bodies, id, r, t.o2, arithmetic, attraction, t.k2v);
    lemma_isolated_body_is_not_accelerated(bodies, id, r, t.o3, arithmetic, attraction, t.k3v);
    lemma_isolated_body_is_not_accelerated(bodies, id, r, t.o4, arithmetic, attraction, t.k4v);
    assert(call_ensures(arithmetic.scale, (weights.sixth_step, v), t.wr));
}

/// In a single-valued arithmetic the acceleration has one value.
pub proof fn lemma_acceleration_is_deterministic<M, X, S, A, B, C, V, G>(
    bodies: Seq<BodyState<M, X>>,
    id: usize,
    place: X,
    offset: X,
    arithmetic: Arithmetic<X, A, B, C, V>,
    attraction: G,
    a: X,
    b: X,
) where A: Fn(X, X) -> X, B: Fn(X, X) -> X, C: Fn(S, X) -> X, V: Fn(X, X) -> X, G: Fn(M, X) -> X
    requires
        single_valued(arithmetic, attraction),
        accelerated(bodies, id, place, offset, arithmetic, attraction, a),
        accelerated(bodies, id, place, offset, arithmetic, attraction, b),
    ensures
        a == b,
{
    let at_a = choose|position: X|
        {
            &&& #[trigger] call_ensures(arithmetic.plus, (place, offset), position)
            &&& accumulated(bodies, id, arithmetic.zero, pull_at(arithmetic, attraction, position), a)
        };
    let at_b = choose|position: X|
        {
            &&& #[trigger] call_ensures(arithmetic.plus, (place, offset), position)
            &&& accumulated(bodies, id, arithmetic.zero, pull_at(arithmetic, attraction, position), b)
        };
    assert(at_a == at_b);
    let pull = pull_at(arithmetic, attraction, at_a);
    assert(single_valued_pull(pull));
    lemma_sweep_is_deterministic(bodies, id, arithmetic.zero, pull, a, b);
}

/// In a single-valued arithmetic the stencil has one outcome.
pub proof fn lemma_stencil_is_deterministic<M, X, S, A, B, C, V, G>(
    bodies: Seq<BodyState<M, X>>,
    index: int,
    weights: Weights<S>,
    arithmetic: Arithmetic<X, A, B, C, V>,
    attraction: G,
    a: (X, X),
    b: (X, X),
) where A: Fn(X, X) -> X, B: Fn(X, X) -> X, C: Fn(S, X) -> X, V: Fn(X, X) -> X, G: Fn(M, X) -> X
    requires
        single_valued(arithmetic, attraction),
        integrated(bodies, index, weights, arithmetic, attraction, a),
        integrated(bodies, index, weights, arithmetic, attraction, b),
    ensures
        a == b,
{
    let id = bodies[index].id;
    let r = bodies[index].position;
    let t = choose|t: Stages<X>| #[trigger] staged(bodies, index, weights, arithmetic, attraction, t, a);
    let u = choose|u: Stages<X>| #[trigger] staged(bodies, index, weights, arithmetic, attraction, u, b);
    lemma_acceleration_is_deterministic(bodies, id, r, arithmetic.zero, arithmetic, attraction, t.k1v, u.k1v);
    lemma_acceleration_is_deterministic(bodies, id, r, t.o2, arithmetic, attraction, t.k2v, u.k2v);
    lemma_acceleration_is_deterministic(bodies, id, r, t.o3, arithmetic, attraction, t.k3v, u.k3v);
    lemma_acceleration_is_deterministic(bodies, id, r, t.o4, arithmetic, attraction, t.k4v, u.k4v);
}

/// Two steps from the same bodies with the same weights, in a single-valued
/// arithmetic, end in the same bodies.
pub proof fn lemma_step_is_deterministic<M, X, S, A, B, C, V, G>(
    before: Seq<BodyState<M, X>>,
    weights: Weights<S>,
    arithmetic: Arithmetic<X, A, B, C, V>,
    attraction: G,
    a: Seq<BodyState<M, X>>,
    b: Seq<BodyState<M, X>>,
) where A: Fn(X, X) -> X, B: Fn(X, X) -> X, C: Fn(S, X) -> X, V: Fn(X, X) -> X, G: Fn(M, X) -> X
    requires
        single_valued(arithmetic, attraction),
        advanced(before, weights, arithmetic, attraction, a),
        advanced(before, weights, arithmetic, attraction, b),
    ensures
        a == b,
{
    assert forall|i: int| 0 <= i < a.len() implies a[i] == b[i] by {
        assert(a[i].id == b[i].id);
        lemma_stencil_is_deterministic(
            before,
            i,
            weights,
            arithmetic,
            attraction,
            (a[i].position, a[i].velocity),
            (b[i].position, b[i].velocity),
        );
    }
    assert(a =~= b);
}

/// Two runs that start from the same bodies and take the same steps, in a
/// single-valued arithmetic, agree after every step: if `first` and `second`
/// both begin with the same bodies and each entry follows from the one
/// before it by the step `steps[j]`, then `first[k] == second[k]`.
pub proof fn lemma_runs_agree<M, X, S, A, B, C, V, G>(
    first: Seq<Seq<BodyState<M, X>>>,
    second: Seq<Seq<BodyState<M, X>>>,
    steps: Seq<Weights<S>>,
    arithmetic: Arithmetic<X, A, B, C, V>,
    attraction: G,
    k: int,
) where A: Fn(X, X) -> X, B: Fn(X, X) -> X, C: Fn(S, X) -> X, V: Fn(X, X) -> X, G: Fn(M, X) -> X
    requires
        single_valued(arithmetic, attraction),
        first.len() == steps.len() + 1,
        second.len() == steps.len() + 1,
        first[0] == second[0],
        forall|j: int|
            0 <= j < steps.len() ==> advanced(first[j], #[trigger] steps[j], arithmetic, attraction, first[j + 1]),
        forall|j: int|
            0 <= j < steps.len() ==> advanced(second[j], #[trigger] steps[j], arithmetic, attraction, second[j + 1]),
        0 <= k <= steps.len(),
    ensures
        first[k] == second[k],
    decreases k,
{
    if k > 0 {
        lemma_runs_agree(first, second, steps, arithmetic, attraction, k - 1);
        assert(advanced(first[k - 1], steps[k - 1], arithmetic, attraction, first[k - 1 + 1]));
        assert(advanced(second[k - 1], steps[k - 1], arithmetic, attraction, second[k - 1 + 1]));
        lemma_step_is_deterministic(first[k - 1], steps[k - 1], arithmetic, attraction, first[k], second[k]);
    }
}

/// The acceleration does not depend on which identifiers the bodies carry,
/// only on which of them are left out.
pub proof fn lemma_acceleration_ignores_identifiers<M, X, A, B, C, V, G>(
    a: Seq<BodyState<M, X>>,
    id_a: usize,
    b: Seq<BodyState<M, X>>,
    id_b: usize,
    place: X,
    offset: X,
    arithmetic: Arithmetic<X, A, B, C, V>,
    attraction: G,
    total: X,
) where A: Fn(X, X) -> X, B: Fn(X, X) -> X, G: Fn(M, X) -> X
    requires
        same_matter(a, b),
        forall|j: int| 0 <= j < a.len() ==> ((#[trigger] a[j]).id == id_a <==> b[j].id == id_b),
        accelerated(a, id_a, place, offset, arithmetic, attraction, total),
    ensures
        accelerated(b, id_b, place, offset, arithmetic, attraction, total),
{
    let position = choose|position: X|
        {
            &&& #[trigger] call_ensures(arithmetic.plus, (place, offset), position)
            &&& accumulated(a, id_a, arithmetic.zero, pull_at(arithmetic, attraction, position), total)
        };
    lemma_sweep_ignores_identifiers(
        a,
        id_a,
        b,
        id_b,
        arithmetic.zero,
        pull_at(arithmetic, attraction, position),
        total,
    );
}

/// The stencil does not depend on which identifiers the bodies carry, as
/// long as no two bodies of a system share one: what it gives for a body of
/// one system it gives for the body in the same place of any system of the
/// same matter.
pub proof fn lemma_stencil_ignores_identifiers<M, X, S, A, B, C, V, G>(
    a: Seq<BodyState<M, X>>,
    b: Seq<BodyState<M, X>>,
    index: int,
    weights: Weights<S>,
    arithmetic: Arithmetic<X, A, B, C, V>,
    attraction: G,
    next: (X, X),
) where A: Fn(X, X) -> X, B: Fn(X, X) -> X, C: Fn(S, X) -> X, V: Fn(X, X) -> X, G: Fn(M, X) -> X
    requires
        same_matter(a, b),
        distinct_ids(a),
        distinct_ids(b),
        0 <= index < a.len(),
        integrated(a, index, weights, arithmetic, attraction, next),
    ensures
        integrated(b, index, weights, arithmetic, attraction, next),
{
    let id_a = a[index].id;
    let id_b = b[index].id;
    let r = a[index].position;
    assert forall|j: int| 0 <= j < a.len() implies ((#[trigger] a[j]).id == id_a <==> b[j].id == id_b) by {
        if j < index {
            assert(a[j].id != a[index].id);
            assert(b[j].id != b[index].id);
        } else if index < j {
            assert(a[index].id != a[j].id);
            assert(b[index].id != b[j].id);
        }
    }
    let t = choose|t: Stages<X>| #[trigger] staged(a, index, weights, arithmetic, attraction, t, next);
    lemma_acceleration_ignores_identifiers(a, id_a, b, id_b, r, arithmetic.zero, arithmetic, attraction, t.k1v);
    lemma_acceleration_ignores_identifiers(a, id_a, b, id_b, r, t.o2, arithmetic, attraction, t.k2v);
    lemma_acceleration_ignores_identifiers(a, id_a, b, id_b, r, t.o3, arithmetic, attraction, t.k3v);
    lemma_acceleration_ignores_identifiers(a, id_a, b, id_b, r, t.o4, arithmetic, attraction, t.k4v);
    assert(staged(b, index, weights, arithmetic, attraction, t, next));
}

/// Two systems of the same matter, each with distinct identifiers, are of
/// the same matter after a step with the same weights in a single-valued
/// arithmetic; and each still has distinct identifiers. The identifiers of
/// the one system need not be those of the other.
pub proof fn lemma_step_ignores_identifiers<M, X, S, A, B, C, V, G>(
    a: Seq<BodyState<M, X>>,
    b: Seq<BodyState<M, X>>,
    weights: Weights<S>,
    arithmetic: Arithmetic<X, A, B, C, V>,
    attraction: G,
    after_a: Seq<BodyState<M, X>>,
    after_b: Seq<BodyState<M, X>>,
) where A: Fn(X, X) -> X, B: Fn(X, X) -> X, C: Fn(S, X) -> X, V: Fn(X, X) -> X, G: Fn(M, X) -> X
    requires
        single_valued(arithmetic, attraction),
        same_matter(a, b),
        distinct_ids(a),
        distinct_ids(b),
        advanced(a, weights, arithmetic, attraction, after_a),
        advanced(b, weights, arithmetic, attraction, after_b),
    ensures
        same_matter(after_a, after_b),
        distinct_ids(after_a),
        distinct_ids(after_b),
{
    lemma_step_keeps_identities(a, weights, arithmetic, attraction, after_a);
    lemma_step_keeps_identities(b, weights, arithmetic, attraction, after_b);
    assert forall|i: int| 0 <= i < after_a.len() implies {
        &&& (#[trigger] after_a[i]).mass == after_b[i].mass
        &&& after_a[i].position == after_b[i].position
        &&& after_a[i].velocity == after_b[i].velocity
    } by {
        assert(after_a[i].mass == a[i].mass);
        assert(after_b[i].mass == b[i].mass);
        let next_a = (after_a[i].position, after_a[i].velocity);
        let next_b = (after_b[i].position, after_b[i].velocity);
        lemma_stencil_ignores_identifiers(a, b, i, weights, arithmetic, attraction, next_a);
        lemma_stencil_is_deterministic(b, i, weights, arithmetic, attraction, next_a, next_b);
    }
}

/// Two runs that start from the same matter and take the same steps, in a
/// single-valued arithmetic, are of the same matter after every step: the
/// outcome depends on the masses, positions and velocities and on the steps,
/// and on nothing else. In each run `first[0]` and `second[0]` carry distinct
/// identifiers, which need not be the same in both runs.
pub proof fn lemma_runs_agree_whatever_the_identifiers<M, X, S, A, B, C, V, G>(
    first: Seq<Seq<BodyState<M, X>>>,
    second: Seq<Seq<BodyState<M, X>>>,
    steps: Seq<Weights<S>>,
    arithmetic: Arithmetic<X, A, B, C, V>,
    attraction: G,
    k: int,
) where A: Fn(X, X) -> X, B: Fn(X, X) -> X, C: Fn(S, X) -> X, V: Fn(X, X) -> X, G: Fn(M, X) -> X
    requires
        single_valued(arithmetic, attraction),
        first.len() == steps.len() + 1,
        second.len() == steps.len() + 1,
        same_matter(first[0], second[0]),
        distinct_ids(first[0]),
        distinct_ids(second[0]),
        forall|j: int|
            0 <= j < steps.len() ==> advanced(first[j], #[trigger] steps[j], arithmetic, attraction, first[j + 1]),
        forall|j: int|
            0 <= j < steps.len() ==> advanced(second[j], #[trigger] steps[j], arithmetic, attraction, second[j + 1]),
        0 <= k <= steps.len(),
    ensures
        same_matter(first[k], second[k]),
        distinct_ids(first[k]),
        distinct_ids(second[k]),
    decreases k,
{
    if k > 0 {
        lemma_runs_agree_whatever_the_identifiers(first, second, steps, arithmetic, attraction, k - 1);
        assert(advanced(first[k - 1], steps[k - 1], arithmetic, attraction, first[k - 1 + 1]));
        assert(advanced(second[k - 1], steps[k - 1], arithmetic, attraction, second[k - 1 + 1]));
        lemma_step_ignores_identifiers(
            first[k - 1],
            second[k - 1],
            steps[k - 1],
            arithmetic,
            attraction,
            first[k],
            second[k],
        );
    }
}

/// A step changes neither how many bodies there are nor which identifiers
/// and masses they carry.
pub proof fn lemma_step_keeps_identities<M, X, S, A, B, C, V, G>(
    before: Seq<BodyState<M, X>>,
    weights: Weights<S>,
    arithmetic: Arithmetic<X, A, B, C, V>,
    attraction: G,
    after: Seq<BodyState<M, X>>,
) where A: Fn(X, X) -> X, B: Fn(X, X) -> X, C: Fn(S, X) -> X, V: Fn(X, X) -> X, G: Fn(M, X) -> X
    requires
        advanced(before, weights, arithmetic, attraction, after),
    ensures
        after.len() == before.len(),
        forall|i: int| 0 <= i < before.len() ==> (#[trigger] after[i]).id == before[i].id,
        forall|i: int| 0 <= i < before.len() ==> (#[trigger] after[i]).mass == before[i].mass,
        distinct_ids(before) ==> distinct_ids(after),
{
    if distinct_ids(before) {
        assert forall|i: int, j: int| 0 <= i < j < after.len() implies after[i].id != after[j].id by {
            assert(after[i].id == before[i].id);
            assert(after[j].id == before[j].id);
        }
    }
}

impl<M: Copy, X: Copy> System<M, X> {
    /// The gravitational acceleration that `body` would feel if it stood at
    /// its position plus `offset`, from all bodies of the system that do not
    /// carry its identifier.
    pub fn acceleration<A, B, C, V, G>(
        &self,
        body: &Body<M, X>,
        offset: X,
        arithmetic: &Arithmetic<X, A, B, C, V>,
        attraction: &G,
    ) -> (total: X) where A: Fn(X, X) -> X, B: Fn(X, X) -> X, G: Fn(M, X) -> X
        requires
            forall|a: X, b: X| call_requires(arithmetic.plus, (a, b)),
            forall|a: X, b: X| call_requires(arithmetic.minus, (a, b)),
            forall|m: M, x: X| call_requires(*attraction, (m, x)),
        ensures
            accelerated(self@, body@.id, body@.position, offset, *arithmetic, *attraction, total),
    {
        let position = (arithmetic.plus)(body.position(), offset);
        let pull = |so_far: X, mass: M, other: X| -> (total: X)
            ensures
                pull_at(*arithmetic, *attraction, position)(so_far, mass, other, total),
            {
                let separation = (arithmetic.minus)(other, position);
                let pull = attraction(mass, separation);
                (arithmetic.plus)(so_far, pull)
            };
        let total = self.sweep(body, arithmetic.zero, pull);
        proof {
            lemma_sweep_is_monotone(
                self@,
                body@.id,
                arithmetic.zero,
                relation_of(pull),
                pull_at(*arithmetic, *attraction, position),
                total,
            );
        }
        total
    }

    /// The position and velocity of the body `index` one step later, by the
    /// stencil that `staged` spells out. The system itself is not changed.
    pub fn rk4<S: Copy, A, B, C, V, G>(
        &self,
        index: usize,
        weights: Weights<S>,
        arithmetic: &Arithmetic<X, A, B, C, V>,
        attraction: &G,
    ) -> (next: (X, X)) where
        A: Fn(X, X) -> X,
        B: Fn(X, X) -> X,
        C: Fn(S, X) -> X,
        V: Fn(X, X) -> X,
        G: Fn(M, X) -> X,

        requires
            index < self@.len(),
            defined_everywhere(*arithmetic, *attraction),
        ensures
            integrated(self@, index as int, weights, *arithmetic, *attraction, next),
    {
        let body = &self.bodies()[index];
        assert(body@ == self@[index as int]);
        let r = body.position();
        let v = body.velocity();

        let half_v = (arithmetic.scale)(weights.half_step, v);
        let step_v = (arithmetic.scale)(weights.step, v);

        let k1v = self.acceleration(body, arithmetic.zero, arithmetic, attraction);
        let o2 = (arithmetic.scale)(weights.half_step, v);
        let k2v = self.acceleration(body, o2, arithmetic, attraction);
        let k2r = (arithmetic.times)(half_v, k1v);
        let o3 = (arithmetic.scale)(weights.half_step, k2r);
        let k3v = self.acceleration(body, o3, arithmetic, attraction);
        let k3r = (arithmetic.times)(half_v, k2v);
        let o4 = (arithmetic.scale)(weights.step, k3r);
        let k4v = self.acceleration(body, o4, arithmetic, attraction);
        let k4r = (arithmetic.times)(step_v, k3v);

        let d2r = (arithmetic.scale)(weights.two, k2r);
        let d3r = (arithmetic.scale)(weights.two, k3r);
        let s2r = (arithmetic.plus)(v, d2r);
        let s3r = (arithmetic.plus)(s2r, d3r);
        let s4r = (arithmetic.plus)(s3r, k4r);
        let wr = (arithmetic.scale)(weights.sixth_step, s4r);
        let position = (arithmetic.plus)(r, wr);

        let d2v = (arithmetic.scale)(weights.two, k2v);
        let d3v = (arithmetic.scale)(weights.two, k3v);
        let s2v = (arithmetic.plus)(k1v, d2v);
        let s3v = (arithmetic.plus)(s2v, d3v);
        let s4v = (arithmetic.plus)(s3v, k4v);
        let wv = (arithmetic.scale)(weights.sixth_step, s4v);
        let velocity = (arithmetic.plus)(v, wv);

        proof {
            let t = Stages {
                half_v,
                step_v,
                k1v,
                o2,
                k2v,
                k2r,
                o3,
                k3v,
                k3r,
                o4,
                k4v,
                k4r,
                d2r,
                d3r,
                s2r,
                s3r,
                s4r,
                wr,
                d2v,
                d3v,
                s2v,
                s3v,
                s4v,
                wv,
            };
            assert(staged(self@, index as int, weights, *arithmetic, *attraction, t, (position, velocity)));
        }
        (position, velocity)
    }

    /// Advances every body by one step of the stencil.
    ///
    /// The next position and velocity of every body are computed from the
    /// system as it is when the step begins; only then are they staged, and
    /// only when all are staged are they committed. So no body is ever
    /// integrated against a neighbour that has already moved.
    pub fn step<S: Copy, A, B, C, V, G>(
        &mut self,
        weights: Weights<S>,
        arithmetic: &Arithmetic<X, A, B, C, V>,
        attraction: &G,
    ) where A: Fn(X, X) -> X, B: Fn(X, X) -> X, C: Fn(S, X) -> X, V: Fn(X, X) -> X, G: Fn(M, X) -> X
        requires
            defined_everywhere(*arithmetic, *attraction),
        ensures
            advanced(old(self)@, weights, *arithmetic, *attraction, final(self)@),
    {
        let integrate = |system: &System<M, X>, index: usize, weights: Weights<S>| -> (next: (X, X))
            requires
                index < system@.len(),
            ensures
                integrated(system@, index as int, weights, *arithmetic, *attraction, next),
            {
                system.rk4(index, weights, arithmetic, attraction)
            };
        self.step_with(weights, integrate);
        proof {
            self.lemma_count_fits();
        }
        assert forall|i: int| 0 <= i < self@.len() implies integrated(
            old(self)@,
            i,
            weights,
            *arithmetic,
            *attraction,
            ((#[trigger] self@[i]).position, self@[i].velocity),
        ) by {
            let index = i as usize;
            assert(index as int == i);
            assert(call_ensures(integrate, (old(self), index, weights), (self@[i].position, self@[i].velocity)));
        }
    }
}

} // verus!
