//! The scene: a simulation and the instance records that show its bodies.

use crate::engine::mesh::{described, Mesh};
use crate::engine::object::{EngineObject, Instance, ObjectData};
use crate::sim::body::BodyState;
use crate::sim::integrator::{advanced, defined_everywhere, Arithmetic, Weights};
use crate::sim::Sim;
use vstd::prelude::*;

verus! {

/// A simulation together with the object that draws it: one instance for
/// each body, in the order of the bodies. No instance is ever added or
/// removed, so the two counts agree for as long as the scene lives.
pub struct Scene<M, X, P, R> {
    sim: Sim<M, X>,
    object: EngineObject<P, R>,
}

impl<M, X, P, R> Scene<M, X, P, R> {
    /// The simulation of the scene.
    pub closed spec fn simulation(&self) -> Sim<M, X> {
        self.sim
    }

    /// The object of the scene, as a value.
    pub closed spec fn record(&self) -> ObjectData<P, R> {
        self.object@
    }

    /// There is exactly one instance for each body. Every scene that this
    /// module hands out is well formed, and `step_sim` keeps it so.
    pub open spec fn well_formed(&self) -> bool {
        self.record().instances.len() == self.simulation()@@.len()
    }
}

/// Each instance stands where `place` puts the position of its body.
pub open spec fn placed<M, X, P, R, G: Fn(X) -> P>(
    place: G,
    bodies: Seq<BodyState<M, X>>,
    instances: Seq<Instance<P, R>>,
) -> bool {
    &&& instances.len() == bodies.len()
    &&& forall|i: int|
        0 <= i < bodies.len() ==> call_ensures(place, (bodies[i].position,), (#[trigger] instances[i]).position)
}

/// Each instance has the colour that `shade` gives to the velocity of its
/// body.
pub open spec fn shaded<M, X, P, R, H: Fn(X) -> P>(
    shade: H,
    bodies: Seq<BodyState<M, X>>,
    instances: Seq<Instance<P, R>>,
) -> bool {
    &&& instances.len() == bodies.len()
    &&& forall|i: int|
        0 <= i < bodies.len() ==> call_ensures(shade, (bodies[i].velocity,), (#[trigger] instances[i]).color)
}

/// `after` has the rotations of `before`, one for one.
pub open spec fn same_rotations<P, R>(before: Seq<Instance<P, R>>, after: Seq<Instance<P, R>>) -> bool {
    &&& after.len() == before.len()
    &&& forall|i: int| 0 <= i < before.len() ==> (#[trigger] after[i]).rotation == before[i].rotation
}

/// `after` is the scene that one frame makes of `before`: the simulation has
/// been stepped, and every instance has been moved to its body and coloured
/// by the body's velocity. The mesh and the rotations are as before.
pub open spec fn frame<M, X, P, R, S, A, B, C, V, G, Pl, Sh>(
    before: Scene<M, X, P, R>,
    weights: Weights<S>,
    arithmetic: Arithmetic<X, A, B, C, V>,
    attraction: G,
    place: Pl,
    shade: Sh,
    after: Scene<M, X, P, R>,
) -> bool where
    A: Fn(X, X) -> X,
    B: Fn(X, X) -> X,
    C: Fn(S, X) -> X,
    V: Fn(X, X) -> X,
    G: Fn(M, X) -> X,
    Pl: Fn(X) -> P,
    Sh: Fn(X) -> P,
 {
    &&& advanced(before.simulation()@@, weights, arithmetic, attraction, after.simulation()@@)
    &&& after.record().mesh == before.record().mesh
    &&& placed(place, after.simulation()@@, after.record().instances)
    &&& shaded(shade, after.simulation()@@, after.record().instances)
    &&& same_rotations(before.record().instances, after.record().instances)
}

/// However many frames are rendered, the scene has as many instances, and
/// as many bodies, as it had bodies when it was made: for a run of frames
/// `trace[0]`, `trace[1]`, ..., where `trace[0]` is well formed and each
/// scene is the frame made of the one before it, every scene up to `trace[k]`
/// has the counts of `trace[0]`.
pub proof fn lemma_instance_count_is_invariant<M, X, P, R, S, A, B, C, V, G, Pl, Sh>(
    trace: Seq<Scene<M, X, P, R>>,
    steps: Seq<Weights<S>>,
    arithmetic: Arithmetic<X, A, B, C, V>,
    attraction: G,
    place: Pl,
    shade: Sh,
    k: int,
) where
    A: Fn(X, X) -> X,
    B: Fn(X, X) -> X,
    C: Fn(S, X) -> X,
    V: Fn(X, X) -> X,
    G: Fn(M, X) -> X,
    Pl: Fn(X) -> P,
    Sh: Fn(X) -> P,

    requires
        trace.len() == steps.len() + 1,
        trace[0].well_formed(),
        forall|j: int|
            0 <= j < steps.len() ==> frame(
                trace[j],
                #[trigger] steps[j],
                arithmetic,
                attraction,
                place,
                shade,
                trace[j + 1],
            ),
        0 <= k < trace.len(),
    ensures
        trace[k].record().instances.len() == trace[0].simulation()@@.len(),
        trace[k].simulation()@@.len() == trace[0].simulation()@@.len(),
        trace[k].well_formed(),
    decreases k,
{
    if k > 0 {
        lemma_instance_count_is_invariant(trace, steps, arithmetic, attraction, place, shade, k - 1);
        assert(frame(trace[k - 1], steps[k - 1], arithmetic, attraction, place, shade, trace[k - 1 + 1]));
    }
}

impl<M: Copy, X: Copy, P: Copy, R: Copy> Scene<M, X, P, R> {
    /// Makes the scene of `sim`: an object of the given mesh with one
    /// instance for each body, placed at the body's position, all with the
    /// same rotation and colour.
    pub fn new<Vx, G: Fn(X) -> P>(sim: Sim<M, X>, mesh: &Mesh<Vx>, rotation: R, color: P, place: G) -> (scene: Self)
        requires
            forall|x: X| call_requires(place, (x,)),
        ensures
            scene.well_formed(),
            scene.simulation() == sim,
            scene.record().mesh == described(mesh@),
            placed(place, sim@@, scene.record().instances),
            forall|i: int|
                0 <= i < sim@@.len() ==> {
                    &&& (#[trigger] scene.record().instances[i]).rotation == rotation
                    &&& scene.record().instances[i].color == color
                },
    {
        let mut instances: Vec<Instance<P, R>> = Vec::new();
        let bodies = sim.system().bodies();
        let n = bodies.len();
        let mut i: usize = 0;
        while i < n
            invariant
                n == sim@@.len(),
                n == bodies@.len(),
                crate::sim::system::states(bodies@) == sim@@,
                i <= n,
                forall|x: X| call_requires(place, (x,)),
                placed(place, sim@@.take(i as int), instances@),
                forall|k: int|
                    0 <= k < i ==> {
                        &&& (#[trigger] instances@[k]).rotation == rotation
                        &&& instances@[k].color == color
                    },
            decreases n - i,
        {
            let body = &bodies[i];
            assert(body@ == sim@@[i as int]);
            instances.push(Instance::new(place(body.position()), rotation, color));
            i += 1;
        }
        assert(sim@@.take(n as int) =~= sim@@);
        Scene { sim, object: EngineObject::new(mesh, instances) }
    }

    /// Renders one frame's worth of change: steps the simulation, then moves
    /// every instance to where `place` puts its body and gives it the colour
    /// that `shade` makes of the body's velocity.
    pub fn step_sim<S: Copy, A, B, C, V, G, Pl, Sh>(
        &mut self,
        weights: Weights<S>,
        arithmetic: &Arithmetic<X, A, B, C, V>,
        attraction: &G,
        place: Pl,
        shade: Sh,
    ) where
        A: Fn(X, X) -> X,
        B: Fn(X, X) -> X,
        C: Fn(S, X) -> X,
        V: Fn(X, X) -> X,
        G: Fn(M, X) -> X,
        Pl: Fn(X) -> P,
        Sh: Fn(X) -> P,

        requires
            old(self).well_formed(),
            defined_everywhere(*arithmetic, *attraction),
            forall|x: X| call_requires(place, (x,)),
            forall|x: X| call_requires(shade, (x,)),
        ensures
            frame(*old(self), weights, *arithmetic, *attraction, place, shade, *final(self)),
            final(self).well_formed(),
    {
        self.sim.step(weights, arithmetic, attraction);
        let ghost moved = self.sim;
        let n = self.object.instances().len();
        let mut i: usize = 0;
        while i < n
            invariant
                self.sim == moved,
                n == moved@@.len(),
                n == self.object@.instances.len(),
                i <= n,
                self.object@.mesh == old(self).object@.mesh,
                forall|x: X| call_requires(place, (x,)),
                forall|x: X| call_requires(shade, (x,)),
                forall|k: int|
                    0 <= k < i ==> {
                        &&& call_ensures(place, (moved@@[k].position,), (#[trigger] self.object@.instances[k]).position)
                        &&& call_ensures(shade, (moved@@[k].velocity,), self.object@.instances[k].color)
                    },
                same_rotations(old(self).object@.instances, self.object@.instances),
            decreases n - i,
        {
            let body = &self.sim.system().bodies()[i];
            assert(body@ == moved@@[i as int]);
            let position = place(body.position());
            let color = shade(body.velocity());
            self.object.repaint(i, position, color);
            i += 1;
        }
    }

    pub fn sim(&self) -> (sim: &Sim<M, X>)
        ensures
            *sim == self.simulation(),
    {
        &self.sim
    }

    pub fn object(&self) -> (object: &EngineObject<P, R>)
        ensures
            object@ == self.record(),
    {
        &self.object
    }
}

} // verus!
