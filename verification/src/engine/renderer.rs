//! The uniform updates that wait for the next frame.

use std::collections::VecDeque;
use vstd::prelude::*;
use vstd::slice::slice_to_vec;

verus! {

/// The uniform buffers that the renderer updates between frames.
#[derive(Clone, Copy, Debug, PartialEq, Eq, Structural)]
pub enum UniformTarget {
    Camera,
    Screen,
}

/// The buffer that an update addressed to `id` is written to, given the
/// identifiers of the camera binding and of the screen binding: the camera's
/// if `id` is the camera's, else the screen's if `id` is the screen's, else
/// none, and the update is dropped.
pub open spec fn target_of(id: usize, camera: usize, screen: usize) -> Option<UniformTarget> {
    if id == camera {
        Some(UniformTarget::Camera)
    } else if id == screen {
        Some(UniformTarget::Screen)
    } else {
        None
    }
}

pub fn update_target(id: usize, camera: usize, screen: usize) -> (target: Option<UniformTarget>)
    ensures
        target == target_of(id, camera, screen),
{
    if id == camera {
        Some(UniformTarget::Camera)
    } else if id == screen {
        Some(UniformTarget::Screen)
    } else {
        None
    }
}

/// The updates that were requested and not yet written, oldest first. Each
/// is the identifier of a binding and the bytes to write into its buffer.
pub struct BufferUpdates {
    queue: VecDeque<(usize, Vec<u8>)>,
}

impl View for BufferUpdates {
    type V = Seq<(usize, Seq<u8>)>;

    closed spec fn view(&self) -> Seq<(usize, Seq<u8>)> {
        self.queue@.map_values(|update: (usize, Vec<u8>)| (update.0, update.1@))
    }
}

impl BufferUpdates {
    pub fn new() -> (updates: Self)
        ensures
            updates@ == Seq::<(usize, Seq<u8>)>::empty(),
    {
        let updates = BufferUpdates { queue: VecDeque::new() };
        assert(updates@ =~= Seq::<(usize, Seq<u8>)>::empty());
        updates
    }

    /// Queues a copy of `data` for the binding `id`, behind the updates that
    /// are already waiting.
    pub fn request_buffer_update(&mut self, id: usize, data: &[u8])
        ensures
            final(self)@ == old(self)@.push((id, data@)),
    {
        self.queue.push_back((id, slice_to_vec(data)));
        assert(self@ =~= old(self)@.push((id, data@)));
    }

    /// Takes the oldest update out of the queue, if there is one.
    pub fn next(&mut self) -> (update: Option<(usize, Vec<u8>)>)
        ensures
            match update {
                Some(update) => {
                    &&& old(self)@.len() > 0
                    &&& (update.0, update.1@) == old(self)@[0]
                    &&& final(self)@ == old(self)@.subrange(1, old(self)@.len() as int)
                },
                None => old(self)@.len() == 0 && final(self)@ == old(self)@,
            },
    {
        let update = self.queue.pop_front();
        assert(update.is_some() ==> self@ =~= old(self)@.subrange(1, old(self)@.len() as int));
        assert(update.is_none() ==> self@ =~= old(self)@);
        update
    }

    /// The number of updates that are waiting.
    pub fn len(&self) -> (len: usize)
        ensures
            len == self@.len(),
    {
        self.queue.len()
    }
}

} // verus!
