//! The kinds of uniform buffer that the renderer binds.

use crate::ids::{successor, IdAllocator};
use vstd::prelude::*;
use vstd::slice::slice_to_vec;

verus! {

/// The uniform buffer that holds the size of the screen.
#[derive(Clone, Copy, Debug, PartialEq, Eq, Structural)]
pub struct ScreenBuffer;

impl ScreenBuffer {
    pub fn new() -> (buffer: Self)
        ensures
            buffer == ScreenBuffer,
    {
        ScreenBuffer
    }

    /// The label under which the buffer is created.
    pub fn label(&self) -> (label: &'static str)
        ensures
            label@ == "Screen Buffer"@,
    {
        "Screen Buffer"
    }

    /// The label under which the bind group and its layout are created.
    pub fn group_label(&self) -> (label: &'static str)
        ensures
            label@ == "screen_bind_group"@,
    {
        "screen_bind_group"
    }
}

/// The uniform buffer that holds the camera's projection.
#[derive(Clone, Copy, Debug, PartialEq, Eq, Structural)]
pub struct CameraBuffer;

impl CameraBuffer {
    pub fn new() -> (buffer: Self)
        ensures
            buffer == CameraBuffer,
    {
        CameraBuffer
    }

    /// The label under which the buffer is created.
    pub fn label(&self) -> (label: &'static str)
        ensures
            label@ == "Camera Buffer"@,
    {
        "Camera Buffer"
    }

    /// The label under which the bind group is created.
    pub fn group_label(&self) -> (label: &'static str)
        ensures
            label@ == "camera_bind_group"@,
    {
        "camera_bind_group"
    }

    /// The label under which the layout of the bind group is created.
    pub fn layout_label(&self) -> (label: &'static str)
        ensures
            label@ == "camera_bind_group_layout"@,
    {
        "camera_bind_group_layout"
    }
}

/// What a binding is, as a value: its identifier and the bytes that its
/// buffer was created with.
pub struct BindingData {
    pub id: usize,
    pub data: Seq<u8>,
}

/// The part of a uniform buffer binding that lives on this side of the
/// graphics device: an identifier by which updates are addressed to it, and
/// a copy of the bytes that the buffer was created with.
pub struct UniformBufferBinding {
    id: usize,
    data: Vec<u8>,
}

impl View for UniformBufferBinding {
    type V = BindingData;

    closed spec fn view(&self) -> BindingData {
        BindingData { id: self.id, data: self.data@ }
    }
}

impl UniformBufferBinding {
    /// Makes the binding for a buffer that holds `data`, under the next
    /// identifier of `ids`.
    pub fn bind(ids: &mut IdAllocator, data: &[u8]) -> (binding: Self)
        ensures
            binding@ == (BindingData { id: old(ids).next_id(), data: data@ }),
            final(ids).next_id() == successor(old(ids).next_id()),
    {
        UniformBufferBinding { id: ids.allocate(), data: slice_to_vec(data) }
    }

    pub fn id(&self) -> (id: usize)
        ensures
            id == self@.id,
    {
        self.id
    }

    pub fn data(&self) -> (data: &[u8])
        ensures
            data@ == self@.data,
    {
        self.data.as_slice()
    }

    /// The size of the buffer in bytes.
    pub fn len(&self) -> (len: u64)
        ensures
            len == self@.data.len(),
    {
        self.data.len() as u64
    }

    pub fn is_empty(&self) -> (empty: bool)
        ensures
            empty == (self@.data.len() == 0),
    {
        self.len() == 0
    }
}

} // verus!
