//! Per-instance records and the draw call that renders them.

use crate::engine::layout::INSTANCE_RAW_SIZE;
use crate::engine::mesh::{count_for_draw, described, low_bits, Mesh, MeshDescriptor};
use core::ops::Range;
use vstd::prelude::*;

verus! {

/// One drawn copy of a mesh: where it is, how it is turned, and its colour.
/// `P` is the type of a position and of a colour, `R` that of a rotation.
pub struct Instance<P, R> {
    pub position: P,
    pub rotation: R,
    pub color: P,
}

impl<P, R> Instance<P, R> {
    pub fn new(position: P, rotation: R, color: P) -> (instance: Self)
        ensures
            instance == (Instance { position, rotation, color }),
    {
        Instance { position, rotation, color }
    }
}

/// A range of bytes, as an offset and a size.
pub struct ByteRange {
    pub offset: u64,
    pub size: u64,
}

/// The part of an object's instance buffer that is rewritten when its
/// instances change: where it begins and how many bytes it holds, never none.
pub struct RawStageBuffer {
    offset: u64,
    size: u64,
}

impl View for RawStageBuffer {
    type V = ByteRange;

    closed spec fn view(&self) -> ByteRange {
        ByteRange { offset: self.offset, size: self.size }
    }
}

impl RawStageBuffer {
    pub fn offset(&self) -> (offset: u64)
        ensures
            offset == self@.offset,
    {
        self.offset
    }

    pub fn size(&self) -> (size: u64)
        ensures
            size == self@.size,
    {
        self.size
    }
}

/// The width of the entries of an index list.
#[derive(Clone, Copy, Debug, PartialEq, Eq, Structural)]
pub enum IndexFormat {
    Uint16,
    Uint32,
}

/// A draw call that visits the vertices of a mesh in order.
pub struct VertexDc {
    pub vertices: Range<u32>,
    pub instances: Range<u32>,
}

impl VertexDc {
    pub fn new(vertices: Range<u32>, instances: Range<u32>) -> (call: Self)
        ensures
            call == (VertexDc { vertices, instances }),
    {
        VertexDc { vertices, instances }
    }
}

/// A draw call that visits the vertices of a mesh through its index list.
pub struct IndexedDc {
    pub indices: Range<u32>,
    pub instances: Range<u32>,
    pub format: Option<IndexFormat>,
    pub base_vertex: Option<i32>,
}

impl IndexedDc {
    pub fn new(
        indices: Range<u32>,
        instances: Range<u32>,
        format: Option<IndexFormat>,
        base_vertex: Option<i32>,
    ) -> (call: Self)
        ensures
            call == (IndexedDc { indices, instances, format, base_vertex }),
    {
        IndexedDc { indices, instances, format, base_vertex }
    }

    /// The format in which the index list is read: the one given, or else
    /// 16-bit indices.
    pub fn index_format(&self) -> (format: IndexFormat)
        ensures
            format == (match self.format {
                Some(given) => given,
                None => IndexFormat::Uint16,
            }),
    {
        match self.format {
            Some(given) => given,
            None => IndexFormat::Uint16,
        }
    }

    /// The value added to each index before it is looked up: the one given,
    /// or else zero.
    pub fn first_vertex(&self) -> (base: i32)
        ensures
            base == (match self.base_vertex {
                Some(given) => given,
                None => 0,
            }),
    {
        match self.base_vertex {
            Some(given) => given,
            None => 0,
        }
    }
}

/// What it takes to draw an object: one of the two kinds of draw call.
pub enum DrawCall {
    Vertex(VertexDc),
    Indexed(IndexedDc),
}

/// The draw call for a mesh described by `mesh` with `count` instances: an
/// indexed call over all indices when the mesh has an index list, else a
/// call over all vertices; either way over all instances.
pub open spec fn draw_call_for(mesh: MeshDescriptor, count: nat) -> DrawCall {
    let instances = Range { start: 0u32, end: low_bits(count) };
    match mesh.indices {
        Some(indices) => DrawCall::Indexed(
            IndexedDc {
                indices: Range { start: 0u32, end: indices },
                instances,
                format: None,
                base_vertex: None,
            },
        ),
        None => DrawCall::Vertex(VertexDc { vertices: Range { start: 0u32, end: mesh.vertices }, instances }),
    }
}

/// What an object is, as a value.
pub struct ObjectData<P, R> {
    pub mesh: MeshDescriptor,
    pub instances: Seq<Instance<P, R>>,
}

/// A mesh together with the instances in which it is drawn.
pub struct EngineObject<P, R> {
    mesh: MeshDescriptor,
    instances: Vec<Instance<P, R>>,
}

impl<P, R> View for EngineObject<P, R> {
    type V = ObjectData<P, R>;

    closed spec fn view(&self) -> ObjectData<P, R> {
        ObjectData { mesh: self.mesh, instances: self.instances@ }
    }
}

impl<P, R> EngineObject<P, R> {
    pub fn new<Vx>(mesh: &Mesh<Vx>, instances: Vec<Instance<P, R>>) -> (object: Self)
        ensures
            object@ == (ObjectData { mesh: described(mesh@), instances: instances@ }),
    {
        EngineObject { mesh: MeshDescriptor::new(mesh), instances }
    }

    /// The bytes of the instance buffer that hold the instances: from the
    /// start of the buffer, one raw record for each instance.
    ///
    /// An object without instances has nothing to stage, and the byte count
    /// has to fit into 64 bits.
    pub fn staged_instance_buffer(&self) -> (staged: RawStageBuffer)
        requires
            0 < self@.instances.len(),
            INSTANCE_RAW_SIZE * self@.instances.len() <= u64::MAX,
        ensures
            staged@.offset == 0,
            staged@.size == INSTANCE_RAW_SIZE * self@.instances.len(),
    {
        let count = self.instances.len() as u64;
        RawStageBuffer { offset: 0, size: INSTANCE_RAW_SIZE * count }
    }

    /// The draw call that renders the object.
    pub fn odc(&self) -> (call: DrawCall)
        ensures
            call == draw_call_for(self@.mesh, self@.instances.len()),
    {
        let instances = 0..count_for_draw(self.instances.len());
        if self.mesh.is_indexed() {
            DrawCall::Indexed(IndexedDc::new(self.mesh.indices(), instances, None, None))
        } else {
            DrawCall::Vertex(VertexDc::new(self.mesh.vertices(), instances))
        }
    }

    pub fn mesh(&self) -> (mesh: &MeshDescriptor)
        ensures
            *mesh == self@.mesh,
    {
        &self.mesh
    }

    pub fn instances(&self) -> (instances: &[Instance<P, R>])
        ensures
            instances@ == self@.instances,
    {
        self.instances.as_slice()
    }

    /// The instances, for rewriting in place. Their number cannot change.
    pub fn instances_mut(&mut self) -> (instances: &mut [Instance<P, R>])
        ensures
            instances@ == old(self)@.instances,
            final(self)@.instances == final(instances)@,
            final(self)@.mesh == old(self)@.mesh,
    {
        self.instances.as_mut_slice()
    }

    /// Moves and recolours the instance at `index`. Its rotation, the other
    /// instances and the mesh stay as they are.
    pub fn repaint(&mut self, index: usize, position: P, color: P)
        requires
            index < old(self)@.instances.len(),
        ensures
            final(self)@ == (ObjectData {
                instances: old(self)@.instances.update(
                    index as int,
                    Instance { position, rotation: old(self)@.instances[index as int].rotation, color },
                ),
                ..old(self)@
            }),
    {
        self.instances[index].position = position;
        self.instances[index].color = color;
        assert(self@.instances =~= old(self)@.instances.update(
            index as int,
            Instance { position, rotation: old(self)@.instances[index as int].rotation, color },
        ));
    }
}

} // verus!
