//! Meshes and the counts that a draw call needs from them.

use core::ops::Range;
use vstd::prelude::*;

verus! {

/// The unit triangle.
#[derive(Clone, Copy, Debug, PartialEq, Eq, Structural)]
pub struct Tri;

impl Tri {
    pub fn new() -> (tri: Self)
        ensures
            tri == Tri,
    {
        Tri
    }
}

impl Default for Tri {
    fn default() -> (tri: Self)
        ensures
            tri == Tri,
    {
        Tri::new()
    }
}

/// The vertices of a mesh and, for an indexed mesh, the order in which a
/// draw call visits them.
pub struct MeshData<Vx> {
    pub vertices: Seq<Vx>,
    pub indices: Option<Seq<u16>>,
}

impl<Vx> MeshData<Vx> {
    /// Every index names a vertex of the mesh.
    pub open spec fn well_formed(self) -> bool {
        match self.indices {
            Some(indices) => forall|k: int| 0 <= k < indices.len() ==> (#[trigger] indices[k]) < self.vertices.len(),
            None => true,
        }
    }
}

/// The order in which the two triangles of a quad visit its four corners.
pub open spec fn quad_indices() -> Seq<u16> {
    seq![0u16, 2u16, 1u16, 0u16, 3u16, 2u16]
}

/// `bytes` holds the entries of `indices` one after the other, two bytes
/// each, in the byte order of the machine: either every entry has its low
/// byte first, or every entry has its high byte first.
pub open spec fn holds_indices(bytes: Seq<u8>, indices: Seq<u16>) -> bool {
    &&& bytes.len() == 2 * indices.len()
    &&& {
        ||| forall|k: int|
            0 <= k < indices.len() ==> {
                &&& bytes[2 * k] == (#[trigger] indices[k]) % 256
                &&& bytes[2 * k + 1] == indices[k] / 256
            }
        ||| forall|k: int|
            0 <= k < indices.len() ==> {
                &&& bytes[2 * k] == (#[trigger] indices[k]) / 256
                &&& bytes[2 * k + 1] == indices[k] % 256
            }
    }
}

/// The memory of an index list, byte for byte.
///
/// This is `bytemuck::cast_slice` from `u16` to `u8`, which reinterprets the
/// slice in place. It cannot fail in this direction: bytes need no alignment
/// and two bytes make up every entry. Not proved here: that the result has
/// two bytes for each entry, and that they are the entry's bytes in the
/// byte order of the machine.
#[verifier::external_body]
fn index_memory(indices: &Vec<u16>) -> (bytes: Vec<u8>)
    ensures
        holds_indices(bytes@, indices@),
{
    bytemuck::cast_slice::<u16, u8>(indices.as_slice()).to_vec()
}

/// A list of vertices, with or without an index list. `Vx` is the type of a
/// vertex.
pub struct Mesh<Vx> {
    vertices: Vec<Vx>,
    indices: Option<Vec<u16>>,
}

impl<Vx> View for Mesh<Vx> {
    type V = MeshData<Vx>;

    closed spec fn view(&self) -> MeshData<Vx> {
        MeshData {
            vertices: self.vertices@,
            indices: match self.indices {
                Some(indices) => Some(indices@),
                None => None,
            },
        }
    }
}

impl<Vx> Mesh<Vx> {
    /// The mesh of a quad: its four corners, drawn as the two triangles
    /// (bottom left, top right, top left) and (bottom left, bottom right,
    /// top right).
    pub fn quad(bottom_left: Vx, top_left: Vx, top_right: Vx, bottom_right: Vx) -> (mesh: Self)
        ensures
            mesh@.vertices == seq![bottom_left, top_left, top_right, bottom_right],
            mesh@.indices == Some(quad_indices()),
            mesh@.well_formed(),
    {
        let vertices = vec![bottom_left, top_left, top_right, bottom_right];
        let indices: Vec<u16> = vec![0, 2, 1, 0, 3, 2];
        assert(indices@ =~= quad_indices());
        Mesh { vertices, indices: Some(indices) }
    }

    /// The mesh of a triangle: its three corners, without an index list.
    pub fn triangle(top: Vx, bottom_left: Vx, bottom_right: Vx) -> (mesh: Self)
        ensures
            mesh@.vertices == seq![top, bottom_left, bottom_right],
            mesh@.indices == None::<Seq<u16>>,
            mesh@.well_formed(),
    {
        let vertices = vec![top, bottom_left, bottom_right];
        Mesh { vertices, indices: None }
    }

    pub fn vertices(&self) -> (vertices: &[Vx])
        ensures
            vertices@ == self@.vertices,
    {
        self.vertices.as_slice()
    }

    /// The index list as the bytes that are uploaded to the index buffer, or
    /// `None` for a mesh without an index list.
    pub fn index_bytes(&self) -> (bytes: Option<Vec<u8>>)
        ensures
            match bytes {
                Some(bytes) => self@.indices.is_some() && holds_indices(bytes@, self@.indices.unwrap()),
                None => self@.indices.is_none(),
            },
    {
        match &self.indices {
            Some(indices) => Some(index_memory(indices)),
            None => None,
        }
    }

    pub fn indices(&self) -> (indices: Option<&[u16]>)
        ensures
            match indices {
                Some(indices) => self@.indices == Some(indices@),
                None => self@.indices == None::<Seq<u16>>,
            },
    {
        match &self.indices {
            Some(indices) => Some(indices.as_slice()),
            None => None,
        }
    }
}

/// A count as a draw call takes it: its low 32 bits.
pub open spec fn low_bits(count: nat) -> u32 {
    (count % 0x1_0000_0000) as u32
}

/// Cuts a count down to its low 32 bits. A count below 2^32 is unchanged.
pub fn count_for_draw(count: usize) -> (low: u32)
    ensures
        low == low_bits(count as nat),
{
    let wide = count as u64;
    let low = #[verifier::truncate] (wide as u32);
    assert(wide as u32 == wide % 0x1_0000_0000) by (bit_vector);
    low
}

/// The number of vertices of a mesh and, for an indexed mesh, the number of
/// its indices, as a draw call takes them: 32 bits wide.
#[derive(Clone, Copy, Debug, PartialEq, Eq, Structural)]
pub struct MeshDescriptor {
    pub vertices: u32,
    pub indices: Option<u32>,
}

/// The counts of `mesh`.
pub open spec fn described<Vx>(mesh: MeshData<Vx>) -> MeshDescriptor {
    MeshDescriptor {
        vertices: low_bits(mesh.vertices.len()),
        indices: match mesh.indices {
            Some(indices) => Some(low_bits(indices.len())),
            None => None,
        },
    }
}

impl MeshDescriptor {
    pub fn new<Vx>(mesh: &Mesh<Vx>) -> (descriptor: Self)
        ensures
            descriptor == described(mesh@),
    {
        let vertices = count_for_draw(mesh.vertices.len());
        let indices = match &mesh.indices {
            Some(indices) => Some(count_for_draw(indices.len())),
            None => None,
        };
        MeshDescriptor { vertices, indices }
    }

    /// Whether the mesh is drawn through an index list.
    pub fn is_indexed(&self) -> (indexed: bool)
        ensures
            indexed == self.indices.is_some(),
    {
        self.indices.is_some()
    }

    /// The range of vertices that a draw call without indices visits.
    pub fn vertices(&self) -> (range: Range<u32>)
        ensures
            range.start == 0,
            range.end == self.vertices,
    {
        0..self.vertices
    }

    /// The range of indices that an indexed draw call visits; empty for a
    /// mesh without an index list.
    pub fn indices(&self) -> (range: Range<u32>)
        ensures
            range.start == 0,
            range.end == (match self.indices {
                Some(count) => count,
                None => 0,
            }),
    {
        match self.indices {
            Some(count) => 0..count,
            None => 0..0,
        }
    }
}

} // verus!
