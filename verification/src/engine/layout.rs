//! How the fields of a vertex or of an instance record lie in a buffer.

use vstd::prelude::*;

verus! {

/// The size in bytes of one instance record as the vertex stage reads it: a
/// 4x4 transform matrix followed by an RGB colour, nineteen 32-bit
/// components in all.
pub const INSTANCE_RAW_SIZE: u64 = 76;

/// The type of one field: two, three or four 32-bit floats.
#[derive(Clone, Copy, Debug, PartialEq, Eq, Structural)]
pub enum VertexFormat {
    Float32x2,
    Float32x3,
    Float32x4,
}

impl VertexFormat {
    /// The number of bytes that a field of this format takes.
    pub open spec fn bytes(self) -> nat {
        match self {
            VertexFormat::Float32x2 => 8,
            VertexFormat::Float32x3 => 12,
            VertexFormat::Float32x4 => 16,
        }
    }

    pub fn size(&self) -> (size: u64)
        ensures
            size == self.bytes(),
    {
        match self {
            VertexFormat::Float32x2 => 8,
            VertexFormat::Float32x3 => 12,
            VertexFormat::Float32x4 => 16,
        }
    }
}

/// Whether a buffer is advanced once for each vertex or once for each
/// instance.
#[derive(Clone, Copy, Debug, PartialEq, Eq, Structural)]
pub enum StepMode {
    Vertex,
    Instance,
}

/// One field of a record: its format, where it begins within the record, and
/// the shader location that reads it.
#[derive(Clone, Copy, Debug, PartialEq, Eq, Structural)]
pub struct VertexAttribute {
    pub format: VertexFormat,
    pub offset: u64,
    pub shader_location: u32,
}

/// The layout of the records of a buffer.
pub struct VertexBufferLayout {
    pub array_stride: u64,
    pub step_mode: StepMode,
    pub attributes: Vec<VertexAttribute>,
}

/// The bytes taken by fields of the given formats, one after the other.
pub open spec fn total_bytes(formats: Seq<VertexFormat>) -> nat
    decreases formats.len(),
{
    if formats.len() == 0 {
        0
    } else {
        total_bytes(formats.drop_last()) + formats.last().bytes()
    }
}

/// The attributes of a record whose fields have the given formats and lie one
/// after the other without gaps, read by consecutive shader locations from
/// `first_location` on.
pub open spec fn packed_attributes(formats: Seq<VertexFormat>, first_location: u32) -> Seq<VertexAttribute> {
    Seq::new(
        formats.len(),
        |k: int|
            VertexAttribute {
                format: formats[k],
                offset: total_bytes(formats.take(k)) as u64,
                shader_location: (first_location + k) as u32,
            },
    )
}

/// In a packed record no two fields overlap and every field ends within the
/// record: the fields before `j` end where field `j` begins.
pub proof fn lemma_packed_fields_do_not_overlap(formats: Seq<VertexFormat>, i: int, j: int)
    requires
        0 <= i < j <= formats.len(),
    ensures
        total_bytes(formats.take(i)) + formats[i].bytes() <= total_bytes(formats.take(j)),
    decreases j - i,
{
    if j == i + 1 {
        assert(formats.take(j).drop_last() =~= formats.take(i));
        assert(formats.take(j).last() == formats[i]);
    } else {
        lemma_packed_fields_do_not_overlap(formats, i, j - 1);
        assert(formats.take(j).drop_last() =~= formats.take(j - 1));
    }
}

/// Lays fields of the given formats out one after the other. The stride of
/// the record is the sum of the sizes of its fields.
pub fn packed(formats: &[VertexFormat], first_location: u32, step_mode: StepMode) -> (layout: VertexBufferLayout)
    requires
        formats@.len() > 0 ==> first_location + formats@.len() - 1 <= u32::MAX,
        total_bytes(formats@) <= u64::MAX,
    ensures
        layout.array_stride == total_bytes(formats@),
        layout.step_mode == step_mode,
        layout.attributes@ == packed_attributes(formats@, first_location),
{
    let mut attributes: Vec<VertexAttribute> = Vec::new();
    let mut offset: u64 = 0;
    let mut k: usize = 0;
    assert(formats@.take(0) =~= Seq::<VertexFormat>::empty());
    while k < formats.len()
        invariant
            k <= formats@.len(),
            formats@.len() > 0 ==> first_location + formats@.len() - 1 <= u32::MAX,
            total_bytes(formats@) <= u64::MAX,
            offset == total_bytes(formats@.take(k as int)),
            attributes@ == packed_attributes(formats@.take(k as int), first_location),
        decreases formats@.len() - k,
    {
        let format = formats[k];
        let location = first_location + k as u32;
        proof {
            let seen = formats@.take(k as int + 1);
            assert(seen.drop_last() =~= formats@.take(k as int));
            assert(seen.last() == format);
            lemma_packed_fields_do_not_overlap(formats@, k as int, formats@.len() as int);
            assert(formats@.take(formats@.len() as int) =~= formats@);
            assert forall|i: int| 0 <= i <= k implies #[trigger] seen.take(i) == formats@.take(k as int).take(i) by {
                assert(seen.take(i) =~= formats@.take(k as int).take(i));
            }
            assert(formats@.take(k as int).take(k as int) =~= formats@.take(k as int));
        }
        attributes.push(VertexAttribute { format, offset, shader_location: location });
        assert(attributes@ =~= packed_attributes(formats@.take(k as int + 1), first_location)) by {
            let seen = formats@.take(k as int + 1);
            assert forall|i: int| 0 <= i <= k implies attributes@[i] == packed_attributes(seen, first_location)[i] by {
                assert(seen.take(i) == formats@.take(k as int).take(i));
                if i < k {
                    assert(attributes@[i] == packed_attributes(formats@.take(k as int), first_location)[i]);
                }
            }
        }
        offset = offset + format.size();
        k += 1;
    }
    assert(formats@.take(k as int) =~= formats@);
    VertexBufferLayout { array_stride: offset, step_mode, attributes }
}

/// The layout of a vertex: a position of three floats followed by texture
/// coordinates of two, read by the shader locations 0 and 1.
pub fn vertex_layout() -> (layout: VertexBufferLayout)
    ensures
        layout.array_stride == 20,
        layout.step_mode == StepMode::Vertex,
        layout.attributes@ == seq![
            VertexAttribute { format: VertexFormat::Float32x3, offset: 0, shader_location: 0 },
            VertexAttribute { format: VertexFormat::Float32x2, offset: 12, shader_location: 1 },
        ],
{
    let formats = vec![VertexFormat::Float32x3, VertexFormat::Float32x2];
    proof {
        lemma_two_fields(formats@);
    }
    let layout = packed(formats.as_slice(), 0, StepMode::Vertex);
    assert(layout.attributes@ =~= seq![
        VertexAttribute { format: VertexFormat::Float32x3, offset: 0, shader_location: 0 },
        VertexAttribute { format: VertexFormat::Float32x2, offset: 12, shader_location: 1 },
    ]);
    layout
}

/// The layout of a raw instance record: the four columns of the transform
/// matrix, four floats each, followed by a colour of three, read by the
/// shader locations 2 to 6.
pub fn instance_layout() -> (layout: VertexBufferLayout)
    ensures
        layout.array_stride == INSTANCE_RAW_SIZE,
        layout.step_mode == StepMode::Instance,
        layout.attributes@ == seq![
            VertexAttribute { format: VertexFormat::Float32x4, offset: 0, shader_location: 2 },
            VertexAttribute { format: VertexFormat::Float32x4, offset: 16, shader_location: 3 },
            VertexAttribute { format: VertexFormat::Float32x4, offset: 32, shader_location: 4 },
            VertexAttribute { format: VertexFormat::Float32x4, offset: 48, shader_location: 5 },
            VertexAttribute { format: VertexFormat::Float32x3, offset: 64, shader_location: 6 },
        ],
{
    let formats = vec![
        VertexFormat::Float32x4,
        VertexFormat::Float32x4,
        VertexFormat::Float32x4,
        VertexFormat::Float32x4,
        VertexFormat::Float32x3,
    ];
    proof {
        lemma_five_fields(formats@);
    }
    let layout = packed(formats.as_slice(), 2, StepMode::Instance);
    assert(layout.attributes@ =~= seq![
        VertexAttribute { format: VertexFormat::Float32x4, offset: 0, shader_location: 2 },
        VertexAttribute { format: VertexFormat::Float32x4, offset: 16, shader_location: 3 },
        VertexAttribute { format: VertexFormat::Float32x4, offset: 32, shader_location: 4 },
        VertexAttribute { format: VertexFormat::Float32x4, offset: 48, shader_location: 5 },
        VertexAttribute { format: VertexFormat::Float32x3, offset: 64, shader_location: 6 },
    ]);
    layout
}

/// The running sums of a record of two fields.
proof fn lemma_two_fields(formats: Seq<VertexFormat>)
    requires
        formats.len() == 2,
    ensures
        total_bytes(formats.take(0)) == 0,
        total_bytes(formats.take(1)) == formats[0].bytes(),
        total_bytes(formats) == formats[0].bytes() + formats[1].bytes(),
{
    lemma_running_sums(formats, 0);
    lemma_running_sums(formats, 1);
    assert(formats.take(0).len() == 0);
    assert(formats.take(2) =~= formats);
}

/// The running sums of a record of five fields.
proof fn lemma_five_fields(formats: Seq<VertexFormat>)
    requires
        formats.len() == 5,
    ensures
        total_bytes(formats.take(0)) == 0,
        total_bytes(formats.take(1)) == formats[0].bytes(),
        total_bytes(formats.take(2)) == formats[0].bytes() + formats[1].bytes(),
        total_bytes(formats.take(3)) == formats[0].bytes() + formats[1].bytes() + formats[2].bytes(),
        total_bytes(formats.take(4)) == formats[0].bytes() + formats[1].bytes() + formats[2].bytes()
            + formats[3].bytes(),
        total_bytes(formats) == formats[0].bytes() + formats[1].bytes() + formats[2].bytes()
            + formats[3].bytes() + formats[4].bytes(),
{
    lemma_running_sums(formats, 0);
    lemma_running_sums(formats, 1);
    lemma_running_sums(formats, 2);
    lemma_running_sums(formats, 3);
    lemma_running_sums(formats, 4);
    assert(formats.take(0).len() == 0);
    assert(formats.take(5) =~= formats);
}

/// Each running sum is the one before it plus the size of one more field.
pub proof fn lemma_running_sums(formats: Seq<VertexFormat>, k: int)
    requires
        0 <= k < formats.len(),
    ensures
        total_bytes(formats.take(k + 1)) == total_bytes(formats.take(k)) + formats[k].bytes(),
{
    assert(formats.take(k + 1).drop_last() =~= formats.take(k));
    assert(formats.take(k + 1).last() == formats[k]);
}

} // verus!
