//! Vertex buffer layouts: how the bytes of a buffer map to shader inputs.

use vstd::prelude::*;

verus! {

/// The attribute formats the renderer's buffers use.
#[derive(Clone, Copy, Debug, PartialEq, Eq, Structural)]
pub enum VertexFormat {
    /// Three `f32` components.
    Float32x3,
    /// Four `f32` components.
    Float32x4,
}

impl VertexFormat {
    /// Size in bytes of one attribute of this format.
    pub open spec fn spec_size(self) -> nat {
        match self {
            VertexFormat::Float32x3 => 12,
            VertexFormat::Float32x4 => 16,
        }
    }

    pub fn size(&self) -> (r: u64)
        ensures
            r == self.spec_size(),
    {
        match self {
            VertexFormat::Float32x3 => 12,
            VertexFormat::Float32x4 => 16,
        }
    }
}

/// Whether a buffer advances once per vertex or once per instance.
#[derive(Clone, Copy, Debug, PartialEq, Eq, Structural)]
pub enum VertexStepMode {
    Vertex,
    Instance,
}

/// One shader input read from a buffer element.
#[derive(Clone, Copy, Debug, PartialEq, Eq, Structural)]
pub struct VertexAttribute {
    pub format: VertexFormat,
    /// Byte offset of the attribute within one element.
    pub offset: u64,
    pub shader_location: u32,
}

/// The stride, step rate and attributes of one vertex buffer binding.
#[derive(Debug)]
pub struct VertexBufferLayout {
    pub array_stride: u64,
    pub step_mode: VertexStepMode,
    pub attributes: Vec<VertexAttribute>,
}

/// Total byte size of attributes of the given (location, format) slots.
pub open spec fn packed_size(slots: Seq<(u32, VertexFormat)>) -> nat
    decreases slots.len(),
{
    if slots.len() == 0 {
        0
    } else {
        packed_size(slots.drop_last()) + slots.last().1.spec_size()
    }
}

/// The attributes that pack the given slots one after another, starting at offset 0.
pub open spec fn packed_attributes(slots: Seq<(u32, VertexFormat)>) -> Seq<VertexAttribute> {
    Seq::new(
        slots.len(),
        |i: int|
            VertexAttribute {
                format: slots[i].1,
                offset: packed_size(slots.take(i)) as u64,
                shader_location: slots[i].0,
            },
    )
}

/// A prefix of the slots never takes more bytes than all of them.
proof fn lemma_prefix_size(slots: Seq<(u32, VertexFormat)>, i: int)
    requires
        0 <= i <= slots.len(),
    ensures
        packed_size(slots.take(i)) <= packed_size(slots),
    decreases slots.len(),
{
    if i == slots.len() {
        assert(slots.take(i) =~= slots);
    } else {
        assert(slots.take(i) =~= slots.drop_last().take(i));
        lemma_prefix_size(slots.drop_last(), i);
    }
}

/// Lays out the given (location, format) slots back to back, as a `#[repr(C)]`
/// record of `f32` arrays is laid out: each attribute starts where the previous
/// one ends, and the stride is the sum of their sizes.
pub fn packed_layout(step_mode: VertexStepMode, slots: &Vec<(u32, VertexFormat)>) -> (r:
    VertexBufferLayout)
    requires
        packed_size(slots@) <= u64::MAX,
    ensures
        r.array_stride == packed_size(slots@),
        r.step_mode == step_mode,
        r.attributes@ == packed_attributes(slots@),
{
    let mut attributes: Vec<VertexAttribute> = Vec::new();
    let mut offset: u64 = 0;
    let mut i: usize = 0;
    while i < slots.len()
        invariant
            i <= slots.len(),
            packed_size(slots@) <= u64::MAX,
            offset == packed_size(slots@.take(i as int)),
            attributes@ == packed_attributes(slots@).take(i as int),
        decreases slots.len() - i,
    {
        let (location, format) = slots[i];
        attributes.push(VertexAttribute { format, offset, shader_location: location });
        proof {
            let next = slots@.take(i + 1);
            assert(next.drop_last() =~= slots@.take(i as int));
            assert(next.last() == slots@[i as int]);
            lemma_prefix_size(slots@, i + 1);
            assert(attributes@ =~= packed_attributes(slots@).take(i + 1));
        }
        offset = offset + format.size();
        i = i + 1;
    }
    assert(slots@.take(i as int) =~= slots@);
    assert(attributes@ =~= packed_attributes(slots@));
    VertexBufferLayout { array_stride: offset, step_mode, attributes }
}

/// Bytes of one geometry vertex: a position and a color, three `f32` each.
pub const GEOMETRY_VERTEX_SIZE: u64 = 24;

/// Bytes of one encoded instance record: a 4x4 `f32` model matrix, column by
/// column, then a three-`f32` color.
pub const INSTANCE_RECORD_SIZE: u64 = 76;

/// The geometry vertex layout: binding 0, advanced per vertex; position at
/// location 0 and color at location 1.
pub open spec fn geometry_attributes() -> Seq<VertexAttribute> {
    seq![
        VertexAttribute { format: VertexFormat::Float32x3, offset: 0, shader_location: 0 },
        VertexAttribute { format: VertexFormat::Float32x3, offset: 12, shader_location: 1 },
    ]
}

/// The instance record layout: binding 1, advanced per instance; the model
/// matrix's four columns at locations 5 to 8 and the color at location 9.
pub open spec fn instance_attributes() -> Seq<VertexAttribute> {
    seq![
        VertexAttribute { format: VertexFormat::Float32x4, offset: 0, shader_location: 5 },
        VertexAttribute { format: VertexFormat::Float32x4, offset: 16, shader_location: 6 },
        VertexAttribute { format: VertexFormat::Float32x4, offset: 32, shader_location: 7 },
        VertexAttribute { format: VertexFormat::Float32x4, offset: 48, shader_location: 8 },
        VertexAttribute { format: VertexFormat::Float32x3, offset: 64, shader_location: 9 },
    ]
}

/// Layout of the geometry vertex buffer.
pub fn geometry_vertex_layout() -> (r: VertexBufferLayout)
    ensures
        r.array_stride == GEOMETRY_VERTEX_SIZE,
        r.step_mode == VertexStepMode::Vertex,
        r.attributes@ == geometry_attributes(),
{
    let slots: Vec<(u32, VertexFormat)> = vec![(0, VertexFormat::Float32x3), (1, VertexFormat::Float32x3)];
    proof {
        let s = slots@;
        assert(s.take(0).len() == 0);
        assert(s.take(1).drop_last() =~= s.take(0));
        assert(s.take(2).drop_last() =~= s.take(1));
        assert(s.take(2) =~= s);
        assert(packed_size(s.take(0)) == 0);
        assert(packed_size(s.take(1)) == 12);
        assert(packed_size(s) == 24);
    }
    let r = packed_layout(VertexStepMode::Vertex, &slots);
    assert(r.attributes@ =~= geometry_attributes());
    r
}

/// Layout of the instance buffer.
pub fn instance_record_layout() -> (r: VertexBufferLayout)
    ensures
        r.array_stride == INSTANCE_RECORD_SIZE,
        r.step_mode == VertexStepMode::Instance,
        r.attributes@ == instance_attributes(),
{
    let slots: Vec<(u32, VertexFormat)> = vec![
        (5, VertexFormat::Float32x4),
        (6, VertexFormat::Float32x4),
        (7, VertexFormat::Float32x4),
        (8, VertexFormat::Float32x4),
        (9, VertexFormat::Float32x3),
    ];
    proof {
        let s = slots@;
        assert(s.take(0).len() == 0);
        assert(s.take(1).drop_last() =~= s.take(0));
        assert(s.take(2).drop_last() =~= s.take(1));
        assert(s.take(3).drop_last() =~= s.take(2));
        assert(s.take(4).drop_last() =~= s.take(3));
        assert(s.take(5).drop_last() =~= s.take(4));
        assert(s.take(5) =~= s);
        assert(packed_size(s.take(0)) == 0);
        assert(packed_size(s.take(1)) == 16);
        assert(packed_size(s.take(2)) == 32);
        assert(packed_size(s.take(3)) == 48);
        assert(packed_size(s.take(4)) == 64);
        assert(packed_size(s) == 76);
    }
    let r = packed_layout(VertexStepMode::Instance, &slots);
    assert(r.attributes@ =~= instance_attributes());
    r
}

} // verus!
