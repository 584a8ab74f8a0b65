//! Vertex buffer layouts: tightly packed float attributes at consecutive
//! shader locations.

use vstd::prelude::*;

verus! {

/// Format of one vertex attribute.
#[derive(Clone, Copy, PartialEq, Eq, Structural, Debug)]
pub enum AttributeFormat {
    /// Two 32-bit floats.
    Float32x2,
    /// Three 32-bit floats.
    Float32x3,
}

/// Byte size of an attribute of the given format.
pub open spec fn format_size(f: AttributeFormat) -> nat {
    match f {
        AttributeFormat::Float32x2 => 8,
        AttributeFormat::Float32x3 => 12,
    }
}

/// Total byte size of attributes of the given formats laid one after another.
pub open spec fn packed_size(formats: Seq<AttributeFormat>) -> nat
    decreases formats.len(),
{
    if formats.len() == 0 {
        0
    } else {
        packed_size(formats.drop_last()) + format_size(formats.last())
    }
}

/// One attribute of a vertex buffer layout.
#[derive(Clone, Copy, PartialEq, Eq, Structural, Debug)]
pub struct AttributeLayout {
    pub offset: u64,
    pub shader_location: u32,
    pub format: AttributeFormat,
}

/// Stride of a per-vertex buffer and the attributes read from each vertex.
pub struct VertexLayout {
    pub array_stride: u64,
    pub attributes: Vec<AttributeLayout>,
}

/// `layout` packs attributes of `formats` with no gaps, in order, at shader
/// locations `0, 1, ...`, and its stride is their total size.
pub open spec fn is_packed_layout(layout: VertexLayout, formats: Seq<AttributeFormat>) -> bool {
    &&& layout.array_stride == packed_size(formats)
    &&& layout.attributes@.len() == formats.len()
    &&& forall|i: int|
        0 <= i < formats.len() ==> #[trigger] layout.attributes@[i] == (AttributeLayout {
            offset: packed_size(formats.take(i)) as u64,
            shader_location: i as u32,
            format: formats[i],
        })
}

proof fn lemma_packed_size_bound(formats: Seq<AttributeFormat>)
    ensures
        packed_size(formats) <= 12 * formats.len(),
    decreases formats.len(),
{
    if formats.len() > 0 {
        lemma_packed_size_bound(formats.drop_last());
    }
}

/// Layout that packs attributes of the given formats one after another, at
/// shader locations in list order.
pub fn packed_layout(formats: &Vec<AttributeFormat>) -> (layout: VertexLayout)
    requires
        formats@.len() <= u32::MAX,
    ensures
        is_packed_layout(layout, formats@),
{
    let mut attributes: Vec<AttributeLayout> = Vec::new();
    let mut offset: u64 = 0;
    let mut i: usize = 0;
    while i < formats.len()
        invariant
            i <= formats@.len(),
            formats@.len() <= u32::MAX,
            offset == packed_size(formats@.take(i as int)),
            attributes@.len() == i,
            forall|k: int|
                0 <= k < i ==> #[trigger] attributes@[k] == (AttributeLayout {
                    offset: packed_size(formats@.take(k)) as u64,
                    shader_location: k as u32,
                    format: formats@[k],
                }),
        decreases formats@.len() - i,
    {
        let f = formats[i];
        proof {
            assert(formats@.take(i + 1).drop_last() =~= formats@.take(i as int));
            lemma_packed_size_bound(formats@.take(i + 1));
        }
        attributes.push(AttributeLayout { offset, shader_location: i as u32, format: f });
        let size: u64 = match f {
            AttributeFormat::Float32x2 => 8,
            AttributeFormat::Float32x3 => 12,
        };
        offset = offset + size;
        i = i + 1;
    }
    assert(formats@.take(i as int) =~= formats@);
    VertexLayout { array_stride: offset, attributes }
}

/// Formats of the model vertex: position, texture coordinates, normal,
/// tangent and bitangent.
pub open spec fn model_vertex_formats() -> Seq<AttributeFormat> {
    seq![
        AttributeFormat::Float32x3,
        AttributeFormat::Float32x2,
        AttributeFormat::Float32x3,
        AttributeFormat::Float32x3,
        AttributeFormat::Float32x3,
    ]
}

/// Layout of the model vertex buffer: position at byte 0, texture
/// coordinates at 12, normal at 20, tangent at 32, bitangent at 44, in
/// shader locations 0 to 4, stride 56.
pub fn model_vertex_layout() -> (layout: VertexLayout)
    ensures
        is_packed_layout(layout, model_vertex_formats()),
        layout.array_stride == 56,
        layout.attributes@.len() == 5,
        layout.attributes@[0].offset == 0,
        layout.attributes@[1].offset == 12,
        layout.attributes@[2].offset == 20,
        layout.attributes@[3].offset == 32,
        layout.attributes@[4].offset == 44,
{
    let mut formats: Vec<AttributeFormat> = Vec::new();
    formats.push(AttributeFormat::Float32x3);
    formats.push(AttributeFormat::Float32x2);
    formats.push(AttributeFormat::Float32x3);
    formats.push(AttributeFormat::Float32x3);
    formats.push(AttributeFormat::Float32x3);
    assert(formats@ =~= model_vertex_formats());
    let layout = packed_layout(&formats);
    let ghost f = model_vertex_formats();
    assert(f.take(0) =~= seq![]);
    assert(f.take(1).drop_last() =~= f.take(0));
    assert(f.take(2).drop_last() =~= f.take(1));
    assert(f.take(3).drop_last() =~= f.take(2));
    assert(f.take(4).drop_last() =~= f.take(3));
    assert(f.take(5).drop_last() =~= f.take(4));
    assert(f.take(5) =~= f);
    layout
}

/// In a packed layout each attribute ends exactly where the next begins,
/// and the last one ends at the stride: attributes never overlap and all
/// lie inside one vertex.
pub proof fn lemma_packed_contiguous(layout: VertexLayout, formats: Seq<AttributeFormat>, i: int)
    requires
        is_packed_layout(layout, formats),
        0 <= i < formats.len(),
        packed_size(formats) <= u64::MAX,
    ensures
        layout.attributes@[i].offset + format_size(formats[i]) == if i + 1 < formats.len() {
            layout.attributes@[i + 1].offset as int
        } else {
            layout.array_stride as int
        },
{
    assert(formats.take(i + 1).drop_last() =~= formats.take(i));
    lemma_prefix_monotone(formats, i + 1);
    if i + 1 < formats.len() {
        assert(layout.attributes@[i + 1].offset == packed_size(formats.take(i + 1)) as u64);
    } else {
        assert(formats.take(i + 1) =~= formats);
    }
}

/// Sizes of prefixes never exceed the size of the whole list.
proof fn lemma_prefix_monotone(formats: Seq<AttributeFormat>, n: int)
    requires
        0 <= n <= formats.len(),
    ensures
        packed_size(formats.take(n)) <= packed_size(formats),
    decreases formats.len(),
{
    if n < formats.len() {
        assert(formats.drop_last().take(n) =~= formats.take(n));
        lemma_prefix_monotone(formats.drop_last(), n);
    } else {
        assert(formats.take(n) =~= formats);
    }
}

/// Binding numbers of a bind group whose resources are bound in list order:
/// resource `i` at binding `i`.
pub fn sequential_bindings(count: usize) -> (bindings: Vec<u32>)
    ensures
        bindings@.len() == count,
        forall|i: int| 0 <= i < count ==> #[trigger] bindings@[i] == i as u32,
{
    let mut bindings: Vec<u32> = Vec::new();
    let mut i: usize = 0;
    while i < count
        invariant
            i <= count,
            bindings@.len() == i,
            forall|k: int| 0 <= k < i ==> #[trigger] bindings@[k] == k as u32,
        decreases count - i,
    {
        bindings.push(i as u32);
        i = i + 1;
    }
    bindings
}

} // verus!
