use vstd::prelude::*;

verus! {

/// Format of one vertex attribute; every component is a 32-bit float.
#[derive(Clone, Copy, Debug, PartialEq, Eq, Structural)]
pub enum ElementFormat {
    /// Three 32-bit floats.
    Float3,
    /// Four 32-bit floats.
    Float4,
}

/// The shader input that a vertex attribute feeds.
#[derive(Clone, Copy, Debug, PartialEq, Eq, Structural)]
pub enum Semantic {
    Position,
    Color,
}

/// One attribute of a vertex, in the order in which it is stored.
#[derive(Clone, Copy, Debug, PartialEq, Eq, Structural)]
pub struct Attribute {
    pub semantic: Semantic,
    pub format: ElementFormat,
}

/// One input element of an input layout: an attribute and its byte offset
/// inside the vertex.
#[derive(Clone, Copy, Debug, PartialEq, Eq, Structural)]
pub struct InputElement {
    pub semantic: Semantic,
    pub format: ElementFormat,
    pub offset: u32,
}

/// Bytes taken by one attribute of the given format.
pub open spec fn format_size(f: ElementFormat) -> nat {
    match f {
        ElementFormat::Float3 => 12,
        ElementFormat::Float4 => 16,
    }
}

/// Bytes taken by the attributes stored one after the other, with no gap.
pub open spec fn packed_size(attrs: Seq<Attribute>) -> nat
    decreases attrs.len(),
{
    if attrs.len() == 0 {
        0
    } else {
        packed_size(attrs.drop_last()) + format_size(attrs.last().format)
    }
}

/// The input element of the attribute at `i` when the attributes are packed:
/// its offset is the size of all the attributes before it.
pub open spec fn packed_element(attrs: Seq<Attribute>, i: int) -> InputElement {
    InputElement {
        semantic: attrs[i].semantic,
        format: attrs[i].format,
        offset: packed_size(attrs.take(i)) as u32,
    }
}

/// A prefix of the attributes never takes more bytes than a longer prefix.
pub proof fn lemma_packed_size_prefix(attrs: Seq<Attribute>, j: int, k: int)
    requires
        0 <= j <= k <= attrs.len(),
    ensures
        packed_size(attrs.take(j)) <= packed_size(attrs.take(k)),
    decreases k - j,
{
    if j < k {
        lemma_packed_size_prefix(attrs, j, k - 1);
        assert(attrs.take(k).drop_last() =~= attrs.take(k - 1));
    }
}

/// Bytes taken by one attribute of the given format.
pub fn element_size(f: ElementFormat) -> (r: u32)
    ensures
        r == format_size(f),
{
    match f {
        ElementFormat::Float3 => 12,
        ElementFormat::Float4 => 16,
    }
}

/// The input elements of a vertex whose attributes are packed one after the
/// other, and the stride from one vertex to the next.
pub struct VertexLayout {
    pub elements: Vec<InputElement>,
    pub stride: u32,
}

impl VertexLayout {
    /// This layout packs `attrs`: one element per attribute, in order, each at
    /// the offset where the previous one ends, and a stride of their total size.
    pub open spec fn packs(&self, attrs: Seq<Attribute>) -> bool {
        &&& self.elements@.len() == attrs.len()
        &&& self.stride == packed_size(attrs)
        &&& forall|i: int| 0 <= i < attrs.len() ==> self.elements@[i] == packed_element(attrs, i)
    }

    /// Packs the attributes; `None` when their total size does not fit in a `u32`.
    pub fn pack(attrs: &Vec<Attribute>) -> (r: Option<VertexLayout>)
        ensures
            r is Some <==> packed_size(attrs@) <= u32::MAX,
            r matches Some(l) ==> l.packs(attrs@),
    {
        let mut elements: Vec<InputElement> = Vec::new();
        let mut offset: u32 = 0;
        let mut i: usize = 0;
        while i < attrs.len()
            invariant
                i <= attrs@.len(),
                offset == packed_size(attrs@.take(i as int)),
                elements@.len() == i,
                forall|j: int| 0 <= j < i ==> elements@[j] == packed_element(attrs@, j),
            decreases attrs@.len() - i,
        {
            let a = attrs[i];
            assert(attrs@.take(i + 1).drop_last() =~= attrs@.take(i as int));
            let size = element_size(a.format);
            match offset.checked_add(size) {
                Some(next) => {
                    elements.push(InputElement { semantic: a.semantic, format: a.format, offset });
                    offset = next;
                    i = i + 1;
                },
                None => {
                    proof {
                        lemma_packed_size_prefix(attrs@, i + 1, attrs@.len() as int);
                        assert(attrs@.take(attrs@.len() as int) =~= attrs@);
                    }
                    return None;
                },
            }
        }
        assert(attrs@.take(attrs@.len() as int) =~= attrs@);
        Some(VertexLayout { elements, stride: offset })
    }

    /// Byte width of a buffer that holds `count` vertices of this layout;
    /// `None` when it does not fit in a `u32`.
    pub fn buffer_width(&self, count: u32) -> (r: Option<u32>)
        ensures
            r == (if self.stride * count <= u32::MAX {
                Some((self.stride * count) as u32)
            } else {
                None::<u32>
            }),
    {
        self.stride.checked_mul(count)
    }
}

/// Number of vertices of the triangle.
pub const TRIANGLE_VERTEX_COUNT: u32 = 3;

/// The attributes of a triangle vertex: a position of
/// three floats, then a colour of four.
pub open spec fn triangle_attrs() -> Seq<Attribute> {
    seq![
        Attribute { semantic: Semantic::Position, format: ElementFormat::Float3 },
        Attribute { semantic: Semantic::Color, format: ElementFormat::Float4 },
    ]
}

/// The attributes of a triangle vertex: a position, then a colour.
pub fn triangle_attributes() -> (r: Vec<Attribute>)
    ensures
        r@ == triangle_attrs(),
{
    let r = vec![
        Attribute { semantic: Semantic::Position, format: ElementFormat::Float3 },
        Attribute { semantic: Semantic::Color, format: ElementFormat::Float4 },
    ];
    assert(r@ =~= triangle_attrs());
    r
}

/// The packed layout of a triangle vertex: the position at byte 0, the colour
/// at byte 12, and 28 bytes from one vertex to the next.
pub fn triangle_layout() -> (r: VertexLayout)
    ensures
        r.packs(triangle_attrs()),
        r.stride == 28,
        r.elements@ == seq![
            InputElement { semantic: Semantic::Position, format: ElementFormat::Float3, offset: 0 },
            InputElement { semantic: Semantic::Color, format: ElementFormat::Float4, offset: 12 },
        ],
{
    let attrs = triangle_attributes();
    let ghost a = triangle_attrs();
    assert(a.take(0) =~= Seq::<Attribute>::empty());
    assert(a.take(1).drop_last() =~= a.take(0));
    assert(a.drop_last() =~= a.take(1));
    assert(packed_size(a.take(1)) == 12);
    assert(packed_size(a) == 28);
    let r = VertexLayout::pack(&attrs).unwrap();
    assert(r.elements@ =~= seq![
        packed_element(a, 0),
        packed_element(a, 1),
    ]);
    r
}

/// Byte width of the vertex buffer that holds the triangle: three vertices of
/// 28 bytes.
pub fn triangle_buffer_width() -> (r: u32)
    ensures
        r == 84,
{
    let layout = triangle_layout();
    layout.buffer_width(TRIANGLE_VERTEX_COUNT).unwrap()
}

} // verus!
