use vstd::prelude::*;

verus! {

/// Bit pattern of the IEEE-754 single `0.0`.
pub const F32_ZERO: u32 = 0x0000_0000;

/// Bit pattern of the IEEE-754 single `1.0`.
pub const F32_ONE: u32 = 0x3F80_0000;

/// Bit pattern of the IEEE-754 single `0.5`.
pub const F32_HALF: u32 = 0x3F00_0000;

/// Bit pattern of the IEEE-754 single `-0.5`.
pub const F32_NEG_HALF: u32 = 0xBF00_0000;

/// Size in bytes of one vertex: two tightly packed groups of three 32-bit floats.
pub const VERTEX_STRIDE: u64 = 24;

/// Byte offset of the color attribute inside a vertex.
pub const COLOR_OFFSET: u64 = 12;

/// One vertex of the mesh. Each component is held as the bit pattern of an
/// IEEE-754 single, so that the layout that the GPU reads is exact.
#[derive(Clone, Copy, Debug)]
pub struct Vertex {
    pub position: [u32; 3],
    pub color: [u32; 3],
}

/// The six 32-bit words of a vertex, in memory order: position, then color.
pub open spec fn vertex_words(v: Vertex) -> Seq<u32> {
    v.position@ + v.color@
}

/// The words of a sequence of vertices, one after the other.
pub open spec fn words_of(vs: Seq<Vertex>) -> Seq<u32>
    decreases vs.len(),
{
    if vs.len() == 0 {
        Seq::empty()
    } else {
        words_of(vs.drop_last()) + vertex_words(vs.last())
    }
}

/// The four bytes of a word, least significant first.
pub open spec fn word_le(w: u32) -> Seq<u8> {
    seq![
        (w % 256) as u8,
        ((w / 256) % 256) as u8,
        ((w / 65536) % 256) as u8,
        (w / 16777216) as u8,
    ]
}

/// The bytes of a sequence of words, each little-endian, one after the other.
pub open spec fn le_bytes(ws: Seq<u32>) -> Seq<u8>
    decreases ws.len(),
{
    if ws.len() == 0 {
        Seq::empty()
    } else {
        le_bytes(ws.drop_last()) + word_le(ws.last())
    }
}

/// The triangle: a red top vertex, a green bottom-left one and a blue
/// bottom-right one, all on the plane z = 0.
pub open spec fn triangle_spec() -> Seq<Vertex> {
    seq![
        Vertex { position: [F32_ZERO, F32_HALF, F32_ZERO], color: [F32_ONE, F32_ZERO, F32_ZERO] },
        Vertex {
            position: [F32_NEG_HALF, F32_NEG_HALF, F32_ZERO],
            color: [F32_ZERO, F32_ONE, F32_ZERO],
        },
        Vertex { position: [F32_HALF, F32_NEG_HALF, F32_ZERO], color: [F32_ZERO, F32_ZERO, F32_ONE] },
    ]
}

/// The bytes that the geometry buffer is initialised with.
pub open spec fn triangle_bytes_spec() -> Seq<u8> {
    le_bytes(words_of(triangle_spec()))
}

/// The static mesh: the three vertices of the triangle.
pub fn triangle() -> (r: Vec<Vertex>)
    ensures
        r@ == triangle_spec(),
{
    let r = vec![
        Vertex { position: [F32_ZERO, F32_HALF, F32_ZERO], color: [F32_ONE, F32_ZERO, F32_ZERO] },
        Vertex {
            position: [F32_NEG_HALF, F32_NEG_HALF, F32_ZERO],
            color: [F32_ZERO, F32_ONE, F32_ZERO],
        },
        Vertex { position: [F32_HALF, F32_NEG_HALF, F32_ZERO], color: [F32_ZERO, F32_ZERO, F32_ONE] },
    ];
    assert(r@ =~= triangle_spec());
    r
}

/// Appends the four little-endian bytes of `w` to `out`.
fn push_word(out: &mut Vec<u8>, w: u32)
    ensures
        final(out)@ == old(out)@ + word_le(w),
{
    out.push((w % 256) as u8);
    out.push(((w / 256) % 256) as u8);
    out.push(((w / 65536) % 256) as u8);
    out.push((w / 16777216) as u8);
    assert(final(out)@ =~= old(out)@ + word_le(w));
}

proof fn lemma_le_bytes_append(a: Seq<u32>, b: Seq<u32>)
    ensures
        le_bytes(a + b) == le_bytes(a) + le_bytes(b),
    decreases b.len(),
{
    if b.len() == 0 {
        assert(a + b =~= a);
        assert(le_bytes(b) =~= Seq::<u8>::empty());
        assert(le_bytes(a) + le_bytes(b) =~= le_bytes(a));
    } else {
        assert((a + b).drop_last() =~= a + b.drop_last());
        assert((a + b).last() == b.last());
        lemma_le_bytes_append(a, b.drop_last());
        assert(le_bytes(a + b) =~= le_bytes(a) + le_bytes(b));
    }
}

proof fn lemma_le_bytes_len(ws: Seq<u32>)
    ensures
        le_bytes(ws).len() == 4 * ws.len(),
    decreases ws.len(),
{
    if ws.len() > 0 {
        lemma_le_bytes_len(ws.drop_last());
    }
}

proof fn lemma_words_of_len(vs: Seq<Vertex>)
    ensures
        words_of(vs).len() == 6 * vs.len(),
    decreases vs.len(),
{
    if vs.len() > 0 {
        lemma_words_of_len(vs.drop_last());
    }
}

proof fn lemma_le_bytes_single(w: u32)
    ensures
        le_bytes(seq![w]) == word_le(w),
{
    let s = seq![w];
    assert(s.drop_last() =~= Seq::<u32>::empty());
    assert(le_bytes(Seq::<u32>::empty()) == Seq::<u8>::empty());
    assert(Seq::<u8>::empty() + word_le(w) =~= word_le(w));
}

/// Appends the little-endian bytes of three words to `out`.
fn push_triple(out: &mut Vec<u8>, t: &[u32; 3])
    ensures
        final(out)@ == old(out)@ + le_bytes(t@),
{
    let ghost start = out@;
    let mut k: usize = 0;
    while k < 3
        invariant
            k <= 3,
            out@ == start + le_bytes(t@.subrange(0, k as int)),
        decreases 3 - k,
    {
        proof {
            lemma_le_bytes_append(t@.subrange(0, k as int), seq![t@[k as int]]);
            assert(t@.subrange(0, k as int) + seq![t@[k as int]] =~= t@.subrange(0, k as int + 1));
            lemma_le_bytes_single(t@[k as int]);
        }
        push_word(out, t[k]);
        assert(out@ =~= start + le_bytes(t@.subrange(0, k as int + 1)));
        k = k + 1;
    }
    assert(t@.subrange(0, 3) =~= t@);
}

/// The bytes of a sequence of vertices as the GPU reads them: every component
/// a little-endian 32-bit word, vertices tightly packed, `VERTEX_STRIDE` bytes each.
pub fn vertex_bytes(vs: &Vec<Vertex>) -> (r: Vec<u8>)
    requires
        vs@.len() * 24 <= usize::MAX,
    ensures
        r@ == le_bytes(words_of(vs@)),
        r@.len() == VERTEX_STRIDE * vs@.len(),
{
    let mut out: Vec<u8> = Vec::new();
    let mut i: usize = 0;
    while i < vs.len()
        invariant
            i <= vs@.len(),
            out@ == le_bytes(words_of(vs@.subrange(0, i as int))),
        decreases vs@.len() - i,
    {
        let v = vs[i];
        let ghost before = out@;
        push_triple(&mut out, &v.position);
        push_triple(&mut out, &v.color);
        proof {
            let pre = vs@.subrange(0, i as int);
            let post = vs@.subrange(0, i as int + 1);
            assert(post.drop_last() =~= pre);
            assert(post.last() == v);
            assert(out@ =~= before + le_bytes(v.position@) + le_bytes(v.color@));
            lemma_le_bytes_append(v.position@, v.color@);
            lemma_le_bytes_append(words_of(pre), vertex_words(v));
            assert(out@ =~= le_bytes(words_of(post)));
        }
        i = i + 1;
    }
    proof {
        assert(vs@.subrange(0, vs@.len() as int) =~= vs@);
        lemma_words_of_len(vs@);
        lemma_le_bytes_len(words_of(vs@));
    }
    out
}

/// The bytes that the geometry buffer is created with: the triangle's three
/// vertices, 72 bytes in all.
pub fn triangle_bytes() -> (r: Vec<u8>)
    ensures
        r@ == triangle_bytes_spec(),
        r@.len() == 3 * VERTEX_STRIDE,
{
    let vs = triangle();
    vertex_bytes(&vs)
}

/// Element format of a vertex attribute.
#[derive(Clone, Copy, Debug, PartialEq, Eq, Structural)]
pub enum VertexFormat {
    /// Three 32-bit floats.
    Float32x3,
}

/// How the vertex buffer is advanced.
#[derive(Clone, Copy, Debug, PartialEq, Eq, Structural)]
pub enum StepMode {
    /// One element per vertex.
    Vertex,
}

/// One attribute of the vertex layout.
#[derive(Clone, Copy, Debug, PartialEq, Eq, Structural)]
pub struct VertexAttribute {
    pub offset: u64,
    pub shader_location: u32,
    pub format: VertexFormat,
}

/// The layout in which the pipeline reads the vertex buffer.
#[derive(Debug)]
pub struct VertexLayout {
    pub array_stride: u64,
    pub step_mode: StepMode,
    pub attributes: Vec<VertexAttribute>,
}

/// The attributes of `Vertex`: the position at location 0 and the color at
/// location 1, each three floats.
pub open spec fn vertex_attributes_spec() -> Seq<VertexAttribute> {
    seq![
        VertexAttribute { offset: 0, shader_location: 0, format: VertexFormat::Float32x3 },
        VertexAttribute { offset: COLOR_OFFSET, shader_location: 1, format: VertexFormat::Float32x3 },
    ]
}

impl Vertex {
    /// The buffer layout of `Vertex` for the pipeline's single vertex slot.
    pub fn desc() -> (r: VertexLayout)
        ensures
            r.array_stride == VERTEX_STRIDE,
            r.step_mode == StepMode::Vertex,
            r.attributes@ == vertex_attributes_spec(),
    {
        let attributes = vec![
            VertexAttribute { offset: 0, shader_location: 0, format: VertexFormat::Float32x3 },
            VertexAttribute { offset: COLOR_OFFSET, shader_location: 1, format: VertexFormat::Float32x3 },
        ];
        assert(attributes@ =~= vertex_attributes_spec());
        VertexLayout { array_stride: VERTEX_STRIDE, step_mode: StepMode::Vertex, attributes }
    }
}

/// The layout agrees with the bytes: the vertices take `VERTEX_STRIDE` bytes
/// each, and each attribute's three floats lie inside its vertex.
pub proof fn lemma_layout_matches_bytes(vs: Seq<Vertex>)
    ensures
        le_bytes(words_of(vs)).len() == VERTEX_STRIDE * vs.len(),
        forall|i: int|
            0 <= i < vertex_attributes_spec().len() ==> vertex_attributes_spec()[i].offset + 12
                <= VERTEX_STRIDE,
{
    lemma_words_of_len(vs);
    lemma_le_bytes_len(words_of(vs));
}

} // verus!
