use vstd::prelude::*;

verus! {

/// Number of vertices of the quad.
pub const VERTEX_COUNT: usize = 4;

/// Number of indices drawn each frame: two triangles.
pub const INDEX_COUNT: u32 = 6;

/// Byte distance between two consecutive vertices (two `f32` triples).
pub const VERTEX_STRIDE: u64 = 24;

/// Byte offset of the position attribute inside a vertex.
pub const POSITION_OFFSET: u64 = 0;

/// Byte offset of the color attribute inside a vertex.
pub const COLOR_OFFSET: u64 = 12;

/// The index list of the quad, as a mathematical sequence.
pub open spec fn quad_index_seq() -> Seq<u16> {
    seq![3u16, 2u16, 1u16, 3u16, 0u16, 1u16]
}

/// Every index refers to one of the quad's vertices.
pub open spec fn indices_in_range(s: Seq<u16>) -> bool {
    forall|k: int| 0 <= k < s.len() ==> (#[trigger] s[k]) < VERTEX_COUNT
}

/// The quad's indices: triangles (3, 2, 1) and (3, 0, 1).
pub fn quad_indices() -> (r: Vec<u16>)
    ensures
        r@ == quad_index_seq(),
{
    let r: Vec<u16> = vec![3, 2, 1, 3, 0, 1];
    assert(r@ =~= quad_index_seq());
    r
}

/// The index count handed to the draw call for a given index list.
pub fn index_count(indices: &Vec<u16>) -> (r: u32)
    requires
        indices@.len() <= u32::MAX,
    ensures
        r == indices@.len(),
{
    indices.len() as u32
}

/// The quad's index list holds six indices, each naming one of its four
/// vertices, so one draw of six indices covers it whole.
pub proof fn lemma_quad_indices_valid()
    ensures
        quad_index_seq().len() == INDEX_COUNT,
        indices_in_range(quad_index_seq()),
{
    assert forall|k: int| 0 <= k < quad_index_seq().len() implies (#[trigger] quad_index_seq()[k])
        < VERTEX_COUNT by {}
}

/// The bytes hold each index in two bytes, least significant byte first.
pub open spec fn pairs_little_endian(b: Seq<u8>, s: Seq<u16>) -> bool {
    forall|k: int|
        0 <= k < s.len() ==> b[2 * k] as int + 256 * b[2 * k + 1] as int == (#[trigger] s[k]) as int
}

/// The bytes hold each index in two bytes, most significant byte first.
pub open spec fn pairs_big_endian(b: Seq<u8>, s: Seq<u16>) -> bool {
    forall|k: int|
        0 <= k < s.len() ==> 256 * b[2 * k] as int + b[2 * k + 1] as int == (#[trigger] s[k]) as int
}

/// The bytes are the indices in the machine's byte order, two for each.
pub open spec fn index_bytes_of(b: Seq<u8>, s: Seq<u16>) -> bool {
    &&& b.len() == 2 * s.len()
    &&& pairs_little_endian(b, s) || pairs_big_endian(b, s)
}

/// Relies on bytemuck::cast_slice from `u16` to `u8`: the same memory seen
/// as bytes, two for each index in the machine's byte order. With the
/// target's alignment of one and a size that divides every input, the cast
/// never fails.
#[verifier::external_body]
fn cast_indices_to_bytes(indices: &[u16]) -> (r: Vec<u8>)
    ensures
        r@.len() == 2 * indices@.len(),
        pairs_little_endian(r@, indices@) || pairs_big_endian(r@, indices@),
{
    bytemuck::cast_slice::<u16, u8>(indices).to_vec()
}

/// The bytes of an index buffer, as uploaded with 16-bit index format.
pub fn index_buffer_bytes(indices: &Vec<u16>) -> (r: Vec<u8>)
    ensures
        index_bytes_of(r@, indices@),
{
    cast_indices_to_bytes(indices.as_slice())
}

/// Read back in either byte order, the bytes of the quad's index buffer
/// are its six indices, each naming one of its four vertices.
pub proof fn lemma_quad_index_bytes_in_range(b: Seq<u8>)
    requires
        index_bytes_of(b, quad_index_seq()),
    ensures
        b.len() == 2 * INDEX_COUNT,
        forall|k: int|
            0 <= k < INDEX_COUNT ==> (#[trigger] quad_index_seq()[k]) < VERTEX_COUNT && (
            b[2 * k] as int + 256 * b[2 * k + 1] as int == quad_index_seq()[k] as int || 256 * b[2
                * k] as int + b[2 * k + 1] as int == quad_index_seq()[k] as int),
{
    lemma_quad_indices_valid();
}

} // verus!
