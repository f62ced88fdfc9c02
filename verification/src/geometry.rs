use vstd::prelude::*;

use crate::error::RendererError;

verus! {

broadcast use vstd::std_specs::vec::group_vec_axioms;

/// Byte stride of one vertex in a draw list's raw vertex buffer.
pub const VERTEX_STRIDE: usize = 20;

/// Byte offset of the position field (two little-endian 32-bit lanes).
pub const VERTEX_POS_OFFSET: usize = 0;

/// Byte offset of the texture-coordinate field (two little-endian 32-bit lanes).
pub const VERTEX_UV_OFFSET: usize = 8;

/// Byte offset of the packed RGBA color field (four bytes).
pub const VERTEX_COL_OFFSET: usize = 16;

/// One vertex of the fixed layout: 2 x 32-bit position, 2 x 32-bit texture
/// coordinate, 4 x 8-bit unsigned normalized color. The 32-bit lanes carry
/// the bit patterns read from the raw buffer; the embedding layer
/// reinterprets them as the backend's scalar type when uploading.
#[derive(Clone, Copy, Debug, PartialEq, Eq, Structural)]
pub struct DrawVert {
    pub pos_x_bits: u32,
    pub pos_y_bits: u32,
    pub uv_x_bits: u32,
    pub uv_y_bits: u32,
    pub col_r: u8,
    pub col_g: u8,
    pub col_b: u8,
    pub col_a: u8,
}

/// The little-endian 32-bit value stored at byte offset `off`.
pub open spec fn le32(b: Seq<u8>, off: int) -> int {
    b[off] + b[off + 1] * 0x100 + b[off + 2] * 0x10000 + b[off + 3] * 0x1000000
}

/// `v` is the vertex encoded at index `i` of the raw buffer `b`.
pub open spec fn vertex_matches(b: Seq<u8>, i: int, v: DrawVert) -> bool {
    let base = i * (VERTEX_STRIDE as int);
    &&& v.pos_x_bits == le32(b, base + VERTEX_POS_OFFSET as int)
    &&& v.pos_y_bits == le32(b, base + VERTEX_POS_OFFSET as int + 4)
    &&& v.uv_x_bits == le32(b, base + VERTEX_UV_OFFSET as int)
    &&& v.uv_y_bits == le32(b, base + VERTEX_UV_OFFSET as int + 4)
    &&& v.col_r == b[base + VERTEX_COL_OFFSET as int]
    &&& v.col_g == b[base + VERTEX_COL_OFFSET as int + 1]
    &&& v.col_b == b[base + VERTEX_COL_OFFSET as int + 2]
    &&& v.col_a == b[base + VERTEX_COL_OFFSET as int + 3]
}

/// `vs` is exactly the vertex sequence encoded by the raw buffer `b`.
pub open spec fn vertices_match(b: Seq<u8>, vs: Seq<DrawVert>) -> bool {
    &&& vs.len() * (VERTEX_STRIDE as int) == b.len()
    &&& forall|i: int| 0 <= i < vs.len() ==> vertex_matches(b, i, #[trigger] vs[i])
}

/// Reads the little-endian 32-bit value at byte offset `off`.
fn read_u32_le(bytes: &Vec<u8>, off: usize) -> (r: u32)
    requires
        off + 4 <= bytes.len(),
    ensures
        r == le32(bytes@, off as int),
{
    (bytes[off] as u32) + (bytes[off + 1] as u32) * 0x100 + (bytes[off + 2] as u32) * 0x10000 + (
    bytes[off + 3] as u32) * 0x1000000
}

/// The checked conversion of a draw list's raw vertex bytes into typed
/// vertices: succeeds exactly when the buffer length is a whole number of
/// vertex strides, and then yields the encoded vertex sequence; a mismatched
/// length is a vertex-buffer failure.
pub fn build_vertices(bytes: &Vec<u8>) -> (r: Result<Vec<DrawVert>, RendererError>)
    ensures
        r is Ok <==> bytes@.len() as int % (VERTEX_STRIDE as int) == 0,
        r matches Ok(vs) ==> vertices_match(bytes@, vs@),
        r matches Err(e) ==> e == RendererError::Vertex,
{
    if bytes.len() % VERTEX_STRIDE != 0 {
        return Err(RendererError::Vertex);
    }
    let count = bytes.len() / VERTEX_STRIDE;
    proof {
        vstd::arithmetic::div_mod::lemma_fundamental_div_mod(
            bytes.len() as int,
            VERTEX_STRIDE as int,
        );
    }
    let mut vs: Vec<DrawVert> = Vec::new();
    let mut i: usize = 0;
    while i < count
        invariant
            i <= count,
            count * 20 == bytes.len(),
            vs@.len() == i,
            forall|k: int| 0 <= k < i ==> vertex_matches(bytes@, k, #[trigger] vs@[k]),
        decreases count - i,
    {
        proof {
            assert((i + 1) * 20 <= count * 20) by (nonlinear_arith)
                requires
                    i + 1 <= count,
            ;
        }
        let base = i * VERTEX_STRIDE;
        let v = DrawVert {
            pos_x_bits: read_u32_le(bytes, base),
            pos_y_bits: read_u32_le(bytes, base + 4),
            uv_x_bits: read_u32_le(bytes, base + 8),
            uv_y_bits: read_u32_le(bytes, base + 12),
            col_r: bytes[base + 16],
            col_g: bytes[base + 17],
            col_b: bytes[base + 18],
            col_a: bytes[base + 19],
        };
        vs.push(v);
        i = i + 1;
    }
    Ok(vs)
}

} // verus!
