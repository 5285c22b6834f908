//! The fixed layout of the per-frame uniform data: three matrices of
//! sixteen words each, one behind the other, and the camera's own block.

use crate::bytes::{buffer_bytes, lemma_image_of_part, memory_image};
use vstd::prelude::*;

verus! {

/// Bytes in one word of a buffer.
pub const WORD_BYTES: u64 = 4;

/// Words in one 4 x 4 matrix.
pub const MATRIX_WORDS: usize = 16;

/// Bytes in one 4 x 4 matrix.
pub const MATRIX_BYTES: u64 = 64;

/// Byte offset of the model matrix in the uniform block.
pub const MODEL_OFFSET: u64 = 0;

/// Byte offset of the view-projection matrix in the uniform block.
pub const VIEW_PROJECTION_OFFSET: u64 = 64;

/// Byte offset of the normal matrix in the uniform block.
pub const NORMAL_OFFSET: u64 = 128;

/// Size of the uniform block in bytes.
pub const UNIFORM_BLOCK_BYTES: u64 = 192;

/// Bit pattern of the single-precision number 1.
pub const ONE: u32 = 0x3F80_0000;

/// Bit pattern of the single-precision number -1.
pub const MINUS_ONE: u32 = 0xBF80_0000;

/// Bit pattern of the single-precision number 0.
pub const ZERO: u32 = 0;

/// The view-projection matrix as the camera's bind group takes it, four
/// rows of four bit patterns.
#[derive(Clone, Copy, Debug, PartialEq, Eq)]
pub struct CameraUniform {
    pub view_proj: [[u32; 4]; 4],
}

/// The rows of a matrix one behind the other.
pub open spec fn flattened(m: [[u32; 4]; 4]) -> Seq<u32> {
    Seq::new(16, |i: int| m@[i / 4]@[i % 4])
}

/// The identity matrix.
pub open spec fn identity_words() -> Seq<u32> {
    Seq::new(
        16,
        |i: int|
            if i / 4 == i % 4 {
                ONE
            } else {
                ZERO
            },
    )
}

/// The rows of a matrix one behind the other: entry (r, c) becomes word
/// `4 * r + c`.
pub fn flatten(m: [[u32; 4]; 4]) -> (flat: [u32; 16])
    ensures
        flat@ == flattened(m),
{
    let flat: [u32; 16] = [
        m[0][0],
        m[0][1],
        m[0][2],
        m[0][3],
        m[1][0],
        m[1][1],
        m[1][2],
        m[1][3],
        m[2][0],
        m[2][1],
        m[2][2],
        m[2][3],
        m[3][0],
        m[3][1],
        m[3][2],
        m[3][3],
    ];
    assert(flat@ =~= flattened(m));
    flat
}

impl CameraUniform {
    /// A uniform that holds the identity matrix.
    pub fn new() -> (uniform: CameraUniform)
        ensures
            flattened(uniform.view_proj) == identity_words(),
    {
        let uniform = CameraUniform {
            view_proj: [
                [ONE, ZERO, ZERO, ZERO],
                [ZERO, ONE, ZERO, ZERO],
                [ZERO, ZERO, ONE, ZERO],
                [ZERO, ZERO, ZERO, ONE],
            ],
        };
        assert(flattened(uniform.view_proj) =~= identity_words());
        uniform
    }

    /// The words of the camera's own block: the matrix, rows one behind
    /// the other.
    pub fn words(&self) -> (block: Vec<u32>)
        ensures
            block@ == flattened(self.view_proj),
    {
        let flat = flatten(self.view_proj);
        let mut block: Vec<u32> = Vec::new();
        append_matrix(&mut block, &flat);
        assert(block@ =~= flattened(self.view_proj));
        block
    }
}

/// The word of a block at which the byte offset `offset` lies.
pub open spec fn word_at(offset: u64) -> int {
    offset as int / WORD_BYTES as int
}

/// The matrix that a block of words holds from the byte offset `offset`
/// on.
pub open spec fn matrix_at(block: Seq<u32>, offset: u64) -> Seq<u32> {
    block.subrange(word_at(offset), word_at(offset) + MATRIX_WORDS)
}

/// Appends the sixteen words of a matrix.
pub fn append_matrix(block: &mut Vec<u32>, matrix: &[u32; 16])
    ensures
        final(block)@ == old(block)@ + matrix@,
{
    let ghost before = block@;
    let mut i: usize = 0;
    while i < MATRIX_WORDS
        invariant
            i <= MATRIX_WORDS,
            block@ == before + matrix@.take(i as int),
        decreases MATRIX_WORDS - i,
    {
        block.push(matrix[i]);
        i += 1;
        assert(block@ =~= before + matrix@.take(i as int));
    }
    assert(matrix@.take(16) =~= matrix@);
}

/// The uniform block of one frame: the model matrix at byte 0, the
/// view-projection matrix at byte 64 and the normal matrix at byte 128,
/// with nothing between or behind them.
pub fn uniform_block(model: &[u32; 16], view_projection: &[u32; 16], normal: &[u32; 16]) -> (block:
    Vec<u32>)
    ensures
        block@ == model@ + view_projection@ + normal@,
        block@.len() * WORD_BYTES == UNIFORM_BLOCK_BYTES,
        matrix_at(block@, MODEL_OFFSET) == model@,
        matrix_at(block@, VIEW_PROJECTION_OFFSET) == view_projection@,
        matrix_at(block@, NORMAL_OFFSET) == normal@,
{
    let mut block: Vec<u32> = Vec::new();
    append_matrix(&mut block, model);
    append_matrix(&mut block, view_projection);
    append_matrix(&mut block, normal);
    assert(block@ =~= model@ + view_projection@ + normal@);
    assert(matrix_at(block@, MODEL_OFFSET) =~= model@);
    assert(matrix_at(block@, VIEW_PROJECTION_OFFSET) =~= view_projection@);
    assert(matrix_at(block@, NORMAL_OFFSET) =~= normal@);
    block
}

/// The uniform block of one frame as bytes: 192 of them, the model matrix
/// from byte 0, the view-projection matrix from byte 64 and the normal
/// matrix from byte 128, each as it lies in memory.
pub fn uniform_block_bytes(
    model: &[u32; 16],
    view_projection: &[u32; 16],
    normal: &[u32; 16],
) -> (bytes: Vec<u8>)
    ensures
        bytes@.len() == UNIFORM_BLOCK_BYTES,
        memory_image(model@ + view_projection@ + normal@, bytes@),
        memory_image(
            model@,
            bytes@.subrange(MODEL_OFFSET as int, MODEL_OFFSET + MATRIX_BYTES),
        ),
        memory_image(
            view_projection@,
            bytes@.subrange(VIEW_PROJECTION_OFFSET as int, VIEW_PROJECTION_OFFSET + MATRIX_BYTES),
        ),
        memory_image(
            normal@,
            bytes@.subrange(NORMAL_OFFSET as int, NORMAL_OFFSET + MATRIX_BYTES),
        ),
{
    let block = uniform_block(model, view_projection, normal);
    let bytes = buffer_bytes(&block);
    proof {
        lemma_image_of_part(block@, bytes@, 0, 16);
        lemma_image_of_part(block@, bytes@, 16, 32);
        lemma_image_of_part(block@, bytes@, 32, 48);
        assert(block@.subrange(0, 16) == matrix_at(block@, MODEL_OFFSET));
        assert(block@.subrange(16, 32) == matrix_at(block@, VIEW_PROJECTION_OFFSET));
        assert(block@.subrange(32, 48) == matrix_at(block@, NORMAL_OFFSET));
    }
    bytes
}

} // verus!
