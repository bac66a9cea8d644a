//! Magnification of the framebuffer for presentation.

use vstd::prelude::*;
use crate::machine::{SCREEN_HEIGHT, SCREEN_SIZE, SCREEN_WIDTH};

verus! {

/// The `64·scale` by `32·scale` image in which every pixel of `frame` becomes
/// a `scale` by `scale` block, row by row.
pub open spec fn scaled(frame: Seq<u32>, scale: nat) -> Seq<u32> {
    let width = SCREEN_WIDTH * scale;
    Seq::new(
        (SCREEN_SIZE * scale * scale) as nat,
        |k: int| frame[(k / width / scale as int) * SCREEN_WIDTH + (k % width) / scale as int],
    )
}

/// The source pixel of output position (`row`, `col`) lies in the frame.
proof fn lemma_source_in_frame(row: int, col: int, scale: int)
    requires
        scale > 0,
        0 <= row < 32 * scale,
        0 <= col < 64 * scale,
    ensures
        0 <= row / scale < 32,
        0 <= col / scale < 64,
        0 <= (row / scale) * 64 + col / scale < 2048,
{
    assert(0 <= row / scale < 32) by (nonlinear_arith)
        requires
            scale > 0,
            0 <= row < 32 * scale,
    ;
    assert(0 <= col / scale < 64) by (nonlinear_arith)
        requires
            scale > 0,
            0 <= col < 64 * scale,
    ;
}

/// Output index `row · width + col` splits back into `row` and `col`.
proof fn lemma_split_index(row: int, col: int, width: int)
    requires
        width > 0,
        0 <= row,
        0 <= col < width,
    ensures
        (row * width + col) / width == row,
        (row * width + col) % width == col,
{
    vstd::arithmetic::div_mod::lemma_fundamental_div_mod_converse(row * width + col, width, row, col);
}

/// Magnifies a 64×32 frame by `scale` in both directions.
pub fn scale_frame(frame: &Vec<u32>, scale: usize) -> (out: Vec<u32>)
    requires
        frame@.len() == SCREEN_SIZE,
        scale > 0,
        SCREEN_SIZE * scale * scale <= usize::MAX,
    ensures
        out@ == scaled(frame@, scale as nat),
{
    let ghost s = scale as int;
    assert(SCREEN_HEIGHT * scale * (SCREEN_WIDTH * scale) == SCREEN_SIZE * scale * scale) by (nonlinear_arith);
    assert(SCREEN_WIDTH * scale <= SCREEN_SIZE * scale * scale) by (nonlinear_arith)
        requires
            scale > 0,
    ;
    assert(SCREEN_HEIGHT * scale <= SCREEN_SIZE * scale * scale) by (nonlinear_arith)
        requires
            scale > 0,
    ;
    let width = SCREEN_WIDTH * scale;
    let height = SCREEN_HEIGHT * scale;
    let mut out: Vec<u32> = Vec::new();
    let mut row: usize = 0;
    while row < height
        invariant
            frame@.len() == SCREEN_SIZE,
            scale > 0,
            width == 64 * scale,
            height == 32 * scale,
            height * width == SCREEN_SIZE * scale * scale <= usize::MAX,
            row <= height,
            out@.len() == row * width,
            forall|k: int| 0 <= k < out@.len() ==> #[trigger] out@[k] == scaled(frame@, scale as nat)[k],
        decreases height - row,
    {
        let mut col: usize = 0;
        while col < width
            invariant
                frame@.len() == SCREEN_SIZE,
                scale > 0,
                width == 64 * scale,
                height == 32 * scale,
                height * width == SCREEN_SIZE * scale * scale <= usize::MAX,
                row < height,
                col <= width,
                out@.len() == row * width + col,
                forall|k: int| 0 <= k < out@.len() ==> #[trigger] out@[k] == scaled(frame@, scale as nat)[k],
            decreases width - col,
        {
            proof {
                lemma_source_in_frame(row as int, col as int, scale as int);
                lemma_split_index(row as int, col as int, width as int);
                assert(row * width + col < height * width) by (nonlinear_arith)
                    requires
                        row < height,
                        col < width,
                ;
            }
            out.push(frame[(row / scale) * SCREEN_WIDTH + col / scale]);
            col += 1;
        }
        assert(out@.len() == (row + 1) * width) by (nonlinear_arith)
            requires
                out@.len() == row * width + width,
        ;
        row += 1;
    }
    assert(out@.len() == SCREEN_SIZE * scale * scale);
    assert(out@ =~= scaled(frame@, scale as nat));
    out
}

} // verus!
