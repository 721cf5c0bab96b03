//! The picture that the display shows: the framebuffer enlarged by a whole
//! factor, three bytes per pixel, row by row.

use crate::consts::{DISPLAY_HEIGHT, DISPLAY_SIZE, DISPLAY_WIDTH};
use vstd::arithmetic::div_mod::lemma_fundamental_div_mod_converse;
use vstd::prelude::*;

verus! {

/// The factor by which the display enlarges the framebuffer.
pub const DISPLAY_SCALE: u8 = 10;

/// Columns of the picture.
pub open spec fn texture_width(scale: int) -> int {
    DISPLAY_WIDTH * scale
}

/// Rows of the picture.
pub open spec fn texture_height(scale: int) -> int {
    DISPLAY_HEIGHT * scale
}

/// The value of all three channels of the picture's pixel in row `row` and
/// column `col`: 0 where the cell of the framebuffer that it enlarges is 0,
/// 255 where it is not.
pub open spec fn texel(pixels: Seq<u8>, scale: int, row: int, col: int) -> u8 {
    if pixels[(row / scale) * DISPLAY_WIDTH + col / scale] == 0 {
        0
    } else {
        255
    }
}

/// Byte `at` of the picture. Three bytes make a pixel, and the pixels follow
/// each other row by row.
pub open spec fn texture_byte(pixels: Seq<u8>, scale: int, at: int) -> u8 {
    texel(pixels, scale, (at / 3) / texture_width(scale), (at / 3) % texture_width(scale))
}

/// The picture of the framebuffer `pixels`, enlarged by `scale`.
pub open spec fn texture(pixels: Seq<u8>, scale: int) -> Seq<u8> {
    Seq::new(
        (3 * (texture_height(scale) * texture_width(scale))) as nat,
        |at: int| texture_byte(pixels, scale, at),
    )
}

/// Renders the framebuffer as a picture of `64 * scale` by `32 * scale`
/// pixels of three bytes each. A dark cell becomes a black square, any other a
/// white one.
pub fn draw_texture(pixels: &[u8; DISPLAY_SIZE], scale: u8) -> (picture: Vec<u8>)
    ensures
        picture@ == texture(pixels@, scale as int),
{
    let width: usize = DISPLAY_WIDTH * scale as usize;
    let height: usize = DISPLAY_HEIGHT * scale as usize;
    let mut picture: Vec<u8> = Vec::new();
    let mut row: usize = 0;
    while row < height
        invariant
            row <= height,
            width == texture_width(scale as int),
            height == texture_height(scale as int),
            picture@.len() == 3 * (row * width),
            forall|at: int|
                0 <= at < picture@.len() ==> picture@[at] == texture_byte(
                    pixels@,
                    scale as int,
                    at,
                ),
        decreases height - row,
    {
        let mut col: usize = 0;
        while col < width
            invariant
                row < height,
                col <= width,
                width == texture_width(scale as int),
                height == texture_height(scale as int),
                picture@.len() == 3 * (row * width + col),
                forall|at: int|
                    0 <= at < picture@.len() ==> picture@[at] == texture_byte(
                        pixels@,
                        scale as int,
                        at,
                    ),
            decreases width - col,
        {
            let cell_row: usize = row / scale as usize;
            let cell_col: usize = col / scale as usize;
            assert(cell_row < DISPLAY_HEIGHT && cell_col < DISPLAY_WIDTH) by (nonlinear_arith)
                requires
                    scale > 0,
                    row < 32 * scale,
                    col < 64 * scale,
                    cell_row == row as int / scale as int,
                    cell_col == col as int / scale as int,
            ;
            let color: u8 = if pixels[cell_row * DISPLAY_WIDTH + cell_col] == 0 {
                0
            } else {
                255
            };
            proof {
                lemma_fundamental_div_mod_converse(
                    row * width + col,
                    width as int,
                    row as int,
                    col as int,
                );
            }
            picture.push(color);
            picture.push(color);
            picture.push(color);
            col += 1;
        }
        assert(3 * (row * width + width) == 3 * ((row + 1) * width)) by (nonlinear_arith);
        row += 1;
    }
    assert(picture@.len() == 3 * (texture_height(scale as int) * texture_width(scale as int)));
    picture
}

} // verus!
