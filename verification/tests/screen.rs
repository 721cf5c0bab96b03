use chip8::consts::{DISPLAY_HEIGHT, DISPLAY_SIZE, DISPLAY_WIDTH};
use chip8::instruction::Instruction;
use chip8::processor::Processor;
use chip8::screen::{draw_texture, DISPLAY_SCALE};

fn pixel(picture: &[u8], scale: usize, row: usize, col: usize) -> [u8; 3] {
    let at = (row * DISPLAY_WIDTH * scale + col) * 3;
    [picture[at], picture[at + 1], picture[at + 2]]
}

#[test]
fn a_dark_framebuffer_gives_a_black_picture() {
    let picture = draw_texture(&[0; DISPLAY_SIZE], 3);
    assert_eq!(picture.len(), 64 * 3 * 32 * 3 * 3);
    assert!(picture.iter().all(|&byte| byte == 0));
}

#[test]
fn a_lit_framebuffer_gives_a_white_picture() {
    let picture = draw_texture(&[1; DISPLAY_SIZE], 2);
    assert_eq!(picture.len(), 128 * 64 * 3);
    assert!(picture.iter().all(|&byte| byte == 255));
}

#[test]
fn at_scale_one_every_cell_is_one_pixel() {
    let mut pixels = [0u8; DISPLAY_SIZE];
    pixels[0] = 1;
    pixels[DISPLAY_WIDTH + 2] = 1;
    pixels[DISPLAY_SIZE - 1] = 1;
    let picture = draw_texture(&pixels, 1);
    assert_eq!(picture.len(), DISPLAY_SIZE * 3);
    for row in 0..DISPLAY_HEIGHT {
        for col in 0..DISPLAY_WIDTH {
            let lit = (row, col) == (0, 0) || (row, col) == (1, 2) || (row, col) == (31, 63);
            let expected = if lit { [255; 3] } else { [0; 3] };
            assert_eq!(pixel(&picture, 1, row, col), expected);
        }
    }
}

#[test]
fn a_cell_becomes_a_square_of_the_scale() {
    let mut pixels = [0u8; DISPLAY_SIZE];
    pixels[2 * DISPLAY_WIDTH + 5] = 1;
    let scale = 4;
    let picture = draw_texture(&pixels, scale as u8);
    assert_eq!(picture.len(), 256 * 128 * 3);
    for row in 0..DISPLAY_HEIGHT * scale {
        for col in 0..DISPLAY_WIDTH * scale {
            let lit = (8..12).contains(&row) && (20..24).contains(&col);
            let expected = if lit { [255; 3] } else { [0; 3] };
            assert_eq!(pixel(&picture, scale, row, col), expected, "row {} col {}", row, col);
        }
    }
    // the first byte of the square, counted by hand: (8 * 256 + 20) * 3
    assert_eq!(picture[6204], 255);
    assert_eq!(picture[6203], 0);
}

#[test]
fn scale_zero_gives_an_empty_picture() {
    assert!(draw_texture(&[1; DISPLAY_SIZE], 0).is_empty());
}

#[test]
fn the_largest_scale_fits() {
    let picture = draw_texture(&[1; DISPLAY_SIZE], 255);
    assert_eq!(picture.len(), 64 * 255 * 32 * 255 * 3);
    assert_eq!(picture[picture.len() - 1], 255);
}

#[test]
fn the_picture_of_a_drawn_glyph() {
    let mut processor = Processor::new();
    processor.load_rom(&[]).unwrap();
    processor.execute_instruction(Instruction::LDSPR(0)).unwrap();
    processor.execute_instruction(Instruction::DRW(0, 0, 5)).unwrap();
    let scale = DISPLAY_SCALE as usize;
    let picture = draw_texture(processor.framebuffer(), DISPLAY_SCALE);
    // the glyph of 0 has its corner lit and its centre dark
    assert_eq!(pixel(&picture, scale, 0, 0), [255; 3]);
    assert_eq!(pixel(&picture, scale, scale - 1, 4 * scale - 1), [255; 3]);
    assert_eq!(pixel(&picture, scale, 0, 4 * scale), [0; 3]);
    assert_eq!(pixel(&picture, scale, scale, scale), [0; 3]);
    assert_eq!(pixel(&picture, scale, 2 * scale, 2 * scale), [0; 3]);
}
