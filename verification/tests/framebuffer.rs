use chip8::framebuffer::{Framebuffer, CELLS, COLS, ROWS};

#[test]
fn grid_is_64_by_32() {
    let framebuffer = Framebuffer::new();
    assert_eq!(framebuffer.width(), 64);
    assert_eq!(framebuffer.height(), 32);
    assert_eq!(COLS, 64);
    assert_eq!(ROWS, 32);
    assert_eq!(CELLS, 2048);
    assert_eq!(framebuffer.get_buffer().len(), 2048);
}

#[test]
fn new_framebuffer_is_dark() {
    let framebuffer = Framebuffer::new();
    assert_eq!(framebuffer.get_buffer(), [0u8; 2048]);
    for y in 0..32 {
        for x in 0..64 {
            assert!(!framebuffer.is_lit(x, y));
        }
    }
}

#[test]
fn set_xor_flips_one_cell() {
    let mut framebuffer = Framebuffer::new();
    assert!(!framebuffer.set_xor(5, 3));
    let mut expected = [0u8; 2048];
    expected[3 * 64 + 5] = 1;
    assert_eq!(framebuffer.get_buffer(), expected);
    assert!(framebuffer.is_lit(5, 3));
    assert!(!framebuffer.is_lit(3, 5));
}

#[test]
fn set_xor_on_a_lit_cell_collides_and_darkens_it() {
    let mut framebuffer = Framebuffer::new();
    assert!(!framebuffer.set_xor(63, 31));
    assert!(framebuffer.set_xor(63, 31));
    assert_eq!(framebuffer.get_buffer(), [0u8; 2048]);
    assert!(!framebuffer.set_xor(63, 31));
    assert_eq!(framebuffer.get_buffer()[2047], 1);
}

#[test]
fn coordinates_wrap_around() {
    let mut framebuffer = Framebuffer::new();
    assert!(!framebuffer.set_xor(64 + 2, 32 + 1));
    assert!(framebuffer.is_lit(2, 1));
    assert!(framebuffer.is_lit(130, 65));
    assert!(framebuffer.set_xor(2, 1));
    assert!(!framebuffer.is_lit(2, 1));
}

#[test]
fn clear_darkens_every_cell() {
    let mut framebuffer = Framebuffer::new();
    for k in 0..2048 {
        if k % 3 == 0 {
            framebuffer.set_xor(k % 64, k / 64);
        }
    }
    assert!(framebuffer.get_buffer().iter().any(|&cell| cell == 1));
    framebuffer.clear();
    assert_eq!(framebuffer.get_buffer(), [0u8; 2048]);
    framebuffer.clear();
    assert_eq!(framebuffer.get_buffer(), [0u8; 2048]);
}

#[test]
fn buffer_is_row_major_with_zero_and_one() {
    let mut framebuffer = Framebuffer::new();
    framebuffer.set_xor(0, 0);
    framebuffer.set_xor(63, 0);
    framebuffer.set_xor(0, 1);
    framebuffer.set_xor(63, 31);
    let buffer = framebuffer.get_buffer();
    let lit: Vec<usize> = (0..2048).filter(|&k| buffer[k] != 0).collect();
    assert_eq!(lit, vec![0, 63, 64, 2047]);
    assert!(buffer.iter().all(|&cell| cell <= 1));
}
