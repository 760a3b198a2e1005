use chip8::drivers::video::{pixel_rect, PixelRect, SCALE, WINDOW_HEIGHT, WINDOW_WIDTH};

#[test]
fn window_size() {
    assert_eq!(SCALE, 15);
    assert_eq!(WINDOW_WIDTH, 960);
    assert_eq!(WINDOW_HEIGHT, 480);
}

#[test]
fn squares_of_the_corners() {
    assert_eq!(pixel_rect(0), PixelRect { x: 0, y: 0, width: 15, height: 15 });
    assert_eq!(pixel_rect(63), PixelRect { x: 945, y: 0, width: 15, height: 15 });
    assert_eq!(pixel_rect(64), PixelRect { x: 0, y: 15, width: 15, height: 15 });
    assert_eq!(pixel_rect(2047), PixelRect { x: 945, y: 465, width: 15, height: 15 });
    assert_eq!(pixel_rect(5 + 64 * 7), PixelRect { x: 75, y: 105, width: 15, height: 15 });
}

#[test]
fn squares_lie_in_the_window_and_do_not_overlap() {
    let mut covered = vec![false; (WINDOW_WIDTH / SCALE * WINDOW_HEIGHT / SCALE) as usize];
    for idx in 0..2048 {
        let r = pixel_rect(idx);
        assert!(r.x >= 0 && r.y >= 0);
        assert!(r.x as u32 + r.width <= WINDOW_WIDTH);
        assert!(r.y as u32 + r.height <= WINDOW_HEIGHT);
        assert_eq!(r.x as u32 % SCALE, 0);
        assert_eq!(r.y as u32 % SCALE, 0);
        let cell = (r.x as u32 / SCALE + (WINDOW_WIDTH / SCALE) * (r.y as u32 / SCALE)) as usize;
        assert!(!covered[cell]);
        covered[cell] = true;
    }
    assert!(covered.iter().all(|c| *c));
}

#[test]
fn square_beyond_the_screen() {
    assert_eq!(pixel_rect(2048), PixelRect { x: 0, y: 480, width: 15, height: 15 });
}
