use arcade_core::ascii;
use arcade_core::particles::Particle;

#[test]
fn ascii_index_exact_values() {
    let ramp_len = 10;
    assert_eq!(ascii::ascii_index(0, 0, 0, ramp_len), 0);
    assert_eq!(ascii::ascii_index(255, 255, 255, ramp_len), 9);
    // Brightness (10 + 20 + 30) / 3 = 20; 20 * 9 / 255 = 0.
    assert_eq!(ascii::ascii_index(10, 20, 30, ramp_len), 0);
    // Brightness 128; 128 * 9 / 255 = 4.
    assert_eq!(ascii::ascii_index(128, 128, 128, ramp_len), 4);
}

#[test]
fn ascii_index_single_char_ramp() {
    assert_eq!(ascii::ascii_index(200, 10, 60, 1), 0);
}

#[test]
fn ascii_grid_small_image() {
    // A 2x1 image: a black pixel and a white pixel, sampled every column.
    let bytes: Vec<u8> = vec![0, 0, 0, 255, 255, 255, 255, 255];
    let ramp: Vec<char> = vec!['.', '#'];
    let cells = ascii::build_ascii_grid(&bytes, 2, 1, 1, &ramp);
    assert_eq!(cells.len(), 2);
    assert_eq!((cells[0].ch, cells[0].x, cells[0].y), ('.', 0, 0));
    assert_eq!((cells[1].ch, cells[1].x, cells[1].y), ('#', 1, 0));
}

#[test]
fn ascii_grid_respects_scale() {
    // A 4x2 image sampled every 2 pixels keeps only columns 0 and 2 of
    // row 0.
    let mut bytes: Vec<u8> = Vec::new();
    for p in 0..8 {
        let v = (p * 30) as u8;
        bytes.extend_from_slice(&[v, v, v, 255]);
    }
    let ramp: Vec<char> = vec!['.', ':', '#'];
    let cells = ascii::build_ascii_grid(&bytes, 4, 2, 2, &ramp);
    assert_eq!(cells.len(), 2);
    assert_eq!((cells[0].x, cells[0].y), (0, 0));
    assert_eq!((cells[1].x, cells[1].y), (2, 0));
}

#[test]
fn particle_moves_along_heading() {
    let mut p = Particle::new(400, 300);
    p.dir_x = 500;
    p.dir_y = -250;
    p.speed = 4;
    p.mov();
    assert_eq!(p.position.x, 400 + 2000);
    assert_eq!(p.position.y, 300 - 1000);
}

#[test]
fn particle_randomization_stays_in_bands() {
    let mut p = Particle::new(0, 0);
    let color = p.color;
    assert!(color < arcade_core::particles::COLOR_COUNT);
    for _ in 0..50 {
        p.change_direction();
        p.change_speed();
        assert!(-1000 < p.dir_x && p.dir_x < 1000);
        assert!(-1000 < p.dir_y && p.dir_y < 1000);
        assert!(2 <= p.speed && p.speed < 6);
        // The palette index is picked at birth and never redrawn.
        assert_eq!(p.color, color);
    }
}
