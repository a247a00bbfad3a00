use chip8::display::Chip8Display;

#[test]
fn flip_unset_pixel() {
    let mut d = Chip8Display::new();
    assert_eq!(d.get_pixel(0, 0), false);
    let collision = d.flip_pixel(0, 0);
    assert_eq!(collision, false);
    assert_eq!(d.get_pixel(0, 0), true);
}

#[test]
fn flip_set_pixel() {
    let mut d = Chip8Display::new();
    assert_eq!(d.get_pixel(0, 0), false);
    let mut collision = d.flip_pixel(0, 0);
    assert_eq!(collision, false);
    assert_eq!(d.get_pixel(0, 0), true);
    collision = d.flip_pixel(0, 0);
    assert_eq!(collision, true);
    assert_eq!(d.get_pixel(0, 0), false);
}

#[test]
fn draw_byte_no_collision() {
    let mut d = Chip8Display::new();
    let collision = d.draw_byte(0, 0, 0xAA);
    assert_eq!(collision, false);
    for c in 0..64 {
        for r in 0..32 {
            if c < 8 && c % 2 == 0 && r == 0 {
                assert_eq!(d.get_pixel(c, r), true);
            } else {
                assert_eq!(d.get_pixel(c, r), false);
            }
        }
    }
}

#[test]
fn draw_byte_with_collision() {
    let mut d = Chip8Display::new();
    d.flip_pixel(0, 0);
    let collision = d.draw_byte(0, 0, 0xAA);
    assert_eq!(collision, true);
    for c in 0..64 {
        for r in 0..32 {
            if c > 0 && c < 8 && c % 2 == 0 && r == 0 {
                assert_eq!(d.get_pixel(c, r), true);
            } else {
                assert_eq!(d.get_pixel(c, r), false);
            }
        }
    }
}

// Sprite map   Binary      Hex
// X.XXX.X.     0b10111010  $BA
// .XXXXX..     0b01111100  $7C
// XX.X.XX.     0b11010110  $D6
// XXXXXXX.     0b11111110  $FE
// .X.X.X..     0b01010100  $54
// X.X.X.X.     0b10101010  $AA
fn alien_sprite() -> [u8; 6] {
    [0xBA, 0x7C, 0xD6, 0xFE, 0x54, 0xAA]
}

#[test]
fn display_draw_sprite_no_collision() {
    let mut d = Chip8Display::new();
    let collision = d.draw_sprite(0, 0, &alien_sprite());
    assert_eq!(collision, false);
}

#[test]
fn display_draw_sprite_with_collision() {
    let mut d = Chip8Display::new();
    let mut collision = d.draw_sprite(0, 0, &alien_sprite());
    assert_eq!(collision, false);
    collision = d.draw_sprite(1, 1, &alien_sprite());
    assert_eq!(collision, true);
}

#[test]
fn draw_twice_restores_pixels() {
    let mut d = Chip8Display::new();
    // a lit pixel well away from the sprite
    d.flip_pixel(20, 20);
    let before: Vec<bool> = (0..64)
        .flat_map(|c| (0..32).map(move |r| (c, r)))
        .map(|(c, r)| d.get_pixel(c, r))
        .collect();
    let first = d.draw_sprite(0, 0, &alien_sprite());
    assert_eq!(first, false);
    let second = d.draw_sprite(0, 0, &alien_sprite());
    assert_eq!(second, true);
    let after: Vec<bool> = (0..64)
        .flat_map(|c| (0..32).map(move |r| (c, r)))
        .map(|(c, r)| d.get_pixel(c, r))
        .collect();
    assert_eq!(before, after);
}

#[test]
fn draw_clips_at_right_edge() {
    let mut d = Chip8Display::new();
    let collision = d.draw_byte(60, 0, 0xFF);
    assert_eq!(collision, false);
    for c in 60..64 {
        assert_eq!(d.get_pixel(c, 0), true);
    }
    // No wraparound onto the left edge.
    for c in 0..8 {
        assert_eq!(d.get_pixel(c, 0), false);
    }
}

#[test]
fn draw_clips_at_bottom_edge() {
    let mut d = Chip8Display::new();
    let collision = d.draw_sprite(0, 30, &[0x80, 0x80, 0x80, 0x80]);
    assert_eq!(collision, false);
    assert_eq!(d.get_pixel(0, 30), true);
    assert_eq!(d.get_pixel(0, 31), true);
    // Rows past the bottom are dropped, not wrapped to the top.
    assert_eq!(d.get_pixel(0, 0), false);
    assert_eq!(d.get_pixel(0, 1), false);
}

#[test]
fn flip_out_of_bounds_reports_false() {
    let mut d = Chip8Display::new();
    assert_eq!(d.flip_pixel(64, 0), false);
    assert_eq!(d.flip_pixel(0, 32), false);
    for c in 0..64 {
        for r in 0..32 {
            assert_eq!(d.get_pixel(c, r), false);
        }
    }
}
