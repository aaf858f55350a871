use raytracer::framebuffer::Framebuffer;
use raytracer::rain::{draw_rain_overlay, lcg_next};

#[test]
fn new_buffer_is_black() {
    let fb = Framebuffer::new(4, 3);
    assert_eq!(fb.buffer.len(), 12);
    assert!(fb.buffer.iter().all(|&p| p == 0));
    assert_eq!(fb.current_color, 0xffffff);
}

#[test]
fn point_writes_row_major() {
    let mut fb = Framebuffer::new(4, 3);
    fb.set_current_color(0x123456);
    fb.point(2, 1);
    assert_eq!(fb.buffer[1 * 4 + 2], 0x123456);
    assert_eq!(fb.buffer.iter().filter(|&&p| p != 0).count(), 1);
}

#[test]
fn point_off_grid_changes_nothing() {
    let mut fb = Framebuffer::new(4, 3);
    fb.set_current_color(0x123456);
    fb.point(4, 0);
    fb.point(0, 3);
    assert!(fb.buffer.iter().all(|&p| p == 0));
}

#[test]
fn lcg_known_values() {
    assert_eq!(lcg_next(0), 1013904223);
    assert_eq!(lcg_next(1), 1015568748);
    assert_eq!(lcg_next(u32::MAX), 1013904223u32.wrapping_sub(1664525));
}

const TONES: [u32; 3] = [0xe0e6ea, 0xc9d6df, 0xb5c7d9];

#[test]
fn rain_draws_only_rain_tones() {
    let mut fb = Framebuffer::new(96, 64);
    fb.set_current_color(0x010203);
    draw_rain_overlay(&mut fb, 5);
    let drawn: Vec<u32> = fb.buffer.iter().copied().filter(|&p| p != 0).collect();
    assert!(!drawn.is_empty());
    assert!(drawn.iter().all(|p| TONES.contains(p)));
    assert!(TONES.contains(&fb.current_color));
    assert_eq!(fb.buffer.len(), 96 * 64);
}

#[test]
fn rain_is_deterministic_per_frame() {
    let mut a = Framebuffer::new(50, 40);
    let mut b = Framebuffer::new(50, 40);
    draw_rain_overlay(&mut a, 17);
    draw_rain_overlay(&mut b, 17);
    assert_eq!(a.buffer, b.buffer);
}

#[test]
fn rain_on_zero_height_draws_nothing() {
    let mut fb = Framebuffer::new(30, 0);
    fb.set_current_color(0x010203);
    draw_rain_overlay(&mut fb, 3);
    assert!(fb.buffer.is_empty());
    assert_eq!(fb.current_color, 0x010203);
}

fn expected_rain(w: usize, h: usize, frame: u32) -> (Vec<u32>, u32) {
    let mut buf = vec![0u32; w * h];
    let mut pen = 0xffffffu32;
    let mut seed = lcg_next(frame);
    let streaks = std::cmp::max(w as u32 / 14, 26);
    for _ in 0..streaks {
        seed = lcg_next(seed);
        let x = (seed % w as u32) as i64;
        seed = lcg_next(seed);
        let len = 12 + (seed % 28) as i64;
        seed = lcg_next(seed);
        let speed = 7 + (seed % 9) as i64;
        let y0 = (frame as i64 * speed) % (h as i64 + len) - len;
        let tone = TONES[match seed & 3 { 0 => 0, 1 => 1, _ => 2 }];
        let dx = if seed & 7 < 3 { 1 } else { 0 };
        for k in 0..len {
            let (xi, yi) = (x + k * dx, y0 + k);
            if xi >= 0 && yi >= 0 && xi < w as i64 && yi < h as i64 {
                buf[yi as usize * w + xi as usize] = tone;
                pen = tone;
            }
        }
    }
    (buf, pen)
}

#[test]
fn rain_matches_streak_rules() {
    for frame in [0u32, 1, 9, 123, 4_000_000_000] {
        let mut fb = Framebuffer::new(40, 30);
        draw_rain_overlay(&mut fb, frame);
        let (buf, pen) = expected_rain(40, 30, frame);
        assert_eq!(fb.buffer, buf);
        assert_eq!(fb.current_color, pen);
    }
}

#[test]
fn rain_streak_count_grows_with_width() {
    // 700 / 14 = 50 streaks instead of 26.
    let mut fb = Framebuffer::new(700, 20);
    draw_rain_overlay(&mut fb, 2);
    let (buf, pen) = expected_rain(700, 20, 2);
    assert_eq!(fb.buffer, buf);
    assert_eq!(fb.current_color, pen);
}
