use vstd::prelude::*;
use crate::framebuffer::{Framebuffer, in_grid, lemma_index_in_buffer, pixel_index};

verus! {

/// One step of the linear congruential generator `s * 1664525 + 1013904223`,
/// taken modulo 2^32.
pub open spec fn lcg(seed: u32) -> u32 {
    ((seed as int * 1664525 + 1013904223) % 0x1_0000_0000) as u32
}

/// The state after `n` steps of the generator from `seed`.
pub open spec fn lcg_iter(seed: u32, n: nat) -> u32
    decreases n,
{
    if n == 0 {
        seed
    } else {
        lcg(lcg_iter(seed, (n - 1) as nat))
    }
}

/// Advances the generator by one step.
pub fn lcg_next(seed: u32) -> (r: u32)
    ensures
        r == lcg(seed),
{
    let m = seed.wrapping_mul(1664525u32);
    let r = m.wrapping_add(1013904223u32);
    proof {
        let p = seed as int * 1664525;
        assert(m as int == p % 0x1_0000_0000);
        vstd::arithmetic::div_mod::lemma_add_mod_noop(p, 1013904223, 0x1_0000_0000);
        vstd::arithmetic::div_mod::lemma_small_mod(1013904223nat, 0x1_0000_0000nat);
        if m as int + 1013904223 < 0x1_0000_0000 {
            vstd::arithmetic::div_mod::lemma_small_mod(
                (m as int + 1013904223) as nat,
                0x1_0000_0000nat,
            );
        } else {
            vstd::arithmetic::div_mod::lemma_mod_sub_multiples_vanish(
                m as int + 1013904223,
                0x1_0000_0000,
            );
            vstd::arithmetic::div_mod::lemma_small_mod(
                (m as int + 1013904223 - 0x1_0000_0000) as nat,
                0x1_0000_0000nat,
            );
        }
    }
    r
}

/// How many streaks one frame of rain draws on a grid `width` pixels wide.
pub open spec fn streak_count(width: int) -> int {
    if width / 14 > 26 {
        width / 14
    } else {
        26
    }
}

/// The generator state that decides part `k` (0, 1 or 2) of streak `j`.
pub open spec fn streak_seed(frame: u32, j: int, k: int) -> u32 {
    lcg_iter(frame, (3 * j + 2 + k) as nat)
}

/// Column where streak `j` starts.
pub open spec fn streak_x(frame: u32, width: int, j: int) -> int {
    streak_seed(frame, j, 0) as int % width
}

/// Number of pixels in streak `j`: 12 to 39.
pub open spec fn streak_len(frame: u32, j: int) -> int {
    12 + streak_seed(frame, j, 1) as int % 28
}

/// Rows per frame that streak `j` falls: 7 to 15.
pub open spec fn streak_speed(frame: u32, j: int) -> int {
    7 + streak_seed(frame, j, 2) as int % 9
}

/// Row where streak `j` starts in this frame; it wraps round the grid's
/// height plus the streak's length, so a streak enters from above.
pub open spec fn streak_y0(frame: u32, height: int, j: int) -> int {
    (frame as int * streak_speed(frame, j)) % (height + streak_len(frame, j)) - streak_len(
        frame,
        j,
    )
}

/// One of three pale blue-grey tones, picked by the low two bits of `seed`.
pub open spec fn rain_tone(seed: u32) -> u32 {
    if seed & 3u32 == 0 {
        0xe0e6eau32
    } else if seed & 3u32 == 1 {
        0xc9d6dfu32
    } else {
        0xb5c7d9u32
    }
}

/// Colour of streak `j`.
pub open spec fn streak_color(frame: u32, j: int) -> u32 {
    rain_tone(streak_seed(frame, j, 2))
}

/// Whether streak `j` moves one column right per row.
pub open spec fn streak_slanted(frame: u32, j: int) -> bool {
    streak_seed(frame, j, 2) & 7u32 < 3
}

/// Buffer and drawing colour after the first `n` pixels of a run that starts
/// at `(x, y)` and goes down one row per pixel (and right one column, when
/// `slanted`); pixels off the grid are skipped.
pub open spec fn paint_run(
    buf: Seq<u32>,
    pen: u32,
    width: int,
    height: int,
    x: int,
    y: int,
    slanted: bool,
    color: u32,
    n: nat,
) -> (Seq<u32>, u32)
    decreases n,
{
    if n == 0 {
        (buf, pen)
    } else {
        let prev = paint_run(buf, pen, width, height, x, y, slanted, color, (n - 1) as nat);
        let xi = if slanted {
            x + (n - 1)
        } else {
            x
        };
        let yi = y + (n - 1);
        if in_grid(width, height, xi, yi) {
            (prev.0.update(pixel_index(width, xi, yi), color), color)
        } else {
            prev
        }
    }
}

/// Buffer and drawing colour after the first `n` streaks of a frame.
pub open spec fn rain(buf: Seq<u32>, pen: u32, width: int, height: int, frame: u32, n: nat) -> (
    Seq<u32>,
    u32,
)
    decreases n,
{
    if n == 0 {
        (buf, pen)
    } else {
        let j = n - 1;
        let prev = rain(buf, pen, width, height, frame, j as nat);
        paint_run(
            prev.0,
            prev.1,
            width,
            height,
            streak_x(frame, width, j),
            streak_y0(frame, height, j),
            streak_slanted(frame, j),
            streak_color(frame, j),
            streak_len(frame, j) as nat,
        )
    }
}

/// Each step of the generator's sequence is one more application of `lcg`.
proof fn lemma_lcg_iter_step(seed: u32, n: nat)
    ensures
        lcg_iter(seed, n + 1) == lcg(lcg_iter(seed, n)),
{
    assert(lcg_iter(seed, n + 1) == lcg(lcg_iter(seed, ((n + 1) - 1) as nat)));
}

proof fn lemma_rain_step(buf: Seq<u32>, pen: u32, width: int, height: int, frame: u32, j: nat)
    ensures
        rain(buf, pen, width, height, frame, j + 1) == paint_run(
            rain(buf, pen, width, height, frame, j).0,
            rain(buf, pen, width, height, frame, j).1,
            width,
            height,
            streak_x(frame, width, j as int),
            streak_y0(frame, height, j as int),
            streak_slanted(frame, j as int),
            streak_color(frame, j as int),
            streak_len(frame, j as int) as nat,
        ),
{
    assert(((j + 1) - 1) as nat == j);
}

/// Whether `c` is one of the three rain tones.
pub open spec fn is_rain_tone(c: u32) -> bool {
    c == 0xe0e6eau32 || c == 0xc9d6dfu32 || c == 0xb5c7d9u32
}

proof fn lemma_run_keeps_or_paints(
    buf: Seq<u32>,
    pen: u32,
    width: int,
    height: int,
    x: int,
    y: int,
    slanted: bool,
    color: u32,
    n: nat,
)
    requires
        buf.len() == width * height,
    ensures
        paint_run(buf, pen, width, height, x, y, slanted, color, n).0.len() == buf.len(),
        forall|i: int|
            0 <= i < buf.len() ==> #[trigger] paint_run(
                buf,
                pen,
                width,
                height,
                x,
                y,
                slanted,
                color,
                n,
            ).0[i] == buf[i] || paint_run(buf, pen, width, height, x, y, slanted, color, n).0[i]
                == color,
        paint_run(buf, pen, width, height, x, y, slanted, color, n).1 == pen
            || paint_run(buf, pen, width, height, x, y, slanted, color, n).1 == color,
    decreases n,
{
    if n > 0 {
        lemma_run_keeps_or_paints(buf, pen, width, height, x, y, slanted, color, (n - 1) as nat);
        let xi = if slanted {
            x + (n - 1)
        } else {
            x
        };
        let yi = y + (n - 1);
        if in_grid(width, height, xi, yi) {
            lemma_index_in_buffer(width, height, xi, yi);
        }
    }
}

/// The rain overlay changes no buffer length, and leaves every pixel either
/// as it was or in one of the three rain tones; the drawing colour likewise.
pub proof fn lemma_rain_paints_only_tones(
    buf: Seq<u32>,
    pen: u32,
    width: int,
    height: int,
    frame: u32,
    n: nat,
)
    requires
        buf.len() == width * height,
    ensures
        rain(buf, pen, width, height, frame, n).0.len() == buf.len(),
        forall|i: int|
            0 <= i < buf.len() ==> #[trigger] rain(buf, pen, width, height, frame, n).0[i]
                == buf[i] || is_rain_tone(rain(buf, pen, width, height, frame, n).0[i]),
        rain(buf, pen, width, height, frame, n).1 == pen || is_rain_tone(
            rain(buf, pen, width, height, frame, n).1,
        ),
    decreases n,
{
    if n > 0 {
        let j = (n - 1) as nat;
        lemma_rain_paints_only_tones(buf, pen, width, height, frame, j);
        let prev = rain(buf, pen, width, height, frame, j);
        let c = streak_color(frame, j as int);
        assert(is_rain_tone(c));
        lemma_run_keeps_or_paints(
            prev.0,
            prev.1,
            width,
            height,
            streak_x(frame, width, j as int),
            streak_y0(frame, height, j as int),
            streak_slanted(frame, j as int),
            c,
            streak_len(frame, j as int) as nat,
        );
        lemma_rain_step(buf, pen, width, height, frame, j);
    }
}

/// Draws `len` pixels of a streak from `(x, y0)` downwards.
fn draw_run(fb: &mut Framebuffer, x: i64, y0: i64, slanted: bool, c: u32, len: i64)
    requires
        old(fb).wf(),
        0 < old(fb).width <= u32::MAX,
        old(fb).height <= u32::MAX,
        0 <= x < old(fb).width,
        12 <= len <= 39,
        -len <= y0 < old(fb).height,
    ensures
        final(fb).wf(),
        final(fb).width == old(fb).width,
        final(fb).height == old(fb).height,
        (final(fb).buffer@, final(fb).current_color) == paint_run(
            old(fb).buffer@,
            old(fb).current_color,
            old(fb).width as int,
            old(fb).height as int,
            x as int,
            y0 as int,
            slanted,
            c,
            len as nat,
        ),
{
    let ghost before = (fb.buffer@, fb.current_color);
    let ghost wi = fb.width as int;
    let ghost hi = fb.height as int;
    let w: i64 = fb.width as i64;
    let h: i64 = fb.height as i64;
    let mut xi: i64 = x;
    let mut yi: i64 = y0;
    let mut k: i64 = 0;
    while k < len
        invariant
            fb.wf(),
            fb.width as int == wi,
            fb.height as int == hi,
            w == wi,
            h == hi,
            0 < wi <= u32::MAX,
            0 <= hi <= u32::MAX,
            0 <= x < wi,
            12 <= len <= 39,
            -len <= y0 < hi,
            0 <= k <= len,
            xi == (if slanted {
                x + k
            } else {
                x as int
            }),
            yi == y0 + k,
            (fb.buffer@, fb.current_color) == paint_run(
                before.0,
                before.1,
                wi,
                hi,
                x as int,
                y0 as int,
                slanted,
                c,
                k as nat,
            ),
        decreases len - k,
    {
        if xi >= 0 && yi >= 0 && xi < w && yi < h {
            fb.set_current_color(c);
            fb.point(xi as usize, yi as usize);
        }
        if slanted {
            xi = xi + 1;
        }
        yi = yi + 1;
        k = k + 1;
    }
}

/// Row where a streak that falls `speed` rows per frame starts in frame
/// number `frame`.
fn start_row(frame: u32, speed: u64, h: i64, len: i64) -> (y0: i64)
    requires
        7 <= speed <= 15,
        0 <= h <= u32::MAX,
        12 <= len <= 39,
    ensures
        y0 == (frame as int * speed as int) % (h + len) - len,
        -len <= y0 < h,
{
    assert(frame as u64 * speed <= 0xffff_ffffu64 * 15) by (nonlinear_arith)
        requires
            speed <= 15,
    ;
    let t: u64 = (frame as u64) * speed;
    let m: u64 = (h + len) as u64;
    let r: u64 = t % m;
    r as i64 - len
}

fn tone(seed: u32) -> (c: u32)
    ensures
        c == rain_tone(seed),
{
    let low = seed & 3u32;
    if low == 0 {
        0xe0e6eau32
    } else if low == 1 {
        0xc9d6dfu32
    } else {
        0xb5c7d9u32
    }
}

/// Draws the rain streaks of frame number `frame` over the buffer. Each streak
/// is drawn with `set_current_color` and `point`, so the drawing colour is
/// left at the colour of the last pixel drawn. Streak columns are drawn from
/// 32-bit generator values, so both sides of the grid must fit in 32 bits,
/// and the width must not be zero.
pub fn draw_rain_overlay(fb: &mut Framebuffer, frame: u32)
    requires
        old(fb).wf(),
        0 < old(fb).width <= u32::MAX,
        old(fb).height <= u32::MAX,
    ensures
        final(fb).wf(),
        final(fb).width == old(fb).width,
        final(fb).height == old(fb).height,
        (final(fb).buffer@, final(fb).current_color) == rain(
            old(fb).buffer@,
            old(fb).current_color,
            old(fb).width as int,
            old(fb).height as int,
            frame,
            streak_count(old(fb).width as int) as nat,
        ),
{
    let ghost buf0 = fb.buffer@;
    let ghost pen0 = fb.current_color;
    let ghost wi = fb.width as int;
    let ghost hi = fb.height as int;
    let w: i64 = fb.width as i64;
    let h: i64 = fb.height as i64;
    let wu: u32 = fb.width as u32;
    let streaks: u32 = if wu / 14 > 26 {
        wu / 14
    } else {
        26
    };
    let mut seed: u32 = lcg_next(frame);
    proof {
        lemma_lcg_iter_step(frame, 0);
    }
    let mut j: u32 = 0;
    while j < streaks
        invariant
            fb.wf(),
            fb.width as int == wi,
            fb.height as int == hi,
            w == wi,
            h == hi,
            wu == wi,
            0 < wi <= u32::MAX,
            0 <= hi <= u32::MAX,
            streaks == streak_count(wi),
            j <= streaks,
            seed == lcg_iter(frame, (3 * j + 1) as nat),
            (fb.buffer@, fb.current_color) == rain(buf0, pen0, wi, hi, frame, j as nat),
        decreases streaks - j,
    {
        proof {
            lemma_lcg_iter_step(frame, (3 * j + 1) as nat);
            lemma_lcg_iter_step(frame, (3 * j + 2) as nat);
            lemma_lcg_iter_step(frame, (3 * j + 3) as nat);
        }
        seed = lcg_next(seed);
        assert(seed == streak_seed(frame, j as int, 0));
        let x: i64 = (seed % wu) as i64;
        seed = lcg_next(seed);
        assert(seed == streak_seed(frame, j as int, 1));
        let len: i64 = 12 + (seed % 28) as i64;
        seed = lcg_next(seed);
        assert(seed == streak_seed(frame, j as int, 2));
        let speed: u64 = 7 + (seed % 9) as u64;
        let y0: i64 = start_row(frame, speed, h, len);
        let c: u32 = tone(seed);
        let slanted: bool = (seed & 7u32) < 3;
        draw_run(fb, x, y0, slanted, c, len);
        proof {
            lemma_rain_step(buf0, pen0, wi, hi, frame, j as nat);
        }
        j = j + 1;
    }
}

} // verus!
