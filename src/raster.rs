use vstd::prelude::*;

verus! {

/// Bytes a planar 4:2:0 buffer needs: the luma plane of `h` rows of `pitch`
/// bytes, then two chroma planes of `h / 2` rows of `pitch / 2` bytes each.
pub open spec fn planar_len(pitch: int, h: int) -> int {
    pitch * h + 2 * ((h / 2) * (pitch / 2))
}

/// Where the luma byte of pixel `(x, y)` lies.
pub open spec fn luma_at(pitch: int, y: int, x: int) -> int {
    y * pitch + x
}

/// Where the byte of chroma row `row` and column `x` lies: rows of the first
/// chroma plane come first, the second plane's start at row `h / 2`.
pub open spec fn chroma_at(pitch: int, h: int, row: int, x: int) -> int {
    pitch * h + row * (pitch / 2) + x
}

/// A ramp from 0 towards 256 over `n` steps, at step `i`.
pub open spec fn ramp(i: int, n: int) -> int {
    i * 256 / n
}

proof fn lemma_luma_fits(pitch: int, h: int, y: int, x: int, w: int)
    requires
        0 <= y < h,
        0 <= x < w,
        w <= pitch,
    ensures
        0 <= y * pitch,
        0 <= luma_at(pitch, y, x) < pitch * h,
{
    assert(y * pitch + pitch <= pitch * h) by (nonlinear_arith)
        requires
            y < h,
            0 <= pitch,
    ;
    assert(0 <= y * pitch) by (nonlinear_arith)
        requires
            0 <= y,
            0 <= pitch,
    ;
}

proof fn lemma_chroma_fits(pitch: int, h: int, row: int, x: int, half_w: int)
    requires
        0 <= h,
        0 <= row < 2 * (h / 2),
        0 <= x < half_w,
        half_w <= pitch / 2,
    ensures
        0 <= row * (pitch / 2),
        pitch * h <= chroma_at(pitch, h, row, x) < planar_len(pitch, h),
{
    let q = pitch / 2;
    let hh = h / 2;
    assert(row * q + q <= 2 * (hh * q)) by (nonlinear_arith)
        requires
            row < 2 * hh,
            0 <= q,
    ;
    assert(0 <= row * q) by (nonlinear_arith)
        requires
            0 <= row,
            0 <= q,
    ;
}

proof fn lemma_cells_distinct(q: int, r1: int, x1: int, r2: int, x2: int)
    requires
        0 <= x1 < q,
        0 <= x2 < q,
        0 <= r1,
        0 <= r2,
        r1 != r2 || x1 != x2,
    ensures
        r1 * q + x1 != r2 * q + x2,
{
    if r1 < r2 {
        assert(r1 * q + q <= r2 * q) by (nonlinear_arith)
            requires
                r1 < r2,
                0 <= q,
        ;
    } else if r2 < r1 {
        assert(r2 * q + q <= r1 * q) by (nonlinear_arith)
            requires
                r2 < r1,
                0 <= q,
        ;
    }
}

proof fn lemma_ramp_byte(i: int, n: int)
    requires
        0 <= i < n,
    ensures
        0 <= ramp(i, n) < 256,
{
    assert(0 <= i * 256 / n < 256) by (nonlinear_arith)
        requires
            0 <= i < n,
    ;
}

/// Fills a planar 4:2:0 image of `w` by `h` pixels with a test pattern:
/// constant mid-grey luma, the first chroma plane rising from left to right,
/// the second from top to bottom.
pub fn fill_gradient(buffer: &mut [u8], pitch: usize, w: usize, h: usize)
    requires
        w <= pitch,
        planar_len(pitch as int, h as int) <= old(buffer)@.len(),
    ensures
        final(buffer)@.len() == old(buffer)@.len(),
        forall|y: int, x: int|
            0 <= y < h && 0 <= x < w ==> #[trigger] final(buffer)@[luma_at(pitch as int, y, x)] == 128,
        forall|y: int, x: int|
            0 <= y < h / 2 && 0 <= x < w / 2 ==> #[trigger] final(buffer)@[chroma_at(
                pitch as int,
                h as int,
                y,
                x,
            )] == ramp(x, (w / 2) as int),
        forall|y: int, x: int|
            0 <= y < h / 2 && 0 <= x < w / 2 ==> #[trigger] final(buffer)@[chroma_at(
                pitch as int,
                h as int,
                (h / 2) as int + y,
                x,
            )] == ramp(y, (h / 2) as int),
{
    let n = buffer.len();
    let ghost len = buffer@.len();
    proof {
        assert(0 <= (h / 2) * (pitch / 2)) by (nonlinear_arith);
        assert(pitch * h <= planar_len(pitch as int, h as int));
    }
    let mut y: usize = 0;
    while y < h
        invariant
            w <= pitch,
            pitch * h <= len,
            y <= h,
            buffer@.len() == len,
            len == n,
            forall|yy: int, xx: int|
                0 <= yy < y && 0 <= xx < w ==> #[trigger] buffer@[luma_at(pitch as int, yy, xx)] == 128,
        decreases h - y,
    {
        let mut x: usize = 0;
        while x < w
            invariant
                w <= pitch,
                pitch * h <= len,
                y < h,
                x <= w,
                buffer@.len() == len,
                len == n,
                forall|yy: int, xx: int|
                    0 <= yy < y && 0 <= xx < w ==> #[trigger] buffer@[luma_at(pitch as int, yy, xx)]
                        == 128,
                forall|xx: int| 0 <= xx < x ==> #[trigger] buffer@[luma_at(pitch as int, y as int, xx)] == 128,
            decreases w - x,
        {
            proof {
                lemma_luma_fits(pitch as int, h as int, y as int, x as int, w as int);
            }
            let at = y * pitch + x;
            let ghost before = buffer@;
            buffer[at] = 128;
            assert(buffer@[luma_at(pitch as int, y as int, x as int)] == 128);
            assert forall|yy: int, xx: int|
                0 <= yy < y && 0 <= xx < w implies #[trigger] buffer@[luma_at(pitch as int, yy, xx)] == 128 by {
                lemma_luma_fits(pitch as int, h as int, yy, xx, w as int);
                assert(before[luma_at(pitch as int, yy, xx)] == 128);
            }
            x += 1;
        }
        assert forall|yy: int, xx: int|
            0 <= yy <= y && 0 <= xx < w implies #[trigger] buffer@[luma_at(pitch as int, yy, xx)] == 128 by {
            if yy == y {
                assert(buffer@[luma_at(pitch as int, y as int, xx)] == 128);
            }
        }
        y += 1;
    }
    let half_w = w / 2;
    let half_h = h / 2;
    let q = pitch / 2;
    let y_size = pitch * h;
    let mut y: usize = 0;
    while y < half_h
        invariant
            w <= pitch,
                q == pitch / 2,
            half_w == w / 2,
            half_h == h / 2,
            y_size == pitch * h,
            planar_len(pitch as int, h as int) <= len,
            y <= half_h,
            buffer@.len() == len,
            len == n,
            forall|yy: int, xx: int|
                0 <= yy < h && 0 <= xx < w ==> #[trigger] buffer@[luma_at(pitch as int, yy, xx)] == 128,
            forall|yy: int, xx: int|
                0 <= yy < y && 0 <= xx < half_w ==> #[trigger] buffer@[chroma_at(
                    pitch as int,
                    h as int,
                    yy,
                    xx,
                )] == ramp(xx, half_w as int),
            forall|yy: int, xx: int|
                0 <= yy < y && 0 <= xx < half_w ==> #[trigger] buffer@[chroma_at(
                    pitch as int,
                    h as int,
                    half_h as int + yy,
                    xx,
                )] == ramp(yy, half_h as int),
        decreases half_h - y,
    {
        let mut x: usize = 0;
        while x < half_w
            invariant
                w <= pitch,
                        q == pitch / 2,
                half_w == w / 2,
                half_h == h / 2,
                y_size == pitch * h,
                planar_len(pitch as int, h as int) <= len,
                y < half_h,
                x <= half_w,
                buffer@.len() == len,
                len == n,
                forall|yy: int, xx: int|
                    0 <= yy < h && 0 <= xx < w ==> #[trigger] buffer@[luma_at(pitch as int, yy, xx)]
                        == 128,
                forall|yy: int, xx: int|
                    (0 <= yy < y && 0 <= xx < half_w) || (yy == y && 0 <= xx < x)
                        ==> #[trigger] buffer@[chroma_at(pitch as int, h as int, yy, xx)] == ramp(
                        xx,
                        half_w as int,
                    ),
                forall|yy: int, xx: int|
                    (0 <= yy < y && 0 <= xx < half_w) || (yy == y && 0 <= xx < x)
                        ==> #[trigger] buffer@[chroma_at(pitch as int, h as int, half_h as int + yy, xx)] == ramp(
                        yy,
                        half_h as int,
                    ),
            decreases half_w - x,
        {
            proof {
                lemma_ramp_byte(x as int, half_w as int);
                lemma_ramp_byte(y as int, half_h as int);
                lemma_chroma_fits(pitch as int, h as int, half_h as int + y as int, x as int, half_w as int);
                lemma_chroma_fits(pitch as int, h as int, y as int, x as int, half_w as int);
            }
            let u_off = y_size + y * q + x;
            let v_off = y_size + (half_h + y) * q + x;
            let u = (x as u128 * 256 / half_w as u128) as u8;
            let v = (y as u128 * 256 / half_h as u128) as u8;
            let ghost before = buffer@;
            buffer[u_off] = u;
            buffer[v_off] = v;
            proof {
                let hh = half_h as int;
                assert forall|yy: int, xx: int|
                    0 <= yy < h && 0 <= xx < w implies #[trigger] buffer@[luma_at(pitch as int, yy, xx)] == 128 by {
                    lemma_luma_fits(pitch as int, h as int, yy, xx, w as int);
                    assert(before[luma_at(pitch as int, yy, xx)] == 128);
                }
                assert forall|yy: int, xx: int|
                    (0 <= yy < y && 0 <= xx < half_w) || (yy == y && 0 <= xx <= x)
                        implies #[trigger] buffer@[chroma_at(pitch as int, h as int, yy, xx)] == ramp(xx, half_w as int) by {
                    lemma_chroma_fits(pitch as int, h as int, yy, xx, half_w as int);
                    lemma_cells_distinct(q as int, yy, xx, hh + y, x as int);
                    if yy != y || xx != x {
                        lemma_cells_distinct(q as int, yy, xx, y as int, x as int);
                        assert(before[chroma_at(pitch as int, h as int, yy, xx)] == ramp(xx, half_w as int));
                    }
                }
                assert forall|yy: int, xx: int|
                    (0 <= yy < y && 0 <= xx < half_w) || (yy == y && 0 <= xx <= x)
                        implies #[trigger] buffer@[chroma_at(pitch as int, h as int, hh + yy, xx)] == ramp(yy, half_h as int) by {
                    lemma_chroma_fits(pitch as int, h as int, hh + yy, xx, half_w as int);
                    if yy != y || xx != x {
                        lemma_cells_distinct(q as int, hh + yy, xx, y as int, x as int);
                        lemma_cells_distinct(q as int, hh + yy, xx, hh + y, x as int);
                        assert(before[chroma_at(pitch as int, h as int, hh + yy, xx)] == ramp(yy, half_h as int));
                    }
                }
            }
            x += 1;
        }
        y += 1;
    }
}

} // verus!
