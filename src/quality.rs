//! The constant-rate-factor ("quality") parameter of the final video encode.
//!
//! The parameter is `clamp(round(-0.0084 * sqrt(w * h) + 40.22287), 0, 63)`.
//! It is computed here in exact integer arithmetic: with `x` that expression
//! before rounding, `round(x) >= k` (for `k >= 1`) holds exactly when
//! `840 * sqrt(w * h) <= 4072287 - 100000 * k`, and both sides of that are
//! compared squared.
use vstd::prelude::*;

verus! {

/// The largest value the parameter may take.
pub const MAX_QUALITY: usize = 63;

/// `x + 1/2 >= k`, scaled by 100000, for `x = -0.0084 * sqrt(pixels) + 40.22287`:
/// the rounded expression reaches at least `k` (a positive `k`).
pub open spec fn rounds_to_at_least(pixels: int, k: int) -> bool {
    &&& 100000 * k <= 4072287
    &&& 705600 * pixels <= (4072287 - 100000 * k) * (4072287 - 100000 * k)
}

/// `q` is the rounded and clamped quality of a `width` x `height` frame:
/// it lies in `[0, 63]`, the rounded expression reaches `q` (or `q` is the
/// lower clamp) and does not reach `q + 1` (or `q` is the upper clamp).
pub open spec fn is_quality_of(width: int, height: int, q: int) -> bool {
    &&& 0 <= q <= MAX_QUALITY
    &&& (q == 0 || rounds_to_at_least(width * height, q))
    &&& (q == MAX_QUALITY || !rounds_to_at_least(width * height, q + 1))
}

/// The quality of a `width` x `height` frame.
pub open spec fn quality_of(width: int, height: int) -> int {
    choose|q: int| is_quality_of(width, height, q)
}

/// Reaching `k` implies reaching every smaller positive value.
pub proof fn lemma_rounds_to_at_least_monotone(pixels: int, j: int, k: int)
    requires
        0 <= pixels,
        1 <= j <= k,
        rounds_to_at_least(pixels, k),
    ensures
        rounds_to_at_least(pixels, j),
{
    let a = 4072287 - 100000 * k;
    let b = 4072287 - 100000 * j;
    assert(0 <= a <= b);
    assert(a * a <= b * b) by (nonlinear_arith)
        requires
            0 <= a <= b,
    ;
}

/// The quality is a function of the dimensions: one value meets the statement.
pub proof fn lemma_quality_unique(width: int, height: int, q1: int, q2: int)
    requires
        0 <= width,
        0 <= height,
        is_quality_of(width, height, q1),
        is_quality_of(width, height, q2),
    ensures
        q1 == q2,
{
    let p = width * height;
    assert(0 <= p) by (nonlinear_arith)
        requires
            0 <= width,
            0 <= height,
            p == width * height,
    ;
    if q1 < q2 {
        lemma_rounds_to_at_least_monotone(p, q1 + 1, q2);
    } else if q2 < q1 {
        lemma_rounds_to_at_least_monotone(p, q2 + 1, q1);
    }
}

/// The quality parameter of the encode for a `width` x `height` video.
pub fn crf(width: usize, height: usize) -> (r: usize)
    ensures
        is_quality_of(width as int, height as int, r as int),
        r == quality_of(width as int, height as int),
{
    let q = crf_search(width, height);
    proof {
        let c = quality_of(width as int, height as int);
        assert(is_quality_of(width as int, height as int, c));
        lemma_quality_unique(width as int, height as int, q as int, c);
    }
    q
}

fn crf_search(width: usize, height: usize) -> (r: usize)
    ensures
        is_quality_of(width as int, height as int, r as int),
{
    let w = width as u128;
    let h = height as u128;
    assert(w * h <= u128::MAX) by (nonlinear_arith)
        requires
            w <= usize::MAX,
            h <= usize::MAX,
            usize::MAX < 0x1_0000_0000_0000_0000,
    ;
    let pixels: u128 = w * h;
    if pixels > 100_000_000 {
        // Beyond this size even `k = 1` is out of reach.
        assert(!rounds_to_at_least(pixels as int, 1)) by (nonlinear_arith)
            requires
                pixels > 100_000_000,
        ;
        return 0;
    }
    let mut q: usize = 0;
    let mut reached_top = false;
    while q < MAX_QUALITY && !reached_top
        invariant
            pixels == width as int * height as int,
            pixels <= 100_000_000,
            q <= MAX_QUALITY,
            q == 0 || rounds_to_at_least(pixels as int, q as int),
            reached_top ==> !rounds_to_at_least(pixels as int, q + 1),
        decreases MAX_QUALITY - q + (if reached_top { 0int } else { 1int }),
    {
        let next: u128 = (q + 1) as u128;
        if 100000 * next > 4072287 {
            reached_top = true;
        } else {
            let room: u128 = 4072287 - 100000 * next;
            assert(705600 * pixels <= 70_560_000_000_000) by (nonlinear_arith)
                requires
                    pixels <= 100_000_000,
            ;
            assert(room * room <= 4072287 * 4072287) by (nonlinear_arith)
                requires
                    room <= 4072287,
            ;
            if 705600 * pixels > room * room {
                reached_top = true;
            } else {
                q = q + 1;
            }
        }
    }
    q
}

} // verus!
