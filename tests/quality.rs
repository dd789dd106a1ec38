use media_jobs::crf;

fn reference_quality(width: usize, height: usize) -> usize {
    let x = -0.0084 * ((width as f64) * (height as f64)).sqrt() + 40.22287;
    x.round().clamp(0.0, 63.0) as usize
}

#[test]
fn crf_full_hd() {
    assert_eq!(crf(1920, 1080), 28);
    assert_eq!(crf(1920, 1080), reference_quality(1920, 1080));
}

#[test]
fn crf_ultra_hd() {
    assert_eq!(crf(3840, 2160), 16);
    assert_eq!(crf(3840, 2160), reference_quality(3840, 2160));
}

#[test]
fn crf_tiny_frame() {
    assert_eq!(crf(16, 16), 40);
    assert_eq!(crf(0, 0), 40);
    assert_eq!(crf(1, 1), 40);
}

#[test]
fn crf_huge_frame_clamps_to_zero() {
    assert_eq!(crf(7680, 4320), 0);
    assert_eq!(crf(usize::MAX, usize::MAX), 0);
    assert_eq!(crf(100_000, 100_000), 0);
}

#[test]
fn crf_rounds_to_nearest() {
    // -0.0084 * sqrt(640 * 480) + 40.22287 = 35.567..., which rounds up.
    assert_eq!(crf(640, 480), 36);
    assert_eq!(crf(1280, 720), 32);
}

#[test]
fn crf_matches_formula_on_a_grid() {
    let mut w = 0;
    while w <= 8000 {
        let mut h = 0;
        while h <= 5000 {
            assert_eq!(crf(w, h), reference_quality(w, h), "{}x{}", w, h);
            h += 137;
        }
        w += 113;
    }
}
