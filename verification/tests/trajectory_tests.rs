use widget_demo::trajectory::banner_path;

fn scaled(v: f64) -> i64 {
    let m = (v * 1000.0).round() as i64;
    m.clamp(-1000, 1000)
}

#[test]
fn quarter_turns() {
    // t = 0: sin 0, cos 1.
    assert_eq!(banner_path(0, 1000), (700_000, 200_000));
    // t = pi/2: sin 1, cos 0.
    assert_eq!(banner_path(1000, 0), (800_000, 100_000));
    // t = pi: sin 0, cos -1.
    assert_eq!(banner_path(0, -1000), (700_000, 0));
    // t = 3 pi/2: sin -1, cos 0.
    assert_eq!(banner_path(-1000, 0), (600_000, 100_000));
}

#[test]
fn follows_the_sinusoid() {
    // Across a full revolution the integer path tracks
    // x = 700 + 100 sin t, y = 100 + 100 cos t to within the rounding
    // of the scaled sine and cosine (at most a twentieth of a pixel).
    let mut k: u32 = 0;
    while k <= 700 {
        let t = k as f64 / 100.0;
        let (x, y) = banner_path(scaled(t.sin()), scaled(t.cos()));
        let xf = 700.0 + 100.0 * t.sin();
        let yf = 100.0 + 100.0 * t.cos();
        assert!((x as f64 / 1000.0 - xf).abs() <= 0.05);
        assert!((y as f64 / 1000.0 - yf).abs() <= 0.05);
        k += 1;
    }
}

#[test]
fn amplitude_around_center() {
    // The point never leaves the 100-pixel band around (700, 100).
    let mut k: u32 = 0;
    while k <= 700 {
        let t = k as f64 / 100.0;
        let s = scaled(t.sin());
        let c = scaled(t.cos());
        let (x, y) = banner_path(s, c);
        assert!(600_000 <= x && x <= 800_000);
        assert!(0 <= y && y <= 200_000);
        // The offset from the centre is exactly the scaled input.
        assert_eq!(x - 700_000, 100 * s);
        assert_eq!(y - 100_000, 100 * c);
        k += 1;
    }
}

#[test]
fn period_two_pi() {
    // Shifting the elapsed time by 2 pi returns (up to the rounding of
    // the inputs) to the same point on the path.
    let two_pi = 2.0 * std::f64::consts::PI;
    let mut k: u32 = 0;
    while k < 100 {
        let t = k as f64 / 16.0;
        let p1 = banner_path(scaled(t.sin()), scaled(t.cos()));
        let u = t + two_pi;
        let p2 = banner_path(scaled(u.sin()), scaled(u.cos()));
        assert!((p1.0 - p2.0).abs() <= 100);
        assert!((p1.1 - p2.1).abs() <= 100);
        k += 1;
    }
}
