use color_trigger::color::RgbColor;
use color_trigger::config::{CheckToggles, ConfigType};
use color_trigger::scan::{scan, PixelBuffer, ScanOutcome};

const BACKGROUND: RgbColor = RgbColor { r: 0, g: 0, b: 0 };
const TARGET: RgbColor = RgbColor { r: 255, g: 0, b: 0 };

fn frame(width: u32, height: u32, hits: &[(u32, u32)]) -> PixelBuffer {
    let mut pixels = vec![BACKGROUND; (width * height) as usize];
    for &(x, y) in hits {
        pixels[(y * width + x) as usize] = TARGET;
    }
    PixelBuffer::new(width, height, pixels).unwrap()
}

fn config(density: bool, minimum_density: u32, radius: bool, check_radius: u32) -> ConfigType {
    ConfigType {
        color_range_sq: 100,
        log_hits: false,
        toggle_key: String::from("F1"),
        use_tokio: false,
        check_cycles: 30,
        check_radius,
        minimum_density,
        checks: CheckToggles { density, radius },
        target_color: TARGET,
    }
}

#[test]
fn buffer_size_must_match() {
    assert!(PixelBuffer::new(2, 2, vec![BACKGROUND; 3]).is_none());
    assert!(PixelBuffer::new(2, 2, vec![BACKGROUND; 4]).is_some());
    assert!(PixelBuffer::new(0, 5, vec![]).is_some());
}

#[test]
fn background_only_gives_no_match() {
    let buf = frame(30, 20, &[]);
    assert_eq!(scan(&buf, &config(true, 1, false, 0)), ScanOutcome::NoMatch);
}

#[test]
fn empty_match_set_without_density_gate_gives_no_match() {
    let buf = frame(30, 20, &[]);
    assert_eq!(scan(&buf, &config(false, 0, false, 0)), ScanOutcome::NoMatch);
    assert_eq!(scan(&buf, &config(false, 0, true, 1000)), ScanOutcome::NoMatch);
}

#[test]
fn single_match_triggers_at_its_position() {
    let buf = frame(20, 20, &[(10, 10)]);
    assert_eq!(
        scan(&buf, &config(false, 0, false, 0)),
        ScanOutcome::Trigger { x: 10, y: 10, match_count: 1 }
    );
}

#[test]
fn far_centroid_is_rejected() {
    let buf = frame(100, 100, &[(0, 0), (1, 0), (0, 1)]);
    assert_eq!(scan(&buf, &config(true, 2, true, 5)), ScanOutcome::TooFarFromCenter);
}

#[test]
fn density_gate_rejects_small_clusters() {
    let buf = frame(20, 20, &[(3, 4), (5, 6)]);
    assert_eq!(scan(&buf, &config(true, 3, false, 0)), ScanOutcome::NoMatch);
    assert_eq!(
        scan(&buf, &config(true, 2, false, 0)),
        ScanOutcome::Trigger { x: 4, y: 5, match_count: 2 }
    );
}

#[test]
fn centroid_is_truncated_mean() {
    let buf = frame(20, 20, &[(1, 1), (2, 2)]);
    assert_eq!(
        scan(&buf, &config(false, 0, false, 0)),
        ScanOutcome::Trigger { x: 1, y: 1, match_count: 2 }
    );
}

#[test]
fn centre_comes_from_height() {
    // Width 200, height 100: the centre used is (50, 50), not (100, 50).
    let near = frame(200, 100, &[(50, 50)]);
    assert_eq!(
        scan(&near, &config(false, 0, true, 1)),
        ScanOutcome::Trigger { x: 50, y: 50, match_count: 1 }
    );
    let far = frame(200, 100, &[(100, 50)]);
    assert_eq!(scan(&far, &config(false, 0, true, 1)), ScanOutcome::TooFarFromCenter);
}

#[test]
fn radius_bound_is_exclusive() {
    // Centre (10, 10); the match at (13, 14) lies exactly 5 away.
    let buf = frame(20, 20, &[(13, 14)]);
    assert_eq!(scan(&buf, &config(false, 0, true, 5)), ScanOutcome::TooFarFromCenter);
    assert_eq!(
        scan(&buf, &config(false, 0, true, 6)),
        ScanOutcome::Trigger { x: 13, y: 14, match_count: 1 }
    );
}

#[test]
fn tolerance_bound_is_exclusive() {
    let near = RgbColor { r: 245, g: 0, b: 0 };
    let mut pixels = vec![BACKGROUND; 16];
    pixels[5] = near;
    let buf = PixelBuffer::new(4, 4, pixels).unwrap();
    let mut cfg = config(false, 0, false, 0);
    cfg.color_range_sq = 100;
    assert_eq!(scan(&buf, &cfg), ScanOutcome::NoMatch);
    cfg.color_range_sq = 101;
    assert_eq!(scan(&buf, &cfg), ScanOutcome::Trigger { x: 1, y: 1, match_count: 1 });
}

#[test]
fn scanning_twice_gives_the_same_outcome() {
    let buf = frame(40, 30, &[(5, 6), (7, 8), (30, 2)]);
    let cfg = config(true, 2, true, 50);
    let first = scan(&buf, &cfg);
    let second = scan(&buf.clone(), &cfg.clone());
    assert_eq!(first, second);
    assert_eq!(first, ScanOutcome::Trigger { x: 14, y: 5, match_count: 3 });
}

#[test]
fn independent_scans_agree_with_sequential_order() {
    let bufs = vec![
        frame(20, 20, &[(10, 10)]),
        frame(20, 20, &[]),
        frame(20, 20, &[(0, 0), (1, 1)]),
        frame(20, 20, &[(9, 11), (11, 9)]),
    ];
    let cfg = config(true, 1, true, 4);
    let forward: Vec<ScanOutcome> = bufs.iter().map(|b| scan(b, &cfg)).collect();
    let mut backward: Vec<ScanOutcome> = bufs.iter().rev().map(|b| scan(b, &cfg)).collect();
    backward.reverse();
    assert_eq!(forward, backward);
    assert_eq!(
        forward,
        vec![
            ScanOutcome::Trigger { x: 10, y: 10, match_count: 1 },
            ScanOutcome::NoMatch,
            ScanOutcome::TooFarFromCenter,
            ScanOutcome::Trigger { x: 10, y: 10, match_count: 2 },
        ]
    );
}
