use vstd::prelude::*;

use crate::color::{distance_sq, get_color_distance_squared, RgbColor};
use crate::config::ConfigType;
use crate::geometry::{get_mean, magnitude2_sq, mean_of, vector2_magnitude_squared};

verus! {

/// A captured frame: `width * height` colours, row by row.
#[derive(Clone, Debug)]
pub struct PixelBuffer {
    pub width: u32,
    pub height: u32,
    pub pixels: Vec<RgbColor>,
}

/// What one scan decided.
#[derive(Clone, Copy, Debug, PartialEq, Eq, Structural)]
pub enum ScanOutcome {
    /// Too few matching pixels, or none.
    NoMatch,
    /// The centroid of the matches lies too far from the screen centre.
    TooFarFromCenter,
    /// Click: the centroid of the matches and how many pixels matched.
    Trigger { x: u32, y: u32, match_count: usize },
}

impl PixelBuffer {
    /// The pixel vector holds exactly one colour per coordinate.
    pub open spec fn wf(&self) -> bool {
        self.pixels@.len() == self.width as int * self.height as int
    }

    /// Colour at column `x`, row `y`.
    pub open spec fn pixel_at(&self, x: int, y: int) -> RgbColor {
        self.pixels@[y * self.width as int + x]
    }

    /// A frame of the given size; `None` when `pixels` does not hold
    /// `width * height` colours.
    pub fn new(width: u32, height: u32, pixels: Vec<RgbColor>) -> (r: Option<PixelBuffer>)
        ensures
            pixels@.len() == width as int * height as int <==> r is Some,
            r matches Some(b) ==> b.wf() && b.width == width && b.height == height
                && b.pixels@ == pixels@,
    {
        proof {
            lemma_u32_product_fits(width, height);
        }
        let n = pixels.len() as u128;
        if n == (width as u128) * (height as u128) {
            Some(PixelBuffer { width, height, pixels })
        } else {
            None
        }
    }
}

/// `c` lies within the colour tolerance of the target.
pub open spec fn is_match(c: RgbColor, cfg: ConfigType) -> bool {
    distance_sq(c, cfg.target_color) < cfg.color_range_sq
}

/// Coordinates of the matching pixels of column `x` among rows `0..h`, top
/// to bottom.
pub open spec fn column_matches(buf: PixelBuffer, cfg: ConfigType, x: int, h: int) -> Seq<
    (u32, u32),
>
    decreases h,
{
    if h <= 0 {
        seq![]
    } else {
        let prev = column_matches(buf, cfg, x, h - 1);
        if is_match(buf.pixel_at(x, h - 1), cfg) {
            prev.push((x as u32, (h - 1) as u32))
        } else {
            prev
        }
    }
}

/// Coordinates of the matching pixels of columns `0..w`, column by column.
pub open spec fn matches_upto(buf: PixelBuffer, cfg: ConfigType, w: int) -> Seq<(u32, u32)>
    decreases w,
{
    if w <= 0 {
        seq![]
    } else {
        matches_upto(buf, cfg, w - 1) + column_matches(buf, cfg, w - 1, buf.height as int)
    }
}

/// Coordinates of every matching pixel of the frame.
pub open spec fn match_set(buf: PixelBuffer, cfg: ConfigType) -> Seq<(u32, u32)> {
    matches_upto(buf, cfg, buf.width as int)
}

/// Column of each match, in order.
pub open spec fn xs_of(m: Seq<(u32, u32)>) -> Seq<u32> {
    m.map_values(|p: (u32, u32)| p.0)
}

/// Row of each match, in order.
pub open spec fn ys_of(m: Seq<(u32, u32)>) -> Seq<u32> {
    m.map_values(|p: (u32, u32)| p.1)
}

/// Both coordinates of the screen centre, taken from the frame's height.
pub open spec fn center_of(buf: PixelBuffer) -> int {
    buf.height as int / 2
}

/// The outcome of scanning `buf` under `cfg`.
pub open spec fn scan_outcome(buf: PixelBuffer, cfg: ConfigType) -> ScanOutcome {
    let m = match_set(buf, cfg);
    let n = m.len();
    if cfg.checks.density && n < cfg.minimum_density {
        ScanOutcome::NoMatch
    } else if n == 0 {
        ScanOutcome::NoMatch
    } else {
        let cx = mean_of(xs_of(m));
        let cy = mean_of(ys_of(m));
        let c = center_of(buf);
        let r = cfg.check_radius as int;
        if cfg.checks.radius && magnitude2_sq(c - cx, c - cy) >= r * r {
            ScanOutcome::TooFarFromCenter
        } else {
            ScanOutcome::Trigger { x: cx as u32, y: cy as u32, match_count: n as usize }
        }
    }
}

proof fn lemma_u32_product_fits(a: u32, b: u32)
    ensures
        0 <= a as int * b as int <= 0xffff_fffe_0000_0001,
{
    assert(0 <= a as int * b as int <= 0xffff_fffe_0000_0001) by (nonlinear_arith)
        requires
            0 <= a <= 0xffff_ffff,
            0 <= b <= 0xffff_ffff,
    ;
}

proof fn lemma_index_in_frame(x: int, y: int, w: int, h: int)
    requires
        0 <= x < w,
        0 <= y < h,
    ensures
        0 <= y * w <= y * w + x < w * h,
{
    assert(0 <= y * w <= y * w + x < w * h) by (nonlinear_arith)
        requires
            0 <= x < w,
            0 <= y < h,
    ;
}

/// Scans every pixel of `buf`, collects those within tolerance of the
/// target colour, and applies the density and radius gates to their
/// centroid.
pub fn scan(buf: &PixelBuffer, cfg: &ConfigType) -> (r: ScanOutcome)
    requires
        buf.wf(),
    ensures
        r == scan_outcome(*buf, *cfg),
{
    let mut xs: Vec<u32> = Vec::new();
    let mut ys: Vec<u32> = Vec::new();
    let w = buf.width;
    let h = buf.height;
    let len = buf.pixels.len();
    let mut x: u32 = 0;
    while x < w
        invariant
            buf.wf(),
            w == buf.width,
            h == buf.height,
            len == buf.pixels@.len(),
            x <= w,
            xs@ == xs_of(matches_upto(*buf, *cfg, x as int)),
            ys@ == ys_of(matches_upto(*buf, *cfg, x as int)),
        decreases w - x,
    {
        let mut y: u32 = 0;
        while y < h
            invariant
                buf.wf(),
                w == buf.width,
                h == buf.height,
                len == buf.pixels@.len(),
                x < w,
                y <= h,
                xs@ == xs_of(
                    matches_upto(*buf, *cfg, x as int) + column_matches(*buf, *cfg, x as int, y as int),
                ),
                ys@ == ys_of(
                    matches_upto(*buf, *cfg, x as int) + column_matches(*buf, *cfg, x as int, y as int),
                ),
            decreases h - y,
        {
            proof {
                lemma_index_in_frame(x as int, y as int, w as int, h as int);
            }
            let idx: usize = (y as usize) * (w as usize) + (x as usize);
            let px = buf.pixels[idx];
            let d = get_color_distance_squared(px, cfg.target_color);
            let ghost before = matches_upto(*buf, *cfg, x as int) + column_matches(
                *buf,
                *cfg,
                x as int,
                y as int,
            );
            if d < cfg.color_range_sq {
                xs.push(x);
                ys.push(y);
                proof {
                    let p = (x, y);
                    assert(matches_upto(*buf, *cfg, x as int) + column_matches(
                        *buf,
                        *cfg,
                        x as int,
                        y + 1,
                    ) =~= before.push(p));
                    assert(xs_of(before.push(p)) =~= xs_of(before).push(x));
                    assert(ys_of(before.push(p)) =~= ys_of(before).push(y));
                }
            }
            y = y + 1;
        }
        assert(matches_upto(*buf, *cfg, x + 1) == matches_upto(*buf, *cfg, x as int)
            + column_matches(*buf, *cfg, x as int, h as int));
        x = x + 1;
    }
    let ghost m = match_set(*buf, *cfg);
    assert(xs@.len() == m.len());
    let n = xs.len();
    if cfg.checks.density && n < cfg.minimum_density as usize {
        return ScanOutcome::NoMatch;
    }
    if n == 0 {
        return ScanOutcome::NoMatch;
    }
    let cx = match get_mean(xs.as_slice()) {
        Ok(v) => v,
        Err(_) => return ScanOutcome::NoMatch,
    };
    let cy = match get_mean(ys.as_slice()) {
        Ok(v) => v,
        Err(_) => return ScanOutcome::NoMatch,
    };
    let c = h / 2;
    let d = vector2_magnitude_squared((c as i64) - (cx as i64), (c as i64) - (cy as i64));
    proof {
        lemma_u32_product_fits(cfg.check_radius, cfg.check_radius);
    }
    let rr = (cfg.check_radius as u128) * (cfg.check_radius as u128);
    if cfg.checks.radius && d >= rr {
        return ScanOutcome::TooFarFromCenter;
    }
    ScanOutcome::Trigger { x: cx, y: cy, match_count: n }
}

proof fn lemma_column_without_matches(buf: PixelBuffer, cfg: ConfigType, x: int, h: int)
    requires
        forall|y: int| 0 <= y < h ==> !is_match(#[trigger] buf.pixel_at(x, y), cfg),
    ensures
        column_matches(buf, cfg, x, h).len() == 0,
    decreases h,
{
    if h > 0 {
        lemma_column_without_matches(buf, cfg, x, h - 1);
    }
}

proof fn lemma_columns_without_matches(buf: PixelBuffer, cfg: ConfigType, w: int)
    requires
        forall|x: int, y: int|
            0 <= x < w && 0 <= y < buf.height ==> !is_match(#[trigger] buf.pixel_at(x, y), cfg),
    ensures
        matches_upto(buf, cfg, w).len() == 0,
    decreases w,
{
    if w > 0 {
        lemma_columns_without_matches(buf, cfg, w - 1);
        lemma_column_without_matches(buf, cfg, w - 1, buf.height as int);
    }
}

/// A frame in which no pixel lies within tolerance of the target yields
/// `NoMatch`, whichever gates are on.
pub proof fn lemma_background_gives_no_match(buf: PixelBuffer, cfg: ConfigType)
    requires
        forall|x: int, y: int|
            0 <= x < buf.width && 0 <= y < buf.height ==> !is_match(
                #[trigger] buf.pixel_at(x, y),
                cfg,
            ),
    ensures
        match_set(buf, cfg).len() == 0,
        scan_outcome(buf, cfg) == ScanOutcome::NoMatch,
{
    lemma_columns_without_matches(buf, cfg, buf.width as int);
}

/// With the radius gate on, a non-empty match set that passes the density
/// gate but whose centroid lies at or beyond `check_radius` from the centre
/// yields `TooFarFromCenter`.
pub proof fn lemma_far_centroid_is_rejected(buf: PixelBuffer, cfg: ConfigType)
    requires
        cfg.checks.radius,
        match_set(buf, cfg).len() > 0,
        !cfg.checks.density || match_set(buf, cfg).len() >= cfg.minimum_density,
        magnitude2_sq(
            center_of(buf) - mean_of(xs_of(match_set(buf, cfg))),
            center_of(buf) - mean_of(ys_of(match_set(buf, cfg))),
        ) >= cfg.check_radius as int * cfg.check_radius as int,
    ensures
        scan_outcome(buf, cfg) == ScanOutcome::TooFarFromCenter,
{
}

proof fn lemma_column_matches_same_pixels(
    b1: PixelBuffer,
    b2: PixelBuffer,
    cfg: ConfigType,
    x: int,
    h: int,
)
    requires
        b1.width == b2.width,
        b1.pixels@ == b2.pixels@,
    ensures
        column_matches(b1, cfg, x, h) == column_matches(b2, cfg, x, h),
    decreases h,
{
    if h > 0 {
        lemma_column_matches_same_pixels(b1, b2, cfg, x, h - 1);
    }
}

proof fn lemma_matches_upto_same_pixels(b1: PixelBuffer, b2: PixelBuffer, cfg: ConfigType, w: int)
    requires
        b1.width == b2.width,
        b1.height == b2.height,
        b1.pixels@ == b2.pixels@,
    ensures
        matches_upto(b1, cfg, w) == matches_upto(b2, cfg, w),
    decreases w,
{
    if w > 0 {
        lemma_matches_upto_same_pixels(b1, b2, cfg, w - 1);
        lemma_column_matches_same_pixels(b1, b2, cfg, w - 1, b1.height as int);
    }
}

/// Two scans of frames with the same size and the same pixels, under the same
/// configuration, decide the same outcome: a scan keeps no state between
/// calls.
pub proof fn lemma_scan_idempotent(b1: PixelBuffer, b2: PixelBuffer, cfg: ConfigType)
    requires
        b1.width == b2.width,
        b1.height == b2.height,
        b1.pixels@ == b2.pixels@,
    ensures
        scan_outcome(b1, cfg) == scan_outcome(b2, cfg),
{
    lemma_matches_upto_same_pixels(b1, b2, cfg, b1.width as int);
}

/// Outcomes of scanning `bufs` one after another, in order.
pub open spec fn sequential_outcomes(bufs: Seq<PixelBuffer>, cfg: ConfigType) -> Seq<ScanOutcome>
    decreases bufs.len(),
{
    if bufs.len() == 0 {
        seq![]
    } else {
        sequential_outcomes(bufs.drop_last(), cfg).push(scan_outcome(bufs.last(), cfg))
    }
}

/// Scans dispatched side by side, each on its own frame, give together what
/// scanning the frames one after another gives: each outcome is decided by
/// its own frame and configuration alone.
pub proof fn lemma_independent_scans_match_sequential(
    bufs: Seq<PixelBuffer>,
    cfg: ConfigType,
    outcomes: Seq<ScanOutcome>,
)
    requires
        outcomes.len() == bufs.len(),
        forall|i: int| 0 <= i < bufs.len() ==> #[trigger] outcomes[i] == scan_outcome(bufs[i], cfg),
    ensures
        outcomes == sequential_outcomes(bufs, cfg),
    decreases bufs.len(),
{
    if bufs.len() > 0 {
        let n = bufs.len() - 1;
        lemma_independent_scans_match_sequential(bufs.drop_last(), cfg, outcomes.drop_last());
        assert(outcomes =~= outcomes.drop_last().push(outcomes[n]));
    } else {
        assert(outcomes =~= seq![]);
    }
}

} // verus!
