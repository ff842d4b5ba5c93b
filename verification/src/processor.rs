use vstd::prelude::*;
use crate::rng::{rng_from_seed, rng_range_u64};

verus! {

/// One erosion point is spawned for every this many pixels of image area.
pub const POINT_FREQUENCY: u64 = 10;

/// Lower bound (inclusive) of the radius an erosion point may be given.
pub const POINT_SIZE_MIN: u64 = 1;

/// Upper bound (exclusive) of the radius an erosion point may be given.
pub const POINT_SIZE_MAX: u64 = 2;

/// Denominator of the fixed-point representation of noise levels: a level `c`
/// stands for the real value `c / NOISE_SCALE`, so `NOISE_SCALE` itself stands
/// for 1.0, the top of the noise composite's range.
pub const NOISE_SCALE: u32 = 1_000_000;

/// The image's larger dimension is divided by this constant (by the harness,
/// after construction) to obtain the noise resolution scale, so that noise
/// grain keeps a comparable apparent size across image sizes.
pub const RESOLUTION_DIVISION: u64 = 1000;

/// Pixel coordinates are divided by this constant before noise sampling; it
/// fixes the base frequency of the first octave.
pub const NOISE_DIVISION: u64 = 20;

/// A 4-channel 8-bit color value: red, green, blue, alpha.
#[derive(Clone, Copy, Debug, PartialEq, Eq, Structural)]
pub struct Pixel {
    pub r: u8,
    pub g: u8,
    pub b: u8,
    pub a: u8,
}

/// One erosion point: a position inside the image and the radius within which
/// it fully erodes alpha.
#[derive(Clone, Copy, Debug, PartialEq, Eq, Structural)]
pub struct PointData {
    pub x: u64,
    pub y: u64,
    pub radius: u8,
}

/// Squared Euclidean distance between two integer coordinates.
pub open spec fn dist_sq(px: int, py: int, qx: int, qy: int) -> int {
    (px - qx) * (px - qx) + (py - qy) * (py - qy)
}

/// A point fully erodes the queried coordinate when the Euclidean distance
/// between them is strictly below the point's radius; on integers that is
/// exactly the squared comparison.
pub open spec fn point_covers(p: PointData, x: int, y: int) -> bool {
    dist_sq(p.x as int, p.y as int, x, y) < (p.radius as int) * (p.radius as int)
}

/// Some point of the field fully erodes the queried coordinate.
pub open spec fn covered(points: Seq<PointData>, x: int, y: int) -> bool {
    exists|i: int| 0 <= i < points.len() && point_covers(#[trigger] points[i], x, y)
}

/// The queried coordinate is the exact position of some point of the field.
pub open spec fn at_point(points: Seq<PointData>, x: int, y: int) -> bool {
    exists|i: int| 0 <= i < points.len() && (#[trigger] points[i]).x == x && points[i].y == y
}

/// The larger of the two image dimensions.
pub open spec fn max_dim_spec(w: u64, h: u64) -> u64 {
    if h > w {
        h
    } else {
        w
    }
}

/// The alpha channel after noise erosion: the original alpha multiplied by the
/// composite noise level `c / NOISE_SCALE`, rounded to the nearest integer.
pub open spec fn scaled_alpha(a: u8, c: u32) -> int {
    (a as int * c as int + NOISE_SCALE as int / 2) / NOISE_SCALE as int
}

/// A color channel darkened by the secondary noise composite: the 50/50 blend
/// of the original channel with the composite mapped onto [0, 255], rounded to
/// the nearest integer.
pub open spec fn blended(ch: u8, d: u32) -> int {
    (ch as int * NOISE_SCALE as int + d as int * 255 + NOISE_SCALE as int) / (2 * NOISE_SCALE as int)
}

/// The green channel of the debug visualization: the original green plus the
/// composite mapped onto [0, 255] and rounded, saturating at 255.
pub open spec fn boosted(g: u8, c: u32) -> int {
    let add = (255 * c as int + NOISE_SCALE as int / 2) / NOISE_SCALE as int;
    if g as int + add > 255 {
        255
    } else {
        g as int + add
    }
}

/// Multiplies the original alpha by the composite noise level, rounding to the
/// nearest integer. The result never exceeds the original alpha, since the
/// level is at most 1.0.
pub fn scale_alpha(a: u8, c: u32) -> (r: u8)
    requires
        c <= NOISE_SCALE,
    ensures
        r as int == scaled_alpha(a, c),
        r <= a,
{
    proof {
        assert(a as int * c as int <= a as int * 1_000_000 && a as int * 1_000_000 <= 255_000_000)
            by (nonlinear_arith)
            requires
                c as int <= 1_000_000,
                0 <= a as int <= 255,
        ;
    }
    let wide: u64 = (a as u64) * (c as u64) + (NOISE_SCALE as u64) / 2;
    let q: u64 = wide / (NOISE_SCALE as u64);
    q as u8
}

/// Darkens one color channel: blends it half and half with the secondary
/// composite scaled to [0, 255], rounding to the nearest integer.
pub fn blend_channel(ch: u8, d: u32) -> (r: u8)
    requires
        d <= NOISE_SCALE,
    ensures
        r as int == blended(ch, d),
{
    proof {
        assert(ch as int * NOISE_SCALE as int <= 255_000_000) by (nonlinear_arith)
            requires
                0 <= ch as int <= 255,
                NOISE_SCALE as int == 1_000_000,
        ;
    }
    let wide: u64 = (ch as u64) * (NOISE_SCALE as u64) + (d as u64) * 255 + (NOISE_SCALE as u64);
    let q: u64 = wide / (2 * NOISE_SCALE as u64);
    proof {
        vstd::arithmetic::div_mod::lemma_div_is_ordered(
            wide as int,
            511_000_000,
            2 * NOISE_SCALE as int,
        );
    }
    q as u8
}

/// Adds the composite, scaled to [0, 255] and rounded, onto the green channel,
/// saturating at 255.
pub fn boost_green(g: u8, c: u32) -> (r: u8)
    requires
        c <= NOISE_SCALE,
    ensures
        r as int == boosted(g, c),
{
    let add: u32 = (255 * c + NOISE_SCALE / 2) / NOISE_SCALE;
    let sum: u32 = g as u32 + add;
    if sum > 255 {
        255
    } else {
        sum as u8
    }
}

/// Averages three octave levels, each already folded to [0, NOISE_SCALE], into
/// the composite noise level that drives erosion.
pub fn composite_of_octaves(o1: u32, o2: u32, o3: u32) -> (r: u32)
    requires
        o1 <= NOISE_SCALE,
        o2 <= NOISE_SCALE,
        o3 <= NOISE_SCALE,
    ensures
        r as int == (o1 as int + o2 as int + o3 as int) / 3,
        r <= NOISE_SCALE,
{
    (o1 + o2 + o3) / 3
}

/// Clamps a raw fixed-point level into the valid range [0, NOISE_SCALE], so
/// that a composite slightly above 1.0 saturates instead of overflowing.
pub fn clamp_level(raw: u64) -> (r: u32)
    ensures
        r as int == if raw as int > NOISE_SCALE as int { NOISE_SCALE as int } else { raw as int },
        r <= NOISE_SCALE,
{
    if raw > NOISE_SCALE as u64 {
        NOISE_SCALE
    } else {
        raw as u32
    }
}

/// Decides whether the point fully erodes the coordinate `(x, y)`: whether the
/// Euclidean distance between them is strictly below the point's radius. The
/// comparison is made exactly on squared integer distances.
pub fn point_within(p: &PointData, x: u64, y: u64) -> (r: bool)
    ensures
        r == point_covers(*p, x as int, y as int),
{
    let dx: u64 = if p.x >= x {
        p.x - x
    } else {
        x - p.x
    };
    let dy: u64 = if p.y >= y {
        p.y - y
    } else {
        y - p.y
    };
    proof {
        assert((p.x as int - x as int) * (p.x as int - x as int) == dx as int * dx as int)
            by (nonlinear_arith)
            requires
                dx as int == p.x as int - x as int || dx as int == x as int - p.x as int,
        ;
        assert((p.y as int - y as int) * (p.y as int - y as int) == dy as int * dy as int)
            by (nonlinear_arith)
            requires
                dy as int == p.y as int - y as int || dy as int == y as int - p.y as int,
        ;
    }
    let rad: u64 = p.radius as u64;
    if dx >= rad || dy >= rad {
        proof {
            assert(dx as int * dx as int + dy as int * dy as int >= rad as int * rad as int)
                by (nonlinear_arith)
                requires
                    0 <= rad as int,
                    0 <= dx as int,
                    0 <= dy as int,
                    dx as int >= rad as int || dy as int >= rad as int,
            ;
        }
        false
    } else {
        proof {
            assert(dx as int * dx as int + dy as int * dy as int <= 2 * 65025)
                by (nonlinear_arith)
                requires
                    0 <= dx as int <= 255,
                    0 <= dy as int <= 255,
            ;
            assert(rad as int * rad as int <= 65025) by (nonlinear_arith)
                requires
                    0 <= rad as int <= 255,
            ;
        }
        let d2: u64 = dx * dx + dy * dy;
        d2 < rad * rad
    }
}

/// The alpha channel produced by the default wear mode: zero within any
/// erosion point's radius, and otherwise the original alpha scaled by the
/// composite noise level.
pub open spec fn worn_alpha(points: Seq<PointData>, x: int, y: int, a: u8, c: u32) -> int {
    if covered(points, x, y) {
        0
    } else {
        scaled_alpha(a, c)
    }
}

/// The output of the solid-black stamp mode: opaque black, whatever the input
/// pixel was.
pub open spec fn set_black_spec(p: Pixel) -> Pixel {
    Pixel { r: 0, g: 0, b: 0, a: 255 }
}

/// The output of the transparency test pattern: a white pixel whose alpha is
/// the x coordinate modulo 255, whatever the input pixel was.
pub open spec fn transparency_spec(x: u64, p: Pixel) -> Pixel {
    Pixel { r: 255, g: 255, b: 255, a: (x as int % 255) as u8 }
}

/// The point lies inside an image of the given dimensions and its radius lies
/// inside the configured half-open range.
pub open spec fn point_in_bounds(p: PointData, w: u64, h: u64) -> bool {
    &&& p.x < w
    &&& p.y < h
    &&& POINT_SIZE_MIN <= (p.radius as u64)
    &&& (p.radius as u64) < POINT_SIZE_MAX
}

/// The texture-wear processor: the immutable state built once per image, read
/// by every per-pixel transform.
pub struct Processor {
    /// The image width the processor was built for.
    pub width: u64,
    /// The image height the processor was built for.
    pub height: u64,
    /// The seed for the coherent-noise source; the harness builds its noise
    /// generator from this value, so one processor yields one noise pattern.
    pub noise_seed: u32,
    /// The larger of the two dimensions; divided by `RESOLUTION_DIVISION` it
    /// gives the noise resolution scale.
    pub max_dimension: u64,
    /// The erosion-point field, generated once at construction.
    pub points: Vec<PointData>,
}

impl Processor {
    /// Every point lies inside the image, every radius lies inside the
    /// configured half-open range, and the stored maximum dimension is the
    /// larger of width and height.
    pub open spec fn wf(self) -> bool {
        &&& forall|i: int|
            0 <= i < self.points@.len() ==> point_in_bounds(
                #[trigger] self.points@[i],
                self.width,
                self.height,
            )
        &&& self.max_dimension == max_dim_spec(self.width, self.height)
    }

    /// Builds the processor for an image of the given dimensions: generates
    /// `floor(width * height / POINT_FREQUENCY)` erosion points, each with a
    /// position drawn from the image and a radius drawn from the configured
    /// half-open range, and records the seed the harness's noise source is to
    /// be built from. A zero-area image yields an empty point field.
    pub fn new(image_width: u64, image_height: u64, point_seed: u64, noise_seed: u32) -> (p:
        Processor)
        requires
            image_width as int * image_height as int <= u64::MAX as int,
        ensures
            p.wf(),
            p.width == image_width,
            p.height == image_height,
            p.noise_seed == noise_seed,
            p.points@.len() == (image_width as int * image_height as int) / (
            POINT_FREQUENCY as int),
            p.max_dimension == max_dim_spec(image_width, image_height),
    {
        let area: u64 = image_width * image_height;
        let count: u64 = area / POINT_FREQUENCY;
        let mut rng = rng_from_seed(point_seed);
        let mut points: Vec<PointData> = Vec::new();
        for i in 0..count
            invariant
                points@.len() == i as int,
                count as int == (image_width as int * image_height as int) / (
                POINT_FREQUENCY as int),
                forall|j: int|
                    0 <= j < points@.len() ==> point_in_bounds(
                        #[trigger] points@[j],
                        image_width,
                        image_height,
                    ),
        {
            proof {
                assert(image_width as int * image_height as int >= POINT_FREQUENCY as int);
                if image_width == 0 || image_height == 0 {
                    assert(image_width as int * image_height as int == 0) by (nonlinear_arith)
                        requires
                            image_width as int == 0 || image_height as int == 0,
                    ;
                }
            }
            let size: u64 = rng_range_u64(&mut rng, POINT_SIZE_MIN, POINT_SIZE_MAX);
            let px: u64 = rng_range_u64(&mut rng, 0, image_width);
            let py: u64 = rng_range_u64(&mut rng, 0, image_height);
            points.push(PointData { x: px, y: py, radius: size as u8 });
        }
        let md: u64 = if image_height > image_width {
            image_height
        } else {
            image_width
        };
        Processor {
            width: image_width,
            height: image_height,
            noise_seed,
            max_dimension: md,
            points,
        }
    }

    /// The number of erosion points that were generated, for diagnostic
    /// reporting.
    pub fn point_count(&self) -> (n: usize)
        ensures
            n == self.points@.len(),
    {
        self.points.len()
    }

    /// Decides whether any erosion point of the field fully erodes `(x, y)`,
    /// stopping at the first match: one match already forces the result.
    pub fn hits_any(&self, x: u64, y: u64) -> (r: bool)
        ensures
            r == covered(self.points@, x as int, y as int),
    {
        for i in 0..self.points.len()
            invariant
                forall|j: int| 0 <= j < i ==> !point_covers(#[trigger] self.points@[j], x as int, y as int),
        {
            if point_within(&self.points[i], x, y) {
                return true;
            }
        }
        false
    }

    /// Decides whether `(x, y)` is the exact position of some erosion point,
    /// stopping at the first match.
    pub fn at_any_point(&self, x: u64, y: u64) -> (r: bool)
        ensures
            r == at_point(self.points@, x as int, y as int),
    {
        for i in 0..self.points.len()
            invariant
                forall|j: int| 0 <= j < i ==> !((#[trigger] self.points@[j]).x == x as int && self.points@[j].y == y as int),
        {
            if self.points[i].x == x && self.points[i].y == y {
                return true;
            }
        }
        false
    }

    /// The default wear mode. The composite noise level scales the alpha
    /// channel down (rounding to nearest); the secondary composite darkens
    /// each color channel by a 50/50 blend with the composite mapped onto
    /// [0, 255]; and a pixel within any erosion point's radius has its alpha
    /// forced to zero, whatever the noise said.
    pub fn process_pixel(&self, x: u64, y: u64, pixel: &Pixel, composite: u32, darken: u32) -> (r:
        Pixel)
        requires
            composite <= NOISE_SCALE,
            darken <= NOISE_SCALE,
        ensures
            r.a as int == worn_alpha(self.points@, x as int, y as int, pixel.a, composite),
            r.r as int == blended(pixel.r, darken),
            r.g as int == blended(pixel.g, darken),
            r.b as int == blended(pixel.b, darken),
    {
        let noise_alpha: u8 = scale_alpha(pixel.a, composite);
        let alpha: u8 = if self.hits_any(x, y) {
            0
        } else {
            noise_alpha
        };
        Pixel {
            r: blend_channel(pixel.r, darken),
            g: blend_channel(pixel.g, darken),
            b: blend_channel(pixel.b, darken),
            a: alpha,
        }
    }

    /// The debug visualization mode: the composite is painted into the green
    /// channel (scaled to [0, 255], saturating), blue is saturated where some
    /// erosion point's radius reaches the pixel, red is saturated where the
    /// pixel sits exactly on a point's position, and alpha is untouched.
    pub fn process_pixel_debug(&self, x: u64, y: u64, pixel: &Pixel, composite: u32) -> (r: Pixel)
        requires
            composite <= NOISE_SCALE,
        ensures
            r.g as int == boosted(pixel.g, composite),
            r.b as int == if covered(self.points@, x as int, y as int) {
                255int
            } else {
                pixel.b as int
            },
            r.r as int == if at_point(self.points@, x as int, y as int) {
                255int
            } else {
                pixel.r as int
            },
            r.a == pixel.a,
    {
        let blue: u8 = if self.hits_any(x, y) {
            255
        } else {
            pixel.b
        };
        let red: u8 = if self.at_any_point(x, y) {
            255
        } else {
            pixel.r
        };
        Pixel { r: red, g: boost_green(pixel.g, composite), b: blue, a: pixel.a }
    }

    /// The transparency test pattern: ignores the processor's state and the
    /// input pixel, and returns white with alpha `x mod 255`.
    pub fn transparency_test(&self, x: u64, y: u64, pixel: &Pixel) -> (r: Pixel)
        ensures
            r == transparency_spec(x, *pixel),
    {
        Pixel { r: 255, g: 255, b: 255, a: (x % 255) as u8 }
    }

    /// The solid-black stamp: returns opaque black for every queried pixel.
    pub fn set_black(&self, x: u64, y: u64, pixel: &Pixel) -> (r: Pixel)
        ensures
            r == set_black_spec(*pixel),
    {
        Pixel { r: 0, g: 0, b: 0, a: 255 }
    }
}

/// The black stamp is input-independent and idempotent: any two pixels are
/// sent to the same opaque black, and stamping a stamped pixel changes
/// nothing.
pub proof fn lemma_set_black_constant_idempotent(p: Pixel, q: Pixel)
    ensures
        set_black_spec(p) == set_black_spec(q),
        set_black_spec(set_black_spec(p)) == set_black_spec(p),
{
}

/// The transparency test pattern depends on the x coordinate alone: its alpha
/// is exactly `x mod 255`, and the input pixel does not matter.
pub proof fn lemma_transparency_alpha(x: u64, p1: Pixel, p2: Pixel)
    ensures
        transparency_spec(x, p1) == transparency_spec(x, p2),
        transparency_spec(x, p1).a as int == x as int % 255,
{
}

/// A pixel standing exactly on a generated point's position lies within that
/// point's radius whenever every radius is at least 1 (as generation
/// guarantees): its distance is zero, so its worn alpha is zero and the debug
/// visualization saturates both its red and blue channels.
pub proof fn lemma_at_point_is_covered(points: Seq<PointData>, x: int, y: int)
    requires
        at_point(points, x, y),
        forall|i: int| 0 <= i < points.len() ==> 1 <= (#[trigger] points[i]).radius,
    ensures
        covered(points, x, y),
{
    let i = choose|i: int|
        0 <= i < points.len() && (#[trigger] points[i]).x == x && points[i].y == y;
    assert(1 <= points[i].radius as int * points[i].radius as int) by (nonlinear_arith)
        requires
            1 <= points[i].radius as int,
    ;
    let px = points[i].x as int;
    let py = points[i].y as int;
    assert((px - x) * (px - x) + (py - y) * (py - y) == 0) by (nonlinear_arith)
        requires
            px == x,
            py == y,
    ;
    assert(point_covers(points[i], x, y));
}

/// Wear never raises alpha: the worn alpha stays between zero and the
/// original alpha for every composite level, and within any erosion point's
/// radius it is exactly zero, whatever the composite level is.
pub proof fn lemma_worn_alpha_non_increasing(
    points: Seq<PointData>,
    x: int,
    y: int,
    a: u8,
    c: u32,
)
    requires
        c <= NOISE_SCALE,
    ensures
        0 <= worn_alpha(points, x, y, a, c) <= a as int,
        covered(points, x, y) ==> worn_alpha(points, x, y, a, c) == 0,
{
    assert(a as int * c as int <= a as int * 1_000_000 && 0 <= a as int * c as int)
        by (nonlinear_arith)
        requires
            0 <= c as int <= 1_000_000,
            0 <= a as int,
    ;
}

} // verus!
