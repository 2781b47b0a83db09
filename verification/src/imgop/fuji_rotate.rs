//! Integer geometry of a Fuji sensor whose photosites lie on a grid rotated
//! by 45 degrees.
use vstd::prelude::*;

use super::Dim2;

verus! {

/// `r` is the length of the diagonal of a square of side `n`, rounded down,
/// saturated at `usize::MAX`: the largest `r <= usize::MAX` with
/// `r * r <= 2 * n * n`, which is `floor(n * sqrt(2))` wherever that fits.
pub open spec fn is_scaled_diagonal(n: nat, r: nat) -> bool {
    &&& r <= usize::MAX
    &&& r * r <= 2 * (n * n)
    &&& (r == usize::MAX || 2 * (n * n) < (r + 1) * (r + 1))
}

/// `floor(n * sqrt(2))`, saturated at `usize::MAX`.
pub open spec fn scaled_diagonal(n: nat) -> nat {
    choose|r: nat| is_scaled_diagonal(n, r)
}

/// At most one length satisfies `is_scaled_diagonal` for a given side.
pub proof fn lemma_scaled_diagonal_unique(n: nat, r1: nat, r2: nat)
    requires
        is_scaled_diagonal(n, r1),
        is_scaled_diagonal(n, r2),
    ensures
        r1 == r2,
{
    if r1 < r2 {
        lemma_square_monotone(r1 + 1, r2);
    } else if r2 < r1 {
        lemma_square_monotone(r2 + 1, r1);
    }
}

proof fn lemma_square_monotone(a: nat, b: nat)
    requires
        a <= b,
    ensures
        a * a <= b * b,
{
    assert(a * a <= b * b) by (nonlinear_arith)
        requires
            a <= b,
    ;
}

proof fn lemma_scaled_diagonal_exists_from(n: nat, k: nat)
    requires
        k <= usize::MAX,
        k * k <= 2 * (n * n),
    ensures
        exists|r: nat| is_scaled_diagonal(n, r),
    decreases usize::MAX - k,
{
    if k == usize::MAX || 2 * (n * n) < (k + 1) * (k + 1) {
        assert(is_scaled_diagonal(n, k));
    } else {
        lemma_scaled_diagonal_exists_from(n, k + 1);
    }
}

/// Every side has a scaled diagonal: `scaled_diagonal(n)` is the largest
/// `r <= usize::MAX` with `r * r <= 2 * n * n`.
pub proof fn lemma_scaled_diagonal_spec(n: nat)
    ensures
        is_scaled_diagonal(n, scaled_diagonal(n)),
{
    lemma_scaled_diagonal_exists_from(n, 0);
}

/// The scaled diagonal grows with the side.
pub proof fn lemma_scaled_diagonal_monotone(m: nat, n: nat)
    requires
        m <= n,
    ensures
        scaled_diagonal(m) <= scaled_diagonal(n),
{
    lemma_scaled_diagonal_spec(m);
    lemma_scaled_diagonal_spec(n);
    let r1 = scaled_diagonal(m);
    let r2 = scaled_diagonal(n);
    if r1 > r2 {
        lemma_square_monotone(m, n);
        lemma_square_monotone(r2 + 1, r1);
    }
}

proof fn lemma_scaled_diagonal_is(n: nat, r: nat)
    requires
        is_scaled_diagonal(n, r),
    ensures
        scaled_diagonal(n) == r,
{
    let c = scaled_diagonal(n);
    assert(is_scaled_diagonal(n, c));
    lemma_scaled_diagonal_unique(n, r, c);
}

/// Width and height, in that order, of the largest upright rectangle inside
/// the rotated photosite grid of a sensor `width` columns wide whose
/// diagonal splits after `split` columns: the two sides are the scaled
/// diagonals of `split` and of `width - split` (nothing when `split` exceeds
/// `width`), the longer one first.
pub open spec fn fuji_dimension(width: nat, split: nat) -> (nat, nat) {
    let first = scaled_diagonal(split);
    let second = if split <= width {
        scaled_diagonal((width - split) as nat)
    } else {
        0
    };
    if first > second {
        (first, second)
    } else {
        (second, first)
    }
}

/// Measuring the split from the other edge of the sensor gives the same
/// rectangle.
pub proof fn lemma_fuji_dimension_mirror(width: nat, split: nat)
    requires
        split <= width,
    ensures
        fuji_dimension(width, split) == fuji_dimension(width, (width - split) as nat),
{
    assert((width - (width - split)) as nat == split);
}

/// A wider sensor with the same split gives an image at least as large in
/// both dimensions.
pub proof fn lemma_fuji_dimension_grows_with_width(w1: nat, w2: nat, split: nat)
    requires
        w1 <= w2,
    ensures
        fuji_dimension(w1, split).0 <= fuji_dimension(w2, split).0,
        fuji_dimension(w1, split).1 <= fuji_dimension(w2, split).1,
{
    if split <= w1 {
        lemma_scaled_diagonal_monotone((w1 - split) as nat, (w2 - split) as nat);
    }
}

/// `(w, h)` holds the two sides cut by the split, the scaled diagonal of
/// `split` and the scaled diagonal of `width - split` (none when `split`
/// exceeds `width`), the longer one as `w` and the shorter one as `h`.
pub open spec fn is_split_rectangle(width: nat, split: nat, w: nat, h: nat) -> bool {
    let one_side_ok = |r: nat| is_scaled_diagonal(split, r);
    let other_side_ok = |r: nat|
        if split <= width {
            is_scaled_diagonal((width - split) as nat, r)
        } else {
            r == 0
        };
    &&& h <= w
    &&& (one_side_ok(w) && other_side_ok(h)) || (one_side_ok(h) && other_side_ok(w))
}

/// The rectangle of `fuji_dimension` has as its sides exactly the two scaled
/// diagonals that the split cuts, longer one first.
pub proof fn lemma_fuji_dimension_sides(width: nat, split: nat)
    ensures
        is_split_rectangle(width, split, fuji_dimension(width, split).0, fuji_dimension(width, split).1),
{
    lemma_scaled_diagonal_spec(split);
    if split <= width {
        lemma_scaled_diagonal_spec((width - split) as nat);
    }
}

/// The scaled diagonal of a square of side `n`, found by bisection.
fn scaled_diagonal_of(n: usize) -> (r: usize)
    ensures
        is_scaled_diagonal(n as nat, r as nat),
{
    proof {
        assert(usize::MAX <= 0xffff_ffff_ffff_ffffnat);
    }
    let ghost nn: nat = (n as nat) * (n as nat);
    assert(n as nat * n as nat <= 0xffff_ffff_ffff_ffffnat * 0xffff_ffff_ffff_ffffnat) by (nonlinear_arith)
        requires
            n <= 0xffff_ffff_ffff_ffffnat,
    ;
    let n2: u128 = (n as u128) * (n as u128);
    let limit: u128 = usize::MAX as u128 + 1;
    let mut lo: u128 = 0;
    let mut hi: u128 = if (n as u128) * 2 + 1 < limit {
        (n as u128) * 2 + 1
    } else {
        limit
    };
    assert(hi == limit || 2 * nn < hi * hi) by (nonlinear_arith)
        requires
            hi == limit || hi == 2 * n + 1,
            nn == n * n,
    ;
    while hi - lo > 1
        invariant
            lo < hi <= limit,
            limit == usize::MAX + 1,
            n2 == nn,
            nn == (n as nat) * (n as nat),
            lo * lo <= 2 * nn,
            hi == limit || 2 * nn < hi * hi,
        decreases hi - lo,
    {
        let mid: u128 = lo + (hi - lo) / 2;
        assert(mid * mid <= 0xffff_ffff_ffff_ffffnat * 0xffff_ffff_ffff_ffffnat) by (nonlinear_arith)
            requires
                mid <= 0xffff_ffff_ffff_ffffnat,
        ;
        let sq: u128 = mid * mid;
        if sq <= n2 || sq - n2 <= n2 {
            lo = mid;
        } else {
            hi = mid;
        }
    }
    assert(hi == lo + 1);
    lo as usize
}

/// Dimensions of the upright image recovered from a sensor `width` columns
/// wide whose rotated grid splits after `fuji_rotation_width` columns; the
/// image is always landscape.
pub fn fuji_calc_dimension(width: usize, fuji_rotation_width: usize) -> (d: Dim2)
    ensures
        (d.w as nat, d.h as nat) == fuji_dimension(width as nat, fuji_rotation_width as nat),
        d.w >= d.h,
        is_split_rectangle(width as nat, fuji_rotation_width as nat, d.w as nat, d.h as nat),
{
    let first_side = scaled_diagonal_of(fuji_rotation_width);
    let second_side = if fuji_rotation_width <= width {
        scaled_diagonal_of(width - fuji_rotation_width)
    } else {
        0
    };
    proof {
        lemma_scaled_diagonal_is(fuji_rotation_width as nat, first_side as nat);
        if fuji_rotation_width <= width {
            lemma_scaled_diagonal_is((width - fuji_rotation_width) as nat, second_side as nat);
        }
    }
    proof {
        lemma_fuji_dimension_sides(width as nat, fuji_rotation_width as nat);
    }
    if first_side > second_side {
        Dim2::new(first_side, second_side)
    } else {
        Dim2::new(second_side, first_side)
    }
}


/// How one destination pixel of the 45-degree rotation is sampled from the
/// source image.
#[derive(Debug, Clone, Copy, PartialEq, Eq, Structural)]
pub enum SamplePoint {
    /// The point falls outside the source image; the pixel stays black.
    Outside,
    /// The point lies on the border; copy the nearest source pixel.
    Nearest { x: usize, y: usize },
    /// Interpolate between the source pixels at `(x0, y0)` and `(x0 + 1, y0 + 1)`.
    Bilinear { x0: usize, y0: usize },
}

/// The sampling decision for a source point whose rounded coordinates are
/// `(nearest_x, nearest_y)` and whose truncated coordinates are `(x0, y0)`,
/// in an image of `src_width` by `src_height` pixels.
pub open spec fn sample_point(
    nearest_x: int,
    nearest_y: int,
    x0: int,
    y0: int,
    src_width: int,
    src_height: int,
) -> SamplePoint {
    if nearest_x < 0 || nearest_x >= src_width || nearest_y < 0 || nearest_y >= src_height {
        SamplePoint::Outside
    } else if x0 < 0 || y0 < 0 || x0 + 1 >= src_width || y0 + 1 >= src_height {
        SamplePoint::Nearest { x: nearest_x as usize, y: nearest_y as usize }
    } else {
        SamplePoint::Bilinear { x0: x0 as usize, y0: y0 as usize }
    }
}

/// The sampling rule of the rotation: a rounded point outside the source is
/// skipped; otherwise the pixel is interpolated from `(x0, y0)` and
/// `(x0 + 1, y0 + 1)` whenever both lie inside the source, whatever the
/// rounded point is, and the nearest pixel is copied only on the border,
/// where one of them falls outside.
pub open spec fn is_sampling_rule(
    nearest_x: int,
    nearest_y: int,
    x0: int,
    y0: int,
    src_width: int,
    src_height: int,
    s: SamplePoint,
) -> bool {
    let rounded_inside = 0 <= nearest_x < src_width && 0 <= nearest_y < src_height;
    let cell_inside = 0 <= x0 && 0 <= y0 && x0 + 1 < src_width && y0 + 1 < src_height;
    &&& !rounded_inside ==> s == SamplePoint::Outside
    &&& rounded_inside && cell_inside ==> (s == SamplePoint::Bilinear {
        x0: x0 as usize,
        y0: y0 as usize,
    })
    &&& rounded_inside && !cell_inside ==> (s == SamplePoint::Nearest {
        x: nearest_x as usize,
        y: nearest_y as usize,
    })
}

/// `sample_point` follows the sampling rule on every input.
pub proof fn lemma_sample_point_rule(
    nearest_x: int,
    nearest_y: int,
    x0: int,
    y0: int,
    src_width: int,
    src_height: int,
)
    ensures
        is_sampling_rule(
            nearest_x,
            nearest_y,
            x0,
            y0,
            src_width,
            src_height,
            sample_point(nearest_x, nearest_y, x0, y0, src_width, src_height),
        ),
{
}

/// Decides how a destination pixel is sampled; every source pixel that the
/// decision names lies inside the source image.
pub fn classify_sample(
    nearest_x: isize,
    nearest_y: isize,
    x0: isize,
    y0: isize,
    src_width: usize,
    src_height: usize,
) -> (s: SamplePoint)
    ensures
        s == sample_point(
            nearest_x as int,
            nearest_y as int,
            x0 as int,
            y0 as int,
            src_width as int,
            src_height as int,
        ),
        s matches SamplePoint::Nearest { x, y } ==> x < src_width && y < src_height,
        s matches SamplePoint::Bilinear { x0, y0 } ==> x0 + 1 < src_width && y0 + 1 < src_height,
        is_sampling_rule(
            nearest_x as int,
            nearest_y as int,
            x0 as int,
            y0 as int,
            src_width as int,
            src_height as int,
            s,
        ),
{
    proof {
        lemma_sample_point_rule(
            nearest_x as int,
            nearest_y as int,
            x0 as int,
            y0 as int,
            src_width as int,
            src_height as int,
        );
    }
    if nearest_x < 0 || nearest_x as usize >= src_width || nearest_y < 0 || nearest_y as usize
        >= src_height {
        SamplePoint::Outside
    } else if x0 < 0 || y0 < 0 || x0 as usize + 1 >= src_width || y0 as usize + 1 >= src_height {
        SamplePoint::Nearest { x: nearest_x as usize, y: nearest_y as usize }
    } else {
        SamplePoint::Bilinear { x0: x0 as usize, y0: y0 as usize }
    }
}

} // verus!
