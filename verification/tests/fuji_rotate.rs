use rawler::imgop::fuji_rotate::{classify_sample, fuji_calc_dimension, SamplePoint};
use rawler::imgop::Dim2;

#[test]
fn s2_pro_dimensions_are_landscape() {
    assert_eq!(fuji_calc_dimension(3664, 2192), Dim2::new(3099, 2081));
    assert_eq!(fuji_calc_dimension(916, 548), Dim2::new(774, 520));
}

#[test]
fn dimensions_put_the_longer_side_first() {
    // A split past the middle gives the longer side from the split itself.
    assert_eq!(fuji_calc_dimension(3664, 1472), Dim2::new(3099, 2081));
    assert_eq!(fuji_calc_dimension(100, 10), Dim2::new(127, 14));
}

#[test]
fn dimensions_mirror_the_split() {
    for (width, split) in [(3664usize, 2192usize), (916, 548), (4000, 1), (7, 3)] {
        assert_eq!(fuji_calc_dimension(width, split), fuji_calc_dimension(width, width - split));
    }
}

#[test]
fn dimensions_round_the_diagonal_down() {
    // floor(n * sqrt(2)) for small sides.
    let expected = [0usize, 1, 2, 4, 5, 7, 8, 9, 11, 12, 14];
    for (n, &d) in expected.iter().enumerate() {
        assert_eq!(fuji_calc_dimension(n, n), Dim2::new(d, 0));
    }
}

#[test]
fn dimensions_with_split_beyond_width() {
    assert_eq!(fuji_calc_dimension(10, 20), Dim2::new(28, 0));
    assert_eq!(fuji_calc_dimension(0, 0), Dim2::new(0, 0));
}

#[test]
fn dimensions_saturate_for_huge_sides() {
    let d = fuji_calc_dimension(usize::MAX, usize::MAX);
    assert_eq!(d, Dim2::new(usize::MAX, 0));
    let big = 3_000_000_000usize;
    // floor(3e9 * sqrt(2)) = 4242640687
    assert_eq!(fuji_calc_dimension(big, big).w, 4_242_640_687);
}

#[test]
fn samples_outside_the_source_are_skipped() {
    assert_eq!(classify_sample(-1, 0, -1, 0, 10, 5), SamplePoint::Outside);
    assert_eq!(classify_sample(10, 0, 9, 0, 10, 5), SamplePoint::Outside);
    assert_eq!(classify_sample(0, 5, 0, 4, 10, 5), SamplePoint::Outside);
    assert_eq!(classify_sample(0, -3, 0, -3, 10, 5), SamplePoint::Outside);
    assert_eq!(classify_sample(0, 0, 0, 0, 0, 0), SamplePoint::Outside);
}

#[test]
fn samples_on_the_border_copy_the_nearest_pixel() {
    assert_eq!(classify_sample(9, 2, 9, 2, 10, 5), SamplePoint::Nearest { x: 9, y: 2 });
    assert_eq!(classify_sample(0, 2, -1, 2, 10, 5), SamplePoint::Nearest { x: 0, y: 2 });
    assert_eq!(classify_sample(3, 4, 2, 4, 10, 5), SamplePoint::Nearest { x: 3, y: 4 });
    assert_eq!(classify_sample(3, 0, 3, -1, 10, 5), SamplePoint::Nearest { x: 3, y: 0 });
}

#[test]
fn samples_inside_are_interpolated() {
    assert_eq!(classify_sample(3, 2, 2, 1, 10, 5), SamplePoint::Bilinear { x0: 2, y0: 1 });
    assert_eq!(classify_sample(9, 4, 8, 3, 10, 5), SamplePoint::Bilinear { x0: 8, y0: 3 });
}

#[test]
fn dimensions_grow_with_the_width() {
    let split = 548usize;
    let mut previous = fuji_calc_dimension(0, split);
    for width in [100usize, 548, 600, 916, 1200, 3664] {
        let d = fuji_calc_dimension(width, split);
        assert!(previous.w <= d.w && previous.h <= d.h);
        previous = d;
    }
    assert_eq!(fuji_calc_dimension(916, 548), Dim2::new(774, 520));
    assert_eq!(fuji_calc_dimension(1200, 548), Dim2::new(922, 774));
}
