use fftw3::Dim;

#[test]
fn single_dim_extents_half_spectrum() {
    for &n in &[1usize, 2, 3, 4, 5, 31, 32, 33] {
        let (re, cx) = Dim::size(&[Dim { n, in_stride: 1, out_stride: 1 }]);
        assert_eq!(re, n);
        assert_eq!(cx, n / 2 + 1);
    }
}

#[test]
fn multi_dim_extents() {
    let ds = [
        Dim { n: 3, in_stride: 4, out_stride: 4 },
        Dim { n: 4, in_stride: 1, out_stride: 1 },
    ];
    let (re, cx) = Dim::size(&ds);
    assert_eq!(re, 12);
    assert_eq!(cx, 3 * (4 / 2 + 1));

    let ds = [
        Dim { n: 2, in_stride: 15, out_stride: 15 },
        Dim { n: 3, in_stride: 5, out_stride: 5 },
        Dim { n: 5, in_stride: 1, out_stride: 1 },
    ];
    let (re, cx) = Dim::size(&ds);
    assert_eq!(re, 30);
    assert_eq!(cx, 6 * (5 / 2 + 1));
}

#[test]
fn zero_length_axis_extents() {
    let (re, cx) = Dim::size(&[Dim { n: 0, in_stride: 1, out_stride: 1 }]);
    assert_eq!(re, 0);
    assert_eq!(cx, 1);
}

#[test]
fn array_size_symmetric_spans_every_axis_on_both_sides() {
    let ds = [
        Dim { n: 2, in_stride: 5, out_stride: 7 },
        Dim { n: 4, in_stride: 1, out_stride: 1 },
    ];
    let (in_, out) = Dim::array_size(&ds, false, false);
    assert_eq!(in_, 2 * 5 + 4 * 1);
    assert_eq!(out, 2 * 7 + 4 * 1);
}

#[test]
fn array_size_c2r_halves_input_side() {
    let ds = [Dim { n: 4, in_stride: 2, out_stride: 3 }];
    let (in_, out) = Dim::array_size(&ds, true, false);
    assert_eq!(in_, (4 / 2 + 1) * 2);
    assert_eq!(out, 4 * 3);
}

#[test]
fn array_size_r2c_halves_output_side() {
    let ds = [Dim { n: 4, in_stride: 2, out_stride: 3 }];
    let (in_, out) = Dim::array_size(&ds, false, true);
    assert_eq!(in_, 4 * 2);
    assert_eq!(out, (4 / 2 + 1) * 3);
}
