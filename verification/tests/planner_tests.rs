use fftw3::builder::Planner;
use fftw3::request::{GuruEntry, PlanningError};
use fftw3::storage::{Buffer, Complex, Real};
use fftw3::{Dim, Direction, R2rKind, Rigor};

#[test]
fn r2c_short_output_rejected_and_retry_succeeds() {
    let planner = Planner::new()
        .input(Buffer::<Real>::new(4, 1))
        .output(Buffer::<Complex>::new(2, 1))
        ._1d(4);
    match planner.plan() {
        Err((builder, PlanningError::BufferTooSmall(actual_in, actual_out, dims))) => {
            assert_eq!(actual_in, 4);
            assert_eq!(actual_out, 2);
            assert_eq!(dims, vec![Dim { n: 4, in_stride: 1, out_stride: 1 }]);
            // The rejected builder keeps its bound storages.
            assert_eq!(builder.data.in_.len, 4);
            assert_eq!(builder.data.out.len, 2);
            // Retry with the same input and a spectrum-sized output.
            let retry = Planner::new()
                .input(builder.data.in_)
                .output(Buffer::<Complex>::new(3, 1))
                ._1d(4);
            let plan = retry.plan().ok().unwrap();
            assert_eq!(plan.request.entry, GuruEntry::DftR2c);
            assert_eq!(plan.request.dims, vec![Dim { n: 4, in_stride: 1, out_stride: 1 }]);
        }
        _ => panic!("expected BufferTooSmall"),
    }
}

#[test]
fn r2c_without_dims_fails() {
    let planner = Planner::new()
        .input(Buffer::<Real>::new(8, 1))
        .output(Buffer::<Complex>::new(8, 1));
    match planner.plan() {
        Err((_, PlanningError::NoLengthNoDefault)) => {}
        _ => panic!("expected NoLengthNoDefault"),
    }
}

#[test]
fn c2r_without_dims_fails() {
    let planner = Planner::new()
        .input(Buffer::<Complex>::new(8, 1))
        .output(Buffer::<Real>::new(8, 1));
    match planner.plan() {
        Err((_, PlanningError::NoLengthNoDefault)) => {}
        _ => panic!("expected NoLengthNoDefault"),
    }
}

#[test]
fn c2c_without_dims_uses_whole_buffer_default() {
    let plan = Planner::new()
        .input(Buffer::<Complex>::new(4, 1))
        .output(Buffer::<Complex>::new(6, 1))
        .plan()
        .ok()
        .unwrap();
    assert_eq!(plan.request.entry, GuruEntry::Dft);
    assert_eq!(plan.request.dims, vec![Dim { n: 4, in_stride: 1, out_stride: 1 }]);
    assert_eq!(plan.request.sign, -1);
    assert_eq!(plan.request.flags, 64);
    assert!(plan.request.kinds.is_empty());
    assert!(plan.request.howmany.is_empty());
}

#[test]
fn c2c_short_output_rejected() {
    match Planner::new()
        .input(Buffer::<Complex>::new(4, 1))
        .output(Buffer::<Complex>::new(3, 1))
        ._1d(4)
        .plan()
    {
        Err((_, PlanningError::BufferTooSmall(4, 3, _))) => {}
        _ => panic!("expected BufferTooSmall"),
    }
}

#[test]
fn c2r_short_real_output_rejected() {
    // A length-8 real signal has a 5-element spectrum; the real side must
    // hold all 8.
    match Planner::new()
        .input(Buffer::<Complex>::new(5, 1))
        .output(Buffer::<Real>::new(7, 1))
        ._1d(8)
        .plan()
    {
        Err((_, PlanningError::BufferTooSmall(5, 7, dims))) => {
            assert_eq!(dims, vec![Dim { n: 8, in_stride: 1, out_stride: 1 }]);
        }
        _ => panic!("expected BufferTooSmall"),
    }
}

#[test]
fn row_major_strides_and_element_stride_scaling() {
    let plan = Planner::new()
        .input(Buffer::<Complex>::new(12, 2))
        .output(Buffer::<Complex>::new(12, 3))
        ._2d(2, 3)
        .plan()
        .ok()
        .unwrap();
    // Row-major strides (3, 1), composed with element strides 2 and 3.
    assert_eq!(
        plan.request.dims,
        vec![
            Dim { n: 2, in_stride: 6, out_stride: 9 },
            Dim { n: 3, in_stride: 2, out_stride: 3 },
        ]
    );
}

#[test]
fn three_dim_row_major_strides() {
    let plan = Planner::new()
        .input(Buffer::<Complex>::new(30, 1))
        .output(Buffer::<Complex>::new(30, 1))
        ._3d(2, 3, 5)
        .plan()
        .ok()
        .unwrap();
    assert_eq!(
        plan.request.dims,
        vec![
            Dim { n: 2, in_stride: 15, out_stride: 15 },
            Dim { n: 3, in_stride: 5, out_stride: 5 },
            Dim { n: 5, in_stride: 1, out_stride: 1 },
        ]
    );
}

#[test]
fn last_dimension_declaration_wins() {
    let plan = Planner::new()
        .input(Buffer::<Complex>::new(8, 1))
        .output(Buffer::<Complex>::new(8, 1))
        ._2d(2, 3)
        ._1d(8)
        .plan()
        .ok()
        .unwrap();
    assert_eq!(plan.request.dims, vec![Dim { n: 8, in_stride: 1, out_stride: 1 }]);
}

#[test]
fn nd_subarray_strides_multiply_later_entries() {
    let plan = Planner::new()
        .input(Buffer::<Complex>::new(100, 1))
        .output(Buffer::<Complex>::new(100, 1))
        .nd_subarray(&[(4, 2, 3), (5, 7, 11)])
        .plan()
        .ok()
        .unwrap();
    assert_eq!(
        plan.request.dims,
        vec![
            Dim { n: 4, in_stride: 7, out_stride: 11 },
            Dim { n: 5, in_stride: 1, out_stride: 1 },
        ]
    );
}

#[test]
fn backward_direction_sign() {
    let plan = Planner::new()
        .direction(Direction::Backward)
        .input(Buffer::<Complex>::new(4, 1))
        .output(Buffer::<Complex>::new(4, 1))
        .plan()
        .ok()
        .unwrap();
    assert_eq!(plan.request.sign, 1);
}

#[test]
fn rigor_and_wisdom_restriction_flags() {
    let plan = Planner::new()
        .rigor(Rigor::Patient)
        .wisdom_restriction(true)
        .input(Buffer::<Complex>::new(4, 1))
        .output(Buffer::<Complex>::new(4, 1))
        .plan()
        .ok()
        .unwrap();
    assert_eq!(plan.request.flags, 32 + 2097152);
}

#[test]
fn inplace_c2c_whole_buffer() {
    let plan = Planner::new()
        .input(Buffer::<Complex>::new(6, 1))
        .inplace()
        .plan()
        .ok()
        .unwrap();
    assert_eq!(plan.request.entry, GuruEntry::Dft);
    assert_eq!(plan.request.dims, vec![Dim { n: 6, in_stride: 1, out_stride: 1 }]);
    assert_eq!(plan.in_out().len, 6);
}

#[test]
fn io_plan_keeps_storages() {
    let plan = Planner::new()
        .input(Buffer::<Real>::new(8, 1))
        .output(Buffer::<Complex>::new(5, 1))
        ._1d(8)
        .plan()
        .ok()
        .unwrap();
    assert_eq!(plan.input().len, 8);
    assert_eq!(plan.output().len, 5);
    assert_eq!(plan.request().entry, GuruEntry::DftR2c);
}

#[test]
fn r2r_single_kind_broadcast_over_rank() {
    let plan = Planner::new()
        .input(Buffer::<Real>::new(6, 1))
        .inplace()
        ._2d(2, 3)
        .r2r_kind(R2rKind::Dht)
        .plan()
        .ok()
        .unwrap();
    assert_eq!(plan.request.entry, GuruEntry::R2r);
    assert_eq!(plan.request.kinds, vec![2u32, 2]);
    assert_eq!(
        plan.request.dims,
        vec![
            Dim { n: 2, in_stride: 3, out_stride: 3 },
            Dim { n: 3, in_stride: 1, out_stride: 1 },
        ]
    );
}

#[test]
fn r2r_kind_list_per_axis() {
    let plan = Planner::new()
        .input(Buffer::<Real>::new(6, 1))
        .output(Buffer::<Real>::new(6, 1))
        ._2d(2, 3)
        .r2r_kinds(&[R2rKind::R2hc, R2rKind::Hc2r])
        .plan()
        .ok()
        .unwrap();
    assert_eq!(plan.request.kinds, vec![0u32, 1]);
}

#[test]
fn r2r_without_dims_uses_whole_buffer_default() {
    let plan = Planner::new()
        .input(Buffer::<Real>::new(9, 1))
        .inplace()
        .r2r_kind(R2rKind::Dct10)
        .plan()
        .ok()
        .unwrap();
    assert_eq!(plan.request.entry, GuruEntry::R2r);
    assert_eq!(plan.request.dims, vec![Dim { n: 9, in_stride: 1, out_stride: 1 }]);
    assert_eq!(plan.request.kinds, vec![5u32]);
}

#[test]
fn r2r_short_buffer_rejected() {
    match Planner::new()
        .input(Buffer::<Real>::new(5, 1))
        .output(Buffer::<Real>::new(6, 1))
        ._1d(6)
        .r2r_kind(R2rKind::Dht)
        .plan()
    {
        Err((_, PlanningError::BufferTooSmall(5, 6, _))) => {}
        _ => panic!("expected BufferTooSmall"),
    }
}

#[test]
fn inplace_and_io_lower_identically() {
    let a = Planner::new()
        .input(Buffer::<Complex>::new(8, 1))
        .inplace()
        ._1d(8)
        .plan()
        .ok()
        .unwrap();
    let b = Planner::new()
        .input(Buffer::<Complex>::new(8, 1))
        .output(Buffer::<Complex>::new(8, 1))
        ._1d(8)
        .plan()
        .ok()
        .unwrap();
    assert_eq!(a.request.entry, b.request.entry);
    assert_eq!(a.request.dims, b.request.dims);
    assert_eq!(a.request.howmany, b.request.howmany);
    assert_eq!(a.request.sign, b.request.sign);
    assert_eq!(a.request.flags, b.request.flags);
    assert_eq!(a.request.kinds, b.request.kinds);
}

#[test]
fn r2c_two_dim_extent_boundary() {
    // Axes [2, 5]: the real side needs 2*5 = 10 elements, the complex side
    // 2 * (5/2 + 1) = 6.
    let plan = Planner::new()
        .input(Buffer::<Real>::new(10, 1))
        .output(Buffer::<Complex>::new(6, 1))
        ._2d(2, 5)
        .plan()
        .ok()
        .unwrap();
    assert_eq!(plan.request.entry, GuruEntry::DftR2c);

    match Planner::new()
        .input(Buffer::<Real>::new(10, 1))
        .output(Buffer::<Complex>::new(5, 1))
        ._2d(2, 5)
        .plan()
    {
        Err((_, PlanningError::BufferTooSmall(10, 5, _))) => {}
        _ => panic!("expected BufferTooSmall"),
    }
}
