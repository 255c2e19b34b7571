use fftw3::request::GuruEntry;
use fftw3::simple::Planner;
use fftw3::storage::{Buffer, Complex, Real};
use fftw3::{Dim, Direction, Rigor};

#[test]
fn simple_c2c_whole_buffer() {
    let planned = Planner::new()
        .rigor(Rigor::Measure)
        .c2c(Buffer::<Complex>::new(8, 1), Buffer::<Complex>::new(8, 1))
        .plan();
    assert_eq!(planned.request.entry, GuruEntry::Dft);
    assert_eq!(planned.request.dims, vec![Dim { n: 8, in_stride: 1, out_stride: 1 }]);
    assert_eq!(planned.request.flags, 0);
    assert_eq!(planned.request.sign, -1);
    assert_eq!(planned.input().len, 8);
    assert!(planned.output().is_some());
}

#[test]
fn simple_c2c_backward_sign() {
    let planned = Planner::new()
        .direction(Direction::Backward)
        .c2c(Buffer::<Complex>::new(4, 1), Buffer::<Complex>::new(4, 1))
        .plan();
    assert_eq!(planned.request.sign, 1);
}

#[test]
fn simple_r2c_dimension_is_real_length() {
    let planned = Planner::new()
        .r2c(Buffer::<Real>::new(8, 1), Buffer::<Complex>::new(5, 1))
        .plan();
    assert_eq!(planned.request.entry, GuruEntry::DftR2c);
    assert_eq!(planned.request.dims, vec![Dim { n: 8, in_stride: 1, out_stride: 1 }]);
}

#[test]
fn simple_c2r_dimension_doubles_spectrum() {
    let planned = Planner::new()
        .c2r(Buffer::<Complex>::new(5, 1), Buffer::<Real>::new(8, 1))
        .plan();
    assert_eq!(planned.request.entry, GuruEntry::DftC2r);
    assert_eq!(planned.request.dims, vec![Dim { n: 8, in_stride: 1, out_stride: 1 }]);
}

#[test]
fn simple_inplace_c2c_has_no_output() {
    let planned = Planner::new()
        .inplace()
        .c2c(Buffer::<Complex>::new(16, 1))
        .plan();
    assert_eq!(planned.request.entry, GuruEntry::Dft);
    assert_eq!(planned.request.dims, vec![Dim { n: 16, in_stride: 1, out_stride: 1 }]);
    assert!(planned.output().is_none());
    assert_eq!(planned.input().len, 16);
}

#[test]
fn simple_wisdom_restriction_flag() {
    let planned = Planner::new()
        .rigor(Rigor::Exhaustive)
        .wisdom_restriction(true)
        .c2c(Buffer::<Complex>::new(2, 1), Buffer::<Complex>::new(2, 1))
        .plan();
    assert_eq!(planned.request.flags, 8 + 2097152);
}
