use fftw3::traits::Zero;
use fftw3::{Direction, R2rKind, Rigor};

#[test]
fn rigor_flag_words() {
    assert_eq!(Rigor::Estimate.flags(), 64);
    assert_eq!(Rigor::Measure.flags(), 0);
    assert_eq!(Rigor::Patient.flags(), 32);
    assert_eq!(Rigor::Exhaustive.flags(), 8);
}

#[test]
fn direction_signs() {
    assert_eq!(Direction::Forward.sign(), -1);
    assert_eq!(Direction::Backward.sign(), 1);
}

#[test]
fn r2r_kind_codes() {
    assert_eq!(R2rKind::R2hc.as_fftw(), 0);
    assert_eq!(R2rKind::Hc2r.as_fftw(), 1);
    assert_eq!(R2rKind::Dht.as_fftw(), 2);
    assert_eq!(R2rKind::Dct00.as_fftw(), 3);
    assert_eq!(R2rKind::Dct01.as_fftw(), 4);
    assert_eq!(R2rKind::Dct10.as_fftw(), 5);
    assert_eq!(R2rKind::Dct11.as_fftw(), 6);
    assert_eq!(R2rKind::Dst00.as_fftw(), 7);
    assert_eq!(R2rKind::Dst01.as_fftw(), 8);
    assert_eq!(R2rKind::Dst10.as_fftw(), 9);
    assert_eq!(R2rKind::Dst11.as_fftw(), 10);
}

#[test]
fn run_hands_back_the_closure_result() {
    let x = fftw3::lock::run(|| 41 + 1);
    assert_eq!(x, 42);
    let s = fftw3::lock::run(|| vec![1u8, 2, 3]);
    assert_eq!(s.len(), 3);
}

#[test]
fn zero_elements() {
    assert_eq!(<u8 as Zero>::zero(), 0);
    assert_eq!(<u64 as Zero>::zero(), 0);
    assert_eq!(<usize as Zero>::zero(), 0);
    assert_eq!(<i32 as Zero>::zero(), 0);
    assert_eq!(<isize as Zero>::zero(), 0);
}

#[test]
fn buffer_layout() {
    let b = fftw3::Buffer::<fftw3::storage::Real>::contiguous(10);
    assert_eq!(b.len, 10);
    assert_eq!(b.stride, 1);
    let b = fftw3::Buffer::<fftw3::storage::Complex>::new(10, 4);
    assert_eq!(b.stride, 4);
}
