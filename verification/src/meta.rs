//! Planning options — effort, direction, real-to-real kinds — their numeric
//! codes in the engine's ABI, and the mutable specification record that a
//! planner accumulates.
//!
//! The engine's planning interface is driven by documented flag constants and
//! kind codes; they are fixed by its ABI and restated here so that a lowered
//! request carries exactly the words the engine expects.

use vstd::prelude::*;

use crate::dim::Dim;

verus! {

/// Engine planning flag: plan quickly, with a heuristic estimate.
pub const FFTW_ESTIMATE: u32 = 64;

/// Engine planning flag: time a few candidate strategies.
pub const FFTW_MEASURE: u32 = 0;

/// Engine planning flag: try a wider range of strategies.
pub const FFTW_PATIENT: u32 = 32;

/// Engine planning flag: try essentially every strategy.
pub const FFTW_EXHAUSTIVE: u32 = 8;

/// Engine planning flag: fail unless precomputed wisdom of at least the
/// requested rigor already exists.
pub const FFTW_WISDOM_ONLY: u32 = 2097152;

/// Engine direction sign for a forward transform.
pub const FFTW_FORWARD: i32 = -1;

/// Engine direction sign for a backward transform.
pub const FFTW_BACKWARD: i32 = 1;

/// Engine kind code: real to half-complex forward transform.
pub const FFTW_R2HC: u32 = 0;

/// Engine kind code: half-complex to real inverse transform.
pub const FFTW_HC2R: u32 = 1;

/// Engine kind code: discrete Hartley transform.
pub const FFTW_DHT: u32 = 2;

/// Engine kind code: DCT-I.
pub const FFTW_REDFT00: u32 = 3;

/// Engine kind code: DCT-III.
pub const FFTW_REDFT01: u32 = 4;

/// Engine kind code: DCT-II.
pub const FFTW_REDFT10: u32 = 5;

/// Engine kind code: DCT-IV.
pub const FFTW_REDFT11: u32 = 6;

/// Engine kind code: DST-I.
pub const FFTW_RODFT00: u32 = 7;

/// Engine kind code: DST-III.
pub const FFTW_RODFT01: u32 = 8;

/// Engine kind code: DST-II.
pub const FFTW_RODFT10: u32 = 9;

/// Engine kind code: DST-IV.
pub const FFTW_RODFT11: u32 = 10;

/// How much effort the engine should put into computing the best execution
/// strategy: a monotonically increasing planning-time/execution-speed
/// trade-off.
#[derive(Debug, Clone, Copy, PartialEq, Eq, Structural)]
pub enum Rigor {
    /// Plan quickly, with a heuristic estimate.
    Estimate,
    /// Time a few candidate strategies.
    Measure,
    /// Try a wider range of strategies.
    Patient,
    /// Try essentially every strategy.
    Exhaustive,
}

/// The engine flag word of a rigor level.
pub open spec fn rigor_flags(r: Rigor) -> u32 {
    match r {
        Rigor::Estimate => FFTW_ESTIMATE,
        Rigor::Measure => FFTW_MEASURE,
        Rigor::Patient => FFTW_PATIENT,
        Rigor::Exhaustive => FFTW_EXHAUSTIVE,
    }
}

impl Rigor {
    /// The engine flag word of this rigor level.
    pub fn flags(self) -> (r: u32)
        ensures
            r == rigor_flags(self),
    {
        match self {
            Rigor::Estimate => FFTW_ESTIMATE,
            Rigor::Measure => FFTW_MEASURE,
            Rigor::Patient => FFTW_PATIENT,
            Rigor::Exhaustive => FFTW_EXHAUSTIVE,
        }
    }
}

/// The direction of the transform to perform; meaningful only for
/// complex↔complex transforms, whose two directions share one entry point.
#[derive(Debug, Clone, Copy, PartialEq, Eq, Structural)]
pub enum Direction {
    /// The forward transform.
    Forward,
    /// The backward (inverse, unnormalised) transform.
    Backward,
}

/// The engine sign of a direction.
pub open spec fn direction_sign(d: Direction) -> i32 {
    match d {
        Direction::Forward => FFTW_FORWARD,
        Direction::Backward => FFTW_BACKWARD,
    }
}

impl Direction {
    /// The engine sign of this direction.
    pub fn sign(self) -> (r: i32)
        ensures
            r == direction_sign(self),
    {
        match self {
            Direction::Forward => FFTW_FORWARD,
            Direction::Backward => FFTW_BACKWARD,
        }
    }
}

/// Which real-to-real transform family to perform along an axis.
#[derive(Debug, Clone, Copy, PartialEq, Eq, Structural)]
pub enum R2rKind {
    /// A forward FFT computing a half-complex transform: the real parts of
    /// the spectrum stand in the first half of the output and the imaginary
    /// parts, reversed, in the second half.
    R2hc,
    /// The inverse of `R2hc`, expecting the same half-complex layout.
    Hc2r,
    /// The discrete Hartley transform; its own inverse.
    Dht,
    /// DCT-I; its own inverse.
    Dct00,
    /// DCT-III; inverse of `Dct10`.
    Dct01,
    /// DCT-II; inverse of `Dct01`.
    Dct10,
    /// DCT-IV; its own inverse.
    Dct11,
    /// DST-I; its own inverse.
    Dst00,
    /// DST-III; inverse of `Dst10`.
    Dst01,
    /// DST-II; inverse of `Dst01`.
    Dst10,
    /// DST-IV; its own inverse.
    Dst11,
}

/// The engine kind code of a real-to-real transform family.
pub open spec fn r2r_code(k: R2rKind) -> u32 {
    match k {
        R2rKind::R2hc => FFTW_R2HC,
        R2rKind::Hc2r => FFTW_HC2R,
        R2rKind::Dht => FFTW_DHT,
        R2rKind::Dct00 => FFTW_REDFT00,
        R2rKind::Dct01 => FFTW_REDFT01,
        R2rKind::Dct10 => FFTW_REDFT10,
        R2rKind::Dct11 => FFTW_REDFT11,
        R2rKind::Dst00 => FFTW_RODFT00,
        R2rKind::Dst01 => FFTW_RODFT01,
        R2rKind::Dst10 => FFTW_RODFT10,
        R2rKind::Dst11 => FFTW_RODFT11,
    }
}

impl R2rKind {
    /// The engine kind code of this family.
    pub fn as_fftw(self) -> (r: u32)
        ensures
            r == r2r_code(self),
    {
        match self {
            R2rKind::R2hc => FFTW_R2HC,
            R2rKind::Hc2r => FFTW_HC2R,
            R2rKind::Dht => FFTW_DHT,
            R2rKind::Dct00 => FFTW_REDFT00,
            R2rKind::Dct01 => FFTW_REDFT01,
            R2rKind::Dct10 => FFTW_REDFT10,
            R2rKind::Dct11 => FFTW_REDFT11,
            R2rKind::Dst00 => FFTW_RODFT00,
            R2rKind::Dst01 => FFTW_RODFT01,
            R2rKind::Dst10 => FFTW_RODFT10,
            R2rKind::Dst11 => FFTW_RODFT11,
        }
    }
}

/// The accumulated specification of a set of transforms: planning options,
/// the element strides of the bound storages, the transform axes, the batch
/// ("how many") axes, and the real-to-real kind codes, one per axis or one
/// to broadcast.
pub struct Meta {
    /// Planning effort.
    pub rigor: Rigor,
    /// Fail planning unless matching wisdom already exists.
    pub wisdom_restriction: bool,
    /// Transform direction (complex↔complex only).
    pub direction: Direction,
    /// Element stride of the bound input storage.
    pub in_stride: usize,
    /// Element stride of the bound output storage.
    pub out_stride: usize,
    /// Engine kind codes for a real-to-real transform.
    pub r2r_kinds: Vec<u32>,
    /// The transform's own axes, outermost first.
    pub dims: Vec<Dim>,
    /// Batch axes along which the transform repeats.
    pub howmany: Vec<Dim>,
}

/// The mathematical image of a [`Meta`].
pub struct MetaV {
    /// Planning effort.
    pub rigor: Rigor,
    /// Fail planning unless matching wisdom already exists.
    pub wisdom_restriction: bool,
    /// Transform direction.
    pub direction: Direction,
    /// Element stride of the bound input storage.
    pub in_stride: usize,
    /// Element stride of the bound output storage.
    pub out_stride: usize,
    /// Engine kind codes for a real-to-real transform.
    pub r2r_kinds: Seq<u32>,
    /// The transform's own axes.
    pub dims: Seq<Dim>,
    /// Batch axes.
    pub howmany: Seq<Dim>,
}

impl View for Meta {
    type V = MetaV;

    open spec fn view(&self) -> MetaV {
        MetaV {
            rigor: self.rigor,
            wisdom_restriction: self.wisdom_restriction,
            direction: self.direction,
            in_stride: self.in_stride,
            out_stride: self.out_stride,
            r2r_kinds: self.r2r_kinds@,
            dims: self.dims@,
            howmany: self.howmany@,
        }
    }
}

/// The flag word of a specification: its rigor's flags, with the
/// wisdom-restriction bit added when set.
pub open spec fn meta_flags(m: MetaV) -> u32 {
    (rigor_flags(m.rigor) + if m.wisdom_restriction {
        FFTW_WISDOM_ONLY
    } else {
        0
    }) as u32
}

impl Meta {
    /// The flag word to hand the engine for this specification.
    pub fn flags(&self) -> (r: u32)
        ensures
            r == meta_flags(self@),
    {
        // The rigor flags and the wisdom bit occupy disjoint bits, so their
        // sum is their union.
        self.rigor.flags() + if self.wisdom_restriction {
            FFTW_WISDOM_ONLY
        } else {
            0
        }
    }
}

/// A fresh copy of a vector of plain values.
pub(crate) fn dup_vec<T: Copy>(v: &Vec<T>) -> (r: Vec<T>)
    ensures
        r@ == v@,
{
    let mut r: Vec<T> = Vec::new();
    let mut i: usize = 0;
    while i < v.len()
        invariant
            0 <= i <= v@.len(),
            r@ == v@.take(i as int),
        decreases v@.len() - i,
    {
        r.push(v[i]);
        proof {
            assert(v@.take(i + 1) =~= v@.take(i as int).push(v@[i as int]));
        }
        i = i + 1;
    }
    proof {
        assert(v@.take(v@.len() as int) =~= v@);
    }
    r
}

} // verus!
