//! The outcome of planning: either the exact call that the engine's guru
//! planning interface is owed, or the reason the configuration was rejected
//! before any engine interaction.

use vstd::prelude::*;

use crate::dim::Dim;

verus! {

/// All the ways planning can fail.
#[derive(Debug)]
pub enum PlanningError {
    /// The engine's lowering call itself failed: it returned its failure
    /// sentinel, typically because the wisdom restriction was set with no
    /// matching wisdom, or from engine-internal resource exhaustion.
    FftwError,
    /// No dimensions were ever set and the transform kind has no
    /// whole-buffer default (true of either real↔complex direction).
    NoLengthNoDefault,
    /// A buffer is shorter than the computed required extent; carries the
    /// actual input length, the actual output length, and the dimensions
    /// they were checked against.
    BufferTooSmall(usize, usize, Vec<Dim>),
}

/// The mathematical image of a [`PlanningError`].
pub enum PlanErrV {
    /// The engine's lowering call itself failed.
    FftwError,
    /// No dimensions were set and there is no whole-buffer default.
    NoLengthNoDefault,
    /// A buffer is shorter than required.
    BufferTooSmall(usize, usize, Seq<Dim>),
}

impl View for PlanningError {
    type V = PlanErrV;

    open spec fn view(&self) -> PlanErrV {
        match self {
            PlanningError::FftwError => PlanErrV::FftwError,
            PlanningError::NoLengthNoDefault => PlanErrV::NoLengthNoDefault,
            PlanningError::BufferTooSmall(a, b, ds) => PlanErrV::BufferTooSmall(*a, *b, ds@),
        }
    }
}

/// The result of trying to lower a specification.
pub type PlanResult<T> = Result<T, PlanningError>;

/// Which of the engine's guru planning entry points a request is for.
#[derive(Debug, Clone, Copy, PartialEq, Eq, Structural)]
pub enum GuruEntry {
    /// The complex-to-complex entry point.
    Dft,
    /// The real-to-complex entry point.
    DftR2c,
    /// The complex-to-real entry point.
    DftC2r,
    /// The real-to-real entry point.
    R2r,
}

/// A fully validated lowering request: exactly the arguments that the
/// engine's guru planning entry point expects, short of the two buffer
/// addresses, which the program holding the buffers supplies.
pub struct GuruRequest {
    /// The entry point to call.
    pub entry: GuruEntry,
    /// The transform's axes; the entry's rank is their number.
    pub dims: Vec<Dim>,
    /// The batch axes; the entry's batch rank is their number.
    pub howmany: Vec<Dim>,
    /// The direction sign; read by the engine only for the `Dft` entry.
    pub sign: i32,
    /// The flag word: rigor, and the wisdom restriction when set.
    pub flags: u32,
    /// Engine kind codes, one per axis; read only for the `R2r` entry.
    pub kinds: Vec<u32>,
}

/// The mathematical image of a [`GuruRequest`].
pub struct GuruRequestV {
    /// The entry point to call.
    pub entry: GuruEntry,
    /// The transform's axes.
    pub dims: Seq<Dim>,
    /// The batch axes.
    pub howmany: Seq<Dim>,
    /// The direction sign.
    pub sign: i32,
    /// The flag word.
    pub flags: u32,
    /// Engine kind codes, one per axis.
    pub kinds: Seq<u32>,
}

impl View for GuruRequest {
    type V = GuruRequestV;

    open spec fn view(&self) -> GuruRequestV {
        GuruRequestV {
            entry: self.entry,
            dims: self.dims@,
            howmany: self.howmany@,
            sign: self.sign,
            flags: self.flags,
            kinds: self.kinds@,
        }
    }
}

/// The mathematical image of a planning outcome.
pub open spec fn plan_view(r: PlanResult<GuruRequest>) -> Result<GuruRequestV, PlanErrV> {
    match r {
        Ok(g) => Ok(g@),
        Err(e) => Err(e@),
    }
}

} // verus!
