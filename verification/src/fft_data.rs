//! The four supported element pairings and their validation rules.
//!
//! Complex↔complex and real↔real transforms default, when no dimensions were
//! declared, to one axis spanning the whole input buffer; either
//! real↔complex direction has no such default and is rejected instead.
//! Buffer sizes are checked against the required extents before any engine
//! interaction.

use vstd::prelude::*;

use crate::builder::{FftData, FftSpec, Inplace, Io, Ready, Secret, R2R};
use crate::dim::{complex_extent, extents_fit, real_extent, Dim};
use crate::meta::{direction_sign, dup_vec, meta_flags, Meta, MetaV};
use crate::request::{GuruEntry, GuruRequest, GuruRequestV, PlanErrV, PlanResult, PlanningError};
use crate::storage::{Complex, Layout, Real, Storage};

verus! {

/// The single default axis used when no dimensions were declared: the whole
/// input buffer as one dimension, with the two layouts' element strides.
pub open spec fn default_dim(in_: Layout, out: Layout) -> Dim {
    Dim { n: in_.len, in_stride: in_.stride, out_stride: out.stride }
}

/// The axes a same-element-type transform is lowered over: the declared
/// dimensions, or the whole-buffer default when none were declared.
pub open spec fn same_type_dims(in_: Layout, out: Layout, m: MetaV) -> Seq<Dim> {
    if m.dims.len() == 0 {
        seq![default_dim(in_, out)]
    } else {
        m.dims
    }
}

/// Elements required of each buffer of a same-element-type transform.
pub open spec fn same_type_required(in_: Layout, m: MetaV) -> int {
    if m.dims.len() == 0 {
        in_.len as int
    } else {
        real_extent(m.dims)
    }
}

/// The arithmetic of a same-element-type validation stays in `usize`.
pub open spec fn same_type_fits(m: MetaV) -> bool {
    m.dims.len() > 0 ==> extents_fit(m.dims)
}

/// The exact outcome of validating a complex→complex specification.
pub open spec fn c2c_plan_spec(in_: Layout, out: Layout, m: MetaV) -> Result<
    GuruRequestV,
    PlanErrV,
> {
    if in_.len < same_type_required(in_, m) || out.len < same_type_required(in_, m) {
        Err(PlanErrV::BufferTooSmall(in_.len, out.len, m.dims))
    } else {
        Ok(
            GuruRequestV {
                entry: GuruEntry::Dft,
                dims: same_type_dims(in_, out, m),
                howmany: m.howmany,
                sign: direction_sign(m.direction),
                flags: meta_flags(m),
                kinds: Seq::empty(),
            },
        )
    }
}

/// The exact outcome of validating a real→complex specification.
pub open spec fn r2c_plan_spec(in_: Layout, out: Layout, m: MetaV) -> Result<
    GuruRequestV,
    PlanErrV,
> {
    if m.dims.len() == 0 {
        Err(PlanErrV::NoLengthNoDefault)
    } else if in_.len < real_extent(m.dims) || out.len < complex_extent(m.dims) {
        Err(PlanErrV::BufferTooSmall(in_.len, out.len, m.dims))
    } else {
        Ok(
            GuruRequestV {
                entry: GuruEntry::DftR2c,
                dims: m.dims,
                howmany: m.howmany,
                sign: direction_sign(m.direction),
                flags: meta_flags(m),
                kinds: Seq::empty(),
            },
        )
    }
}

/// The exact outcome of validating a complex→real specification.
pub open spec fn c2r_plan_spec(in_: Layout, out: Layout, m: MetaV) -> Result<
    GuruRequestV,
    PlanErrV,
> {
    if m.dims.len() == 0 {
        Err(PlanErrV::NoLengthNoDefault)
    } else if in_.len < complex_extent(m.dims) || out.len < real_extent(m.dims) {
        Err(PlanErrV::BufferTooSmall(in_.len, out.len, m.dims))
    } else {
        Ok(
            GuruRequestV {
                entry: GuruEntry::DftC2r,
                dims: m.dims,
                howmany: m.howmany,
                sign: direction_sign(m.direction),
                flags: meta_flags(m),
                kinds: Seq::empty(),
            },
        )
    }
}

/// The rank a real→real specification is lowered with: its declared axis
/// count, or one for the whole-buffer default.
pub open spec fn r2r_rank(m: MetaV) -> int {
    if m.dims.len() == 0 {
        1
    } else {
        m.dims.len() as int
    }
}

/// The kind list matches the lowered rank, or is a single kind to
/// broadcast.
pub open spec fn r2r_kinds_ok(m: MetaV) -> bool {
    m.r2r_kinds.len() == 1 || m.r2r_kinds.len() == r2r_rank(m)
}

/// The kind codes handed to the engine: one per axis, a single declared
/// kind repeated across the rank.
pub open spec fn broadcast_kinds(m: MetaV) -> Seq<u32> {
    if m.r2r_kinds.len() == 1 {
        Seq::new(r2r_rank(m) as nat, |i: int| m.r2r_kinds[0])
    } else {
        m.r2r_kinds
    }
}

/// The exact outcome of validating a real→real specification.
pub open spec fn r2r_plan_spec(in_: Layout, out: Layout, m: MetaV) -> Result<
    GuruRequestV,
    PlanErrV,
> {
    if in_.len < same_type_required(in_, m) || out.len < same_type_required(in_, m) {
        Err(PlanErrV::BufferTooSmall(in_.len, out.len, m.dims))
    } else {
        Ok(
            GuruRequestV {
                entry: GuruEntry::R2r,
                dims: same_type_dims(in_, out, m),
                howmany: m.howmany,
                sign: direction_sign(m.direction),
                flags: meta_flags(m),
                kinds: broadcast_kinds(m),
            },
        )
    }
}

/// The declared dimensions, or the whole-buffer default, as a fresh vector.
fn lowered_dims_exec(in_: Layout, out: Layout, meta: &Meta) -> (r: Vec<Dim>)
    ensures
        r@ == same_type_dims(in_, out, meta@),
{
    if meta.dims.len() == 0 {
        let mut v: Vec<Dim> = Vec::new();
        v.push(Dim { n: in_.len, in_stride: in_.stride, out_stride: out.stride });
        proof {
            assert(v@ =~= seq![default_dim(in_, out)]);
        }
        v
    } else {
        dup_vec(&meta.dims)
    }
}

impl FftData<Complex> for Complex {
    type State = Ready;

    open spec fn plan_req(in_: Layout, out: Layout, m: MetaV) -> bool {
        same_type_fits(m)
    }

    open spec fn plan_spec(in_: Layout, out: Layout, m: MetaV) -> Result<
        GuruRequestV,
        PlanErrV,
    > {
        c2c_plan_spec(in_, out, m)
    }

    fn plan(in_: Layout, out: Layout, meta: &Meta) -> (r: PlanResult<GuruRequest>) {
        let required: usize = if meta.dims.len() == 0 {
            in_.len
        } else {
            Dim::size(meta.dims.as_slice()).0
        };
        if in_.len < required || out.len < required {
            return Err(PlanningError::BufferTooSmall(in_.len, out.len, dup_vec(&meta.dims)));
        }
        Ok(
            GuruRequest {
                entry: GuruEntry::Dft,
                dims: lowered_dims_exec(in_, out, meta),
                howmany: dup_vec(&meta.howmany),
                sign: meta.direction.sign(),
                flags: meta.flags(),
                kinds: Vec::new(),
            },
        )
    }

    fn secret() -> Secret {
        Secret::token()
    }
}

impl FftData<Complex> for Real {
    type State = Ready;

    open spec fn plan_req(in_: Layout, out: Layout, m: MetaV) -> bool {
        same_type_fits(m)
    }

    open spec fn plan_spec(in_: Layout, out: Layout, m: MetaV) -> Result<
        GuruRequestV,
        PlanErrV,
    > {
        r2c_plan_spec(in_, out, m)
    }

    fn plan(in_: Layout, out: Layout, meta: &Meta) -> (r: PlanResult<GuruRequest>) {
        if meta.dims.len() == 0 {
            return Err(PlanningError::NoLengthNoDefault);
        }
        let (r_size, c_size) = Dim::size(meta.dims.as_slice());
        if in_.len < r_size || out.len < c_size {
            return Err(PlanningError::BufferTooSmall(in_.len, out.len, dup_vec(&meta.dims)));
        }
        Ok(
            GuruRequest {
                entry: GuruEntry::DftR2c,
                dims: dup_vec(&meta.dims),
                howmany: dup_vec(&meta.howmany),
                sign: meta.direction.sign(),
                flags: meta.flags(),
                kinds: Vec::new(),
            },
        )
    }

    fn secret() -> Secret {
        Secret::token()
    }
}

impl FftData<Real> for Complex {
    type State = Ready;

    open spec fn plan_req(in_: Layout, out: Layout, m: MetaV) -> bool {
        same_type_fits(m)
    }

    open spec fn plan_spec(in_: Layout, out: Layout, m: MetaV) -> Result<
        GuruRequestV,
        PlanErrV,
    > {
        c2r_plan_spec(in_, out, m)
    }

    fn plan(in_: Layout, out: Layout, meta: &Meta) -> (r: PlanResult<GuruRequest>) {
        if meta.dims.len() == 0 {
            return Err(PlanningError::NoLengthNoDefault);
        }
        let (r_size, c_size) = Dim::size(meta.dims.as_slice());
        if in_.len < c_size || out.len < r_size {
            return Err(PlanningError::BufferTooSmall(in_.len, out.len, dup_vec(&meta.dims)));
        }
        Ok(
            GuruRequest {
                entry: GuruEntry::DftC2r,
                dims: dup_vec(&meta.dims),
                howmany: dup_vec(&meta.howmany),
                sign: meta.direction.sign(),
                flags: meta.flags(),
                kinds: Vec::new(),
            },
        )
    }

    fn secret() -> Secret {
        Secret::token()
    }
}

impl FftData<Real> for Real {
    type State = R2R;

    open spec fn plan_req(in_: Layout, out: Layout, m: MetaV) -> bool {
        same_type_fits(m) && r2r_kinds_ok(m)
    }

    open spec fn plan_spec(in_: Layout, out: Layout, m: MetaV) -> Result<
        GuruRequestV,
        PlanErrV,
    > {
        r2r_plan_spec(in_, out, m)
    }

    fn plan(in_: Layout, out: Layout, meta: &Meta) -> (r: PlanResult<GuruRequest>) {
        let required: usize = if meta.dims.len() == 0 {
            in_.len
        } else {
            Dim::size(meta.dims.as_slice()).0
        };
        if in_.len < required || out.len < required {
            return Err(PlanningError::BufferTooSmall(in_.len, out.len, dup_vec(&meta.dims)));
        }
        let rank: usize = if meta.dims.len() == 0 {
            1
        } else {
            meta.dims.len()
        };
        let kinds: Vec<u32> = if meta.r2r_kinds.len() == 1 {
            let k = meta.r2r_kinds[0];
            let mut v: Vec<u32> = Vec::new();
            let mut i: usize = 0;
            while i < rank
                invariant
                    0 <= i <= rank,
                    v@.len() == i,
                    forall|j: int| 0 <= j < i ==> v@[j] == k,
                decreases rank - i,
            {
                v.push(k);
                i = i + 1;
            }
            proof {
                assert(v@ =~= broadcast_kinds(meta@));
            }
            v
        } else {
            dup_vec(&meta.r2r_kinds)
        };
        Ok(
            GuruRequest {
                entry: GuruEntry::R2r,
                dims: lowered_dims_exec(in_, out, meta),
                howmany: dup_vec(&meta.howmany),
                sign: meta.direction.sign(),
                flags: meta.flags(),
                kinds,
            },
        )
    }

    fn secret() -> Secret {
        Secret::token()
    }
}

/// A real→complex specification whose complex-typed output buffer is
/// shorter than the half-complex spectrum is rejected with
/// `BufferTooSmall`, naming the actual buffer lengths and the axes they
/// were checked against — the engine is never consulted.
pub proof fn lemma_r2c_short_output_rejected(in_: Layout, out: Layout, m: MetaV)
    requires
        m.dims.len() > 0,
        (out.len as int) < complex_extent(m.dims),
    ensures
        <Real as FftData<Complex>>::plan_spec(in_, out, m) == Err::<GuruRequestV, PlanErrV>(
            PlanErrV::BufferTooSmall(in_.len, out.len, m.dims),
        ),
{
}

/// With buffers at least as long as the required extents, a real→complex
/// specification with declared axes is always lowered, to the real→complex
/// guru entry over exactly those axes.
pub proof fn lemma_r2c_ample_buffers_accepted(in_: Layout, out: Layout, m: MetaV)
    requires
        m.dims.len() > 0,
        in_.len >= real_extent(m.dims),
        out.len >= complex_extent(m.dims),
    ensures
        <Real as FftData<Complex>>::plan_spec(in_, out, m) == Ok::<GuruRequestV, PlanErrV>(
            GuruRequestV {
                entry: GuruEntry::DftR2c,
                dims: m.dims,
                howmany: m.howmany,
                sign: direction_sign(m.direction),
                flags: meta_flags(m),
                kinds: Seq::empty(),
            },
        ),
{
}

/// A real→complex specification that never had dimensions declared is
/// rejected with `NoLengthNoDefault`: that pairing has no whole-buffer
/// default.
pub proof fn lemma_r2c_needs_dims(in_: Layout, out: Layout, m: MetaV)
    requires
        m.dims.len() == 0,
    ensures
        <Real as FftData<Complex>>::plan_spec(in_, out, m) == Err::<GuruRequestV, PlanErrV>(
            PlanErrV::NoLengthNoDefault,
        ),
{
}

/// A complex→complex specification without declared dimensions falls back
/// to one axis spanning the whole input buffer, and succeeds whenever the
/// output buffer holds at least as many elements as the input.
pub proof fn lemma_c2c_default_whole_buffer(in_: Layout, out: Layout, m: MetaV)
    requires
        m.dims.len() == 0,
        out.len >= in_.len,
    ensures
        <Complex as FftData<Complex>>::plan_spec(in_, out, m) == Ok::<GuruRequestV, PlanErrV>(
            GuruRequestV {
                entry: GuruEntry::Dft,
                dims: seq![default_dim(in_, out)],
                howmany: m.howmany,
                sign: direction_sign(m.direction),
                flags: meta_flags(m),
                kinds: Seq::empty(),
            },
        ),
{
}

/// An in-place transform lowers to exactly the request that the
/// out-of-place one does whenever the separate output storage shares the
/// single storage's layout: the two plans differ only in the buffer
/// addresses the embedding program hands the engine.  (That the executed
/// results then agree numerically is the engine's own contract.)
pub proof fn lemma_inplace_matches_io<T: FftData<T>, I: Storage<Elem = T>, O: Storage<Elem = T>>(
    ip: Inplace<I>,
    io: Io<I, O>,
    m: MetaV,
)
    requires
        io.in_.layout_spec() == ip.in_out.layout_spec(),
        io.out.layout_spec() == ip.in_out.layout_spec(),
    ensures
        ip.plan_spec(m) == io.plan_spec(m),
{
}

impl<T: FftData<T>, I: Storage<Elem = T>> FftSpec for Inplace<I> {
    type Input = T;

    type Output = T;

    open spec fn plan_req(&self, m: MetaV) -> bool {
        T::plan_req(self.in_out.layout_spec(), self.in_out.layout_spec(), m)
    }

    open spec fn plan_spec(&self, m: MetaV) -> Result<GuruRequestV, PlanErrV> {
        T::plan_spec(self.in_out.layout_spec(), self.in_out.layout_spec(), m)
    }

    fn plan(&self, meta: &Meta) -> (r: PlanResult<GuruRequest>) {
        let l = self.in_out.layout();
        T::plan(l, l, meta)
    }

    fn secret() -> Secret {
        Secret::token()
    }
}

impl<U, T: FftData<U>, I: Storage<Elem = T>, O: Storage<Elem = U>> FftSpec for Io<I, O> {
    type Input = T;

    type Output = U;

    open spec fn plan_req(&self, m: MetaV) -> bool {
        T::plan_req(self.in_.layout_spec(), self.out.layout_spec(), m)
    }

    open spec fn plan_spec(&self, m: MetaV) -> Result<GuruRequestV, PlanErrV> {
        T::plan_spec(self.in_.layout_spec(), self.out.layout_spec(), m)
    }

    fn plan(&self, meta: &Meta) -> (r: PlanResult<GuruRequest>) {
        T::plan(self.in_.layout(), self.out.layout(), meta)
    }

    fn secret() -> Secret {
        Secret::token()
    }
}

} // verus!

