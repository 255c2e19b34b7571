//! The staged planner: a type-state builder that accumulates a transform
//! specification and lowers it into an engine request.
//!
//! A [`Planner`] moves through stages encoded in its type: [`Begin`] (nothing
//! bound), then [`Input`] after [`Planner::input`], then one of the terminal
//! stages [`Io`] ([`Planner::output`]) or [`Inplace`] ([`Planner::inplace`]).
//! The second type parameter tracks whether the bound element pairing still
//! owes a real-to-real kind ([`R2R`]) or is [`Ready`]; only a `Ready` planner
//! can be lowered with [`Planner::plan`].  Calling a stage's method from any
//! other stage is a signature-level impossibility; what remains at lowering
//! time are the numeric checks on buffer sizes, which depend on dynamic
//! lengths.

use vstd::prelude::*;

use core::marker::PhantomData;

use crate::dim::{row_major_dims, subarray_dims, suffix_prod, suffix_prod_in, suffix_prod_out,
    suffix_prods_fit, sub_prods_fit, Dim};
use crate::meta::{dup_vec, r2r_code, Meta, MetaV, R2rKind, Rigor, Direction};
use crate::request::{plan_view, GuruRequest, GuruRequestV, PlanErrV, PlanResult, PlanningError};
use crate::storage::{Layout, Real, Storage};

verus! {

/// The initial stage: nothing has been bound yet.
pub struct Begin;

/// The stage after the input storage has been bound.
pub struct Input<I> {
    /// The bound input storage.
    pub in_: I,
}

/// A terminal stage: distinct input and output storages are bound.
pub struct Io<I, O> {
    /// The bound input storage.
    pub in_: I,
    /// The bound output storage.
    pub out: O,
}

/// A terminal stage: one storage serves as both input and output.
pub struct Inplace<I> {
    /// The single bound storage.
    pub in_out: I,
}

/// State tag: the bound element pairing is real→real and still owes its
/// kind list.
pub struct R2R;

/// State tag: the specification is complete enough to be lowered.
pub struct Ready;

/// A token that only this crate can mint, keeping the public planning traits
/// from being implemented outside it.
pub struct Secret(());

impl Secret {
    /// Mint the token; only this crate can.
    pub(crate) fn token() -> Secret {
        Secret(())
    }
}

/// Element pairings for which `[Self] → [Target]` is a supported transform.
///
/// The four implementations — complex→complex, real→complex, complex→real
/// and real→real — each validate a specification against the two bound
/// layouts and either produce the engine request or reject the
/// configuration, exactly as [`FftData::plan_spec`] states.
pub trait FftData<Target> {
    /// [`Ready`] where the pairing needs nothing more; [`R2R`] where a
    /// real-to-real kind must still be chosen.
    type State;

    /// What [`FftData::plan`] asks of its caller: that the arithmetic the
    /// validation performs fits in a `usize`, and, for real→real, that the
    /// kind list matches the axis count or is a single broadcast kind.
    spec fn plan_req(in_: Layout, out: Layout, m: MetaV) -> bool;

    /// The exact outcome of validating `m` against the two layouts.
    spec fn plan_spec(in_: Layout, out: Layout, m: MetaV) -> Result<GuruRequestV, PlanErrV>;

    /// Validate `meta` against the two layouts and lower it.
    fn plan(in_: Layout, out: Layout, meta: &Meta) -> (r: PlanResult<GuruRequest>)
        requires
            Self::plan_req(in_, out, meta@),
        ensures
            plan_view(r) == Self::plan_spec(in_, out, meta@),
    ;

    /// Proof that the implementation is this crate's.
    fn secret() -> Secret;
}

/// A terminal stage's view of planning: the stage holds the bound storages
/// and validates a specification against their layouts.
pub trait FftSpec {
    /// The element type consumed.
    type Input;

    /// The element type produced.
    type Output;

    /// What [`FftSpec::plan`] asks of its caller.
    spec fn plan_req(&self, m: MetaV) -> bool;

    /// The exact outcome of validating `m` against the bound layouts.
    spec fn plan_spec(&self, m: MetaV) -> Result<GuruRequestV, PlanErrV>;

    /// Validate `meta` against the bound layouts and lower it.
    fn plan(&self, meta: &Meta) -> (r: PlanResult<GuruRequest>)
        requires
            self.plan_req(meta@),
        ensures
            plan_view(r) == self.plan_spec(meta@),
    ;

    /// Proof that the implementation is this crate's.
    fn secret() -> Secret;
}

/// A stage that has an input storage bound.
pub trait HasInput {
    /// The type of the input storage.
    type I;

    /// The bound input storage.
    spec fn input_spec(&self) -> Self::I;

    /// The bound input storage.
    fn input(&self) -> (r: &Self::I)
        ensures
            *r == self.input_spec(),
    ;
}

/// A stage that has an output storage bound.
pub trait HasOutput {
    /// The type of the output storage.
    type O;

    /// The bound output storage.
    spec fn output_spec(&self) -> Self::O;

    /// The bound output storage.
    fn output(&self) -> (r: &Self::O)
        ensures
            *r == self.output_spec(),
    ;
}

impl<I> HasInput for Input<I> {
    type I = I;

    open spec fn input_spec(&self) -> I {
        self.in_
    }

    fn input(&self) -> (r: &I) {
        &self.in_
    }
}

impl<I> HasInput for Inplace<I> {
    type I = I;

    open spec fn input_spec(&self) -> I {
        self.in_out
    }

    fn input(&self) -> (r: &I) {
        &self.in_out
    }
}

impl<I, O> HasInput for Io<I, O> {
    type I = I;

    open spec fn input_spec(&self) -> I {
        self.in_
    }

    fn input(&self) -> (r: &I) {
        &self.in_
    }
}

impl<I> HasOutput for Inplace<I> {
    type O = I;

    open spec fn output_spec(&self) -> I {
        self.in_out
    }

    fn output(&self) -> (r: &I) {
        &self.in_out
    }
}

impl<I, O> HasOutput for Io<I, O> {
    type O = O;

    open spec fn output_spec(&self) -> O {
        self.out
    }

    fn output(&self) -> (r: &O) {
        &self.out
    }
}

/// The specification a fresh planner starts from: a forward transform with
/// estimate rigor, no wisdom restriction, unit element strides and no axes.
pub open spec fn default_meta() -> MetaV {
    MetaV {
        rigor: Rigor::Estimate,
        wisdom_restriction: false,
        direction: Direction::Forward,
        in_stride: 1,
        out_stride: 1,
        r2r_kinds: Seq::empty(),
        dims: Seq::empty(),
        howmany: Seq::empty(),
    }
}

/// High-level interface for building engine plans.
///
/// `Stage` is the staging type ([`Begin`], [`Input`], [`Io`] or [`Inplace`])
/// and `State` records whether a real-to-real kind is still owed.
pub struct Planner<Stage, State> {
    /// The accumulated specification.
    pub meta: Meta,
    /// The stage's bound storages.
    pub data: Stage,
    /// Marker for the kind-owing state.
    pub _marker: PhantomData<State>,
}

impl Planner<Begin, Begin> {
    /// A planner with nothing bound and default options.
    pub fn new() -> (r: Planner<Begin, Begin>)
        ensures
            r.meta@ == default_meta(),
    {
        Planner {
            meta: Meta {
                rigor: Rigor::Estimate,
                wisdom_restriction: false,
                direction: Direction::Forward,
                in_stride: 1,
                out_stride: 1,
                r2r_kinds: Vec::new(),
                dims: Vec::new(),
                howmany: Vec::new(),
            },
            data: Begin,
            _marker: PhantomData,
        }
    }
}

impl<X, Y> Planner<X, Y> {
    /// Set the planning rigor; legal in every stage.
    pub fn rigor(self, r: Rigor) -> (res: Planner<X, Y>)
        ensures
            res.meta@ == (MetaV { rigor: r, ..self.meta@ }),
            res.data == self.data,
    {
        let mut s = self;
        s.meta.rigor = r;
        s
    }

    /// Set whether planning must fail unless wisdom of at least the set
    /// rigor already exists; legal in every stage.
    pub fn wisdom_restriction(self, wisdom_only: bool) -> (res: Planner<X, Y>)
        ensures
            res.meta@ == (MetaV { wisdom_restriction: wisdom_only, ..self.meta@ }),
            res.data == self.data,
    {
        let mut s = self;
        s.meta.wisdom_restriction = wisdom_only;
        s
    }

    /// Set the direction of the transform; legal in every stage.
    pub fn direction(self, direction: Direction) -> (res: Planner<X, Y>)
        ensures
            res.meta@ == (MetaV { direction: direction, ..self.meta@ }),
            res.data == self.data,
    {
        let mut s = self;
        s.meta.direction = direction;
        s
    }
}

impl<Y> Planner<Begin, Y> {
    /// Bind the input storage, recording its element stride; moves the
    /// planner from [`Begin`] to [`Input`].
    pub fn input<I: Storage>(self, in_: I) -> (r: Planner<Input<I>, Begin>)
        ensures
            r.meta@ == (MetaV { in_stride: in_.layout_spec().stride, ..self.meta@ }),
            r.data.in_ == in_,
    {
        let stride = in_.stride();
        let mut meta = self.meta;
        meta.in_stride = stride;
        Planner { meta, data: Input { in_ }, _marker: PhantomData }
    }
}

impl<I: Storage, Y> Planner<Input<I>, Y> {
    /// Bind the output storage, recording its element stride; moves the
    /// planner to the terminal [`Io`] stage.  The output's element type must
    /// be a valid transform target for the input's, a compile-time
    /// condition.
    pub fn output<O: Storage>(self, out: O) -> (r: Planner<
        Io<I, O>,
        <I::Elem as FftData<O::Elem>>::State,
    >) where I::Elem: FftData<O::Elem>
        ensures
            r.meta@ == (MetaV { out_stride: out.layout_spec().stride, ..self.meta@ }),
            r.data.in_ == self.data.in_,
            r.data.out == out,
    {
        let stride = out.stride();
        let mut meta = self.meta;
        meta.out_stride = stride;
        Planner { meta, data: Io { in_: self.data.in_, out }, _marker: PhantomData }
    }

    /// Use the input storage as the output too; moves the planner to the
    /// terminal [`Inplace`] stage.  The input's element type must support an
    /// in-place transform to itself, a compile-time condition.
    pub fn inplace(self) -> (r: Planner<
        Inplace<I>,
        <I::Elem as FftData<I::Elem>>::State,
    >) where I::Elem: FftData<I::Elem>
        ensures
            r.meta@ == (MetaV { out_stride: self.meta@.in_stride, ..self.meta@ }),
            r.data.in_out == self.data.in_,
    {
        let stride = self.meta.in_stride;
        let mut meta = self.meta;
        meta.out_stride = stride;
        Planner { meta, data: Inplace { in_out: self.data.in_ }, _marker: PhantomData }
    }
}

impl<X: HasInput + HasOutput, Y> Planner<X, Y> {
    /// Declare a one-dimensional transform of length `n`; available in the
    /// terminal stages, and the last declaration wins.
    pub fn _1d(self, n: usize) -> (r: Planner<X, Y>)
        ensures
            r.meta@ == (MetaV { dims: row_major_dims(seq![n]), ..self.meta@ }),
            r.data == self.data,
    {
        let mut lens: Vec<usize> = Vec::new();
        lens.push(n);
        proof {
            assert(lens@ =~= seq![n]);
            assert forall|i: int| 0 <= i <= lens@.len() implies #[trigger] suffix_prod(lens@, i)
                <= usize::MAX by {
                assert(suffix_prod(lens@, 1) == 1);
                if i == 0 {
                    assert(suffix_prod(lens@, 0) == n * suffix_prod(lens@, 1));
                }
            }
        }
        self.nd(lens.as_slice())
    }

    /// Declare a two-dimensional transform of lengths `n0` by `n1`.
    pub fn _2d(self, n0: usize, n1: usize) -> (r: Planner<X, Y>)
        requires
            n0 * n1 <= usize::MAX,
        ensures
            r.meta@ == (MetaV { dims: row_major_dims(seq![n0, n1]), ..self.meta@ }),
            r.data == self.data,
    {
        let mut lens: Vec<usize> = Vec::new();
        lens.push(n0);
        lens.push(n1);
        proof {
            assert(lens@ =~= seq![n0, n1]);
            assert forall|i: int| 0 <= i <= lens@.len() implies #[trigger] suffix_prod(lens@, i)
                <= usize::MAX by {
                assert(suffix_prod(lens@, 2) == 1);
                assert(suffix_prod(lens@, 1) == n1 * suffix_prod(lens@, 2));
                if i == 0 {
                    assert(suffix_prod(lens@, 0) == n0 * suffix_prod(lens@, 1));
                }
            }
        }
        self.nd(lens.as_slice())
    }

    /// Declare a three-dimensional transform of lengths `n0` by `n1` by
    /// `n2`.
    pub fn _3d(self, n0: usize, n1: usize, n2: usize) -> (r: Planner<X, Y>)
        requires
            n1 * n2 <= usize::MAX,
            n0 * (n1 * n2) <= usize::MAX,
        ensures
            r.meta@ == (MetaV { dims: row_major_dims(seq![n0, n1, n2]), ..self.meta@ }),
            r.data == self.data,
    {
        let mut lens: Vec<usize> = Vec::new();
        lens.push(n0);
        lens.push(n1);
        lens.push(n2);
        proof {
            assert(lens@ =~= seq![n0, n1, n2]);
            assert forall|i: int| 0 <= i <= lens@.len() implies #[trigger] suffix_prod(lens@, i)
                <= usize::MAX by {
                assert(suffix_prod(lens@, 3) == 1);
                assert(suffix_prod(lens@, 2) == n2 * suffix_prod(lens@, 3));
                assert(suffix_prod(lens@, 1) == n1 * suffix_prod(lens@, 2));
                if i == 0 {
                    assert(suffix_prod(lens@, 0) == n0 * suffix_prod(lens@, 1));
                }
            }
        }
        self.nd(lens.as_slice())
    }

    /// Declare an n-dimensional transform: `lens` gives each axis's length,
    /// outermost first, and tight row-major strides are derived.  Replaces
    /// any earlier declaration.
    pub fn nd(self, lens: &[usize]) -> (r: Planner<X, Y>)
        requires
            lens@.len() > 0,
            suffix_prods_fit(lens@),
        ensures
            r.meta@ == (MetaV { dims: row_major_dims(lens@), ..self.meta@ }),
            r.data == self.data,
    {
        let n = lens.len();
        // Suffix products of the lengths, innermost first.
        let mut rev: Vec<usize> = Vec::new();
        let mut stride: usize = 1;
        let mut t: usize = 0;
        while t < n
            invariant
                0 <= t <= n,
                n == lens@.len(),
                suffix_prods_fit(lens@),
                stride == suffix_prod(lens@, n - t),
                rev@.len() == t,
                forall|k: int| 0 <= k < t ==> rev@[k] == suffix_prod(lens@, n - k),
            decreases n - t,
        {
            rev.push(stride);
            proof {
                assert(suffix_prod(lens@, n - t - 1) == lens@[n - t - 1] * suffix_prod(
                    lens@,
                    n - t,
                ));
            }
            stride = lens[n - 1 - t] * stride;
            t = t + 1;
        }
        let mut dims: Vec<Dim> = Vec::new();
        let mut i: usize = 0;
        while i < n
            invariant
                0 <= i <= n,
                n == lens@.len(),
                rev@.len() == n,
                forall|k: int| 0 <= k < n ==> rev@[k] == suffix_prod(lens@, n - k),
                dims@ == row_major_dims(lens@).take(i as int),
            decreases n - i,
        {
            let s = rev[n - 1 - i];
            dims.push(Dim { n: lens[i], in_stride: s, out_stride: s });
            proof {
                assert(row_major_dims(lens@)[i as int] == Dim {
                    n: lens@[i as int],
                    in_stride: suffix_prod(lens@, i + 1) as usize,
                    out_stride: suffix_prod(lens@, i + 1) as usize,
                });
                assert(row_major_dims(lens@).take(i + 1) =~= row_major_dims(lens@).take(
                    i as int,
                ).push(row_major_dims(lens@)[i as int]));
            }
            i = i + 1;
        }
        proof {
            assert(row_major_dims(lens@).take(n as int) =~= row_major_dims(lens@));
        }
        let mut s = self;
        s.meta.dims = dims;
        s
    }

    /// Declare an n-dimensional transform with explicit sub-array strides:
    /// each entry is `(length, input stride, output stride)`, and an axis's
    /// effective stride is the product of the supplied strides of all later
    /// axes.  Replaces any earlier declaration.
    pub fn nd_subarray(self, entries: &[(usize, usize, usize)]) -> (r: Planner<X, Y>)
        requires
            entries@.len() > 0,
            sub_prods_fit(entries@),
        ensures
            r.meta@ == (MetaV { dims: subarray_dims(entries@), ..self.meta@ }),
            r.data == self.data,
    {
        let n = entries.len();
        // Suffix products of the supplied strides, innermost first.
        let mut rev_in: Vec<usize> = Vec::new();
        let mut rev_out: Vec<usize> = Vec::new();
        let mut in_stride: usize = 1;
        let mut out_stride: usize = 1;
        let mut t: usize = 0;
        while t < n
            invariant
                0 <= t <= n,
                n == entries@.len(),
                sub_prods_fit(entries@),
                in_stride == suffix_prod_in(entries@, n - t),
                out_stride == suffix_prod_out(entries@, n - t),
                rev_in@.len() == t,
                rev_out@.len() == t,
                forall|k: int| 0 <= k < t ==> rev_in@[k] == suffix_prod_in(entries@, n - k),
                forall|k: int| 0 <= k < t ==> rev_out@[k] == suffix_prod_out(entries@, n - k),
            decreases n - t,
        {
            rev_in.push(in_stride);
            rev_out.push(out_stride);
            proof {
                assert(suffix_prod_in(entries@, n - t - 1) == entries@[n - t - 1].1
                    * suffix_prod_in(entries@, n - t));
                assert(suffix_prod_out(entries@, n - t - 1) == entries@[n - t - 1].2
                    * suffix_prod_out(entries@, n - t));
            }
            in_stride = entries[n - 1 - t].1 * in_stride;
            out_stride = entries[n - 1 - t].2 * out_stride;
            t = t + 1;
        }
        let mut dims: Vec<Dim> = Vec::new();
        let mut i: usize = 0;
        while i < n
            invariant
                0 <= i <= n,
                n == entries@.len(),
                rev_in@.len() == n,
                rev_out@.len() == n,
                forall|k: int| 0 <= k < n ==> rev_in@[k] == suffix_prod_in(entries@, n - k),
                forall|k: int| 0 <= k < n ==> rev_out@[k] == suffix_prod_out(entries@, n - k),
                dims@ == subarray_dims(entries@).take(i as int),
            decreases n - i,
        {
            dims.push(
                Dim {
                    n: entries[i].0,
                    in_stride: rev_in[n - 1 - i],
                    out_stride: rev_out[n - 1 - i],
                },
            );
            proof {
                assert(subarray_dims(entries@)[i as int] == Dim {
                    n: entries@[i as int].0,
                    in_stride: suffix_prod_in(entries@, i + 1) as usize,
                    out_stride: suffix_prod_out(entries@, i + 1) as usize,
                });
                assert(subarray_dims(entries@).take(i + 1) =~= subarray_dims(entries@).take(
                    i as int,
                ).push(subarray_dims(entries@)[i as int]));
            }
            i = i + 1;
        }
        proof {
            assert(subarray_dims(entries@).take(n as int) =~= subarray_dims(entries@));
        }
        let mut s = self;
        s.meta.dims = dims;
        s
    }
}

impl<X: FftSpec<Input = Real, Output = Real>> Planner<X, R2R> {
    /// Choose one real-to-real kind, broadcast to every axis; moves the
    /// planner from [`R2R`] to [`Ready`].
    pub fn r2r_kind(self, kind: R2rKind) -> (r: Planner<X, Ready>)
        ensures
            r.meta@ == (MetaV { r2r_kinds: seq![r2r_code(kind)], ..self.meta@ }),
            r.data == self.data,
    {
        let mut kinds: Vec<R2rKind> = Vec::new();
        kinds.push(kind);
        proof {
            assert(kinds@ =~= seq![kind]);
            assert(kinds@.map_values(|k: R2rKind| r2r_code(k)) =~= seq![r2r_code(kind)]);
        }
        self.r2r_kinds(kinds.as_slice())
    }

    /// Choose the real-to-real kinds, one per axis or a single kind to
    /// broadcast; moves the planner from [`R2R`] to [`Ready`].  `kinds` must
    /// not be empty.
    pub fn r2r_kinds(self, kinds: &[R2rKind]) -> (r: Planner<X, Ready>)
        requires
            kinds@.len() > 0,
        ensures
            r.meta@ == (MetaV {
                r2r_kinds: kinds@.map_values(|k: R2rKind| r2r_code(k)),
                ..self.meta@
            }),
            r.data == self.data,
    {
        let n = kinds.len();
        let mut codes: Vec<u32> = Vec::new();
        let mut i: usize = 0;
        while i < n
            invariant
                0 <= i <= n,
                n == kinds@.len(),
                codes@ == kinds@.take(i as int).map_values(|k: R2rKind| r2r_code(k)),
            decreases n - i,
        {
            codes.push(kinds[i].as_fftw());
            proof {
                assert(kinds@.take(i + 1).map_values(|k: R2rKind| r2r_code(k)) =~= kinds@.take(
                    i as int,
                ).map_values(|k: R2rKind| r2r_code(k)).push(r2r_code(kinds@[i as int])));
            }
            i = i + 1;
        }
        proof {
            assert(kinds@.take(n as int) =~= kinds@);
        }
        let mut meta = self.meta;
        meta.r2r_kinds = codes;
        Planner { meta, data: self.data, _marker: PhantomData }
    }
}

/// `m`'s axis strides, each multiplied by the element stride of the storage
/// on its side, composing the user-level strided view with the axis strides.
pub open spec fn scale_dims(ds: Seq<Dim>, in_elem: usize, out_elem: usize) -> Seq<Dim> {
    Seq::new(
        ds.len(),
        |i: int|
            Dim {
                n: ds[i].n,
                in_stride: (ds[i].in_stride * in_elem) as usize,
                out_stride: (ds[i].out_stride * out_elem) as usize,
            },
    )
}

/// The scaled strides of `m`'s axes all fit in a `usize`.
pub open spec fn scale_fits(m: MetaV) -> bool {
    forall|i: int|
        0 <= i < m.dims.len() ==> (#[trigger] m.dims[i]).in_stride * m.in_stride <= usize::MAX
            && m.dims[i].out_stride * m.out_stride <= usize::MAX
}

/// `m` with its axis strides composed with the storages' element strides:
/// the specification that is handed to the lowering step.
pub open spec fn scaled_meta(m: MetaV) -> MetaV {
    MetaV { dims: scale_dims(m.dims, m.in_stride, m.out_stride), ..m }
}

impl<X: FftSpec> Planner<X, Ready> {
    /// Lower the accumulated specification: compose every axis's strides
    /// with the storages' element strides, validate buffer sizes, and
    /// produce the engine request as a [`Plan`].  On rejection the planner
    /// itself comes back unchanged beside the error, so nothing bound is
    /// lost and the attempt can be retried.
    pub fn plan(self) -> (r: Result<Plan<X>, (Planner<X, Ready>, PlanningError)>)
        requires
            scale_fits(self.meta@),
            self.data.plan_req(scaled_meta(self.meta@)),
        ensures
            r matches Ok(p) ==> {
                &&& p.planner.meta@ == scaled_meta(self.meta@)
                &&& p.planner.data == self.data
                &&& self.data.plan_spec(scaled_meta(self.meta@)) == Ok::<
                    GuruRequestV,
                    PlanErrV,
                >(p.request@)
            },
            r matches Err((b, e)) ==> {
                &&& b.meta@ == self.meta@
                &&& b.data == self.data
                &&& self.data.plan_spec(scaled_meta(self.meta@)) == Err::<
                    GuruRequestV,
                    PlanErrV,
                >(e@)
            },
    {
        let Planner { meta, data, _marker: _ } = self;
        let n = meta.dims.len();
        let mut scaled: Vec<Dim> = Vec::new();
        let mut i: usize = 0;
        while i < n
            invariant
                0 <= i <= n,
                n == meta.dims@.len(),
                scale_fits(meta@),
                scaled@ == scale_dims(meta.dims@, meta.in_stride, meta.out_stride).take(i as int),
            decreases n - i,
        {
            let d = meta.dims[i];
            proof {
                assert(meta@.dims[i as int] == d);
                assert(meta@.dims[i as int].in_stride * meta@.in_stride <= usize::MAX);
                assert(meta@.dims[i as int].out_stride * meta@.out_stride <= usize::MAX);
            }
            scaled.push(
                Dim {
                    n: d.n,
                    in_stride: d.in_stride * meta.in_stride,
                    out_stride: d.out_stride * meta.out_stride,
                },
            );
            proof {
                let whole = scale_dims(meta.dims@, meta.in_stride, meta.out_stride);
                assert(whole.take(i + 1) =~= whole.take(i as int).push(whole[i as int]));
            }
            i = i + 1;
        }
        proof {
            let whole = scale_dims(meta.dims@, meta.in_stride, meta.out_stride);
            assert(whole.take(n as int) =~= whole);
        }
        let meta2 = Meta {
            rigor: meta.rigor,
            wisdom_restriction: meta.wisdom_restriction,
            direction: meta.direction,
            in_stride: meta.in_stride,
            out_stride: meta.out_stride,
            r2r_kinds: dup_vec(&meta.r2r_kinds),
            dims: scaled,
            howmany: dup_vec(&meta.howmany),
        };
        proof {
            assert(meta2@ == scaled_meta(meta@));
        }
        match data.plan(&meta2) {
            Ok(req) => Ok(
                Plan {
                    planner: Planner { meta: meta2, data, _marker: PhantomData },
                    request: req,
                },
            ),
            Err(e) => Err((Planner { meta, data, _marker: PhantomData }, e)),
        }
    }
}

/// A completed plan: the lowered specification beside the exact engine
/// request it produced.  The program that owns the buffers hands the request
/// to the engine's guru entry point and runs the resulting descriptor.
pub struct Plan<X> {
    /// The planner whose specification was lowered, its axis strides
    /// composed with the element strides.
    pub planner: Planner<X, Ready>,
    /// The validated engine request.
    pub request: GuruRequest,
}

impl<I> Plan<Inplace<I>> {
    /// The single storage that serves as input and output.
    pub fn in_out(&self) -> (r: &I)
        ensures
            *r == self.planner.data.in_out,
    {
        &self.planner.data.in_out
    }
}

impl<I, O> Plan<Io<I, O>> {
    /// The bound input storage.
    pub fn input(&self) -> (r: &I)
        ensures
            *r == self.planner.data.in_,
    {
        &self.planner.data.in_
    }

    /// The bound output storage.
    pub fn output(&self) -> (r: &O)
        ensures
            *r == self.planner.data.out,
    {
        &self.planner.data.out
    }
}

impl<X> Plan<X> {
    /// The validated engine request.
    pub fn request(&self) -> (r: &GuruRequest)
        ensures
            *r == self.request,
    {
        &self.request
    }
}

} // verus!
