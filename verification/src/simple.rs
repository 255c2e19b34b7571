//! An earlier, simpler planner for one-dimensional whole-buffer transforms.
//!
//! Where the staged planner in [`crate::builder`] tracks its configuration in
//! its type, this interface fixes the transform at construction: one axis
//! spanning the whole input buffer, chosen by the constructor called
//! ([`Planner::c2c`], [`Planner::c2r`], [`Planner::r2c`]), with buffer sizes
//! checked at that same call.

use vstd::prelude::*;

use crate::dim::Dim;
use crate::meta::{direction_sign, rigor_flags, Direction, Rigor, FFTW_WISDOM_ONLY};
use crate::request::{GuruEntry, GuruRequest};
use crate::storage::{Complex, Real, Storage};

verus! {

/// The flag word of this planner's options.
pub open spec fn simple_flags(rigor: Rigor, wisdom_restriction: bool) -> u32 {
    (rigor_flags(rigor) + if wisdom_restriction {
        FFTW_WISDOM_ONLY
    } else {
        0
    }) as u32
}

/// Basic properties shared by a set of transforms: effort, direction and the
/// wisdom restriction.
pub struct Planner {
    /// Planning effort.
    pub rigor: Rigor,
    /// Fail planning unless matching wisdom already exists.
    pub wisdom_restriction: bool,
    /// Transform direction.
    pub direction: Direction,
}

impl Planner {
    /// A planner with default values: a forward transform with estimate
    /// rigor and no wisdom restriction.
    pub fn new() -> (r: Planner)
        ensures
            r.rigor == Rigor::Estimate,
            r.wisdom_restriction == false,
            r.direction == Direction::Forward,
    {
        Planner {
            rigor: Rigor::Estimate,
            wisdom_restriction: false,
            direction: Direction::Forward,
        }
    }

    /// Set the rigor to use for these plans.
    pub fn rigor(self, r: Rigor) -> (res: Planner)
        ensures
            res == (Planner { rigor: r, ..self }),
    {
        let mut s = self;
        s.rigor = r;
        s
    }

    /// Set whether planning must fail unless wisdom of at least the set
    /// rigor already exists.
    pub fn wisdom_restriction(self, wisdom_only: bool) -> (res: Planner)
        ensures
            res == (Planner { wisdom_restriction: wisdom_only, ..self }),
    {
        let mut s = self;
        s.wisdom_restriction = wisdom_only;
        s
    }

    /// Set the direction of the transform to perform.
    pub fn direction(self, direction: Direction) -> (res: Planner)
        ensures
            res == (Planner { direction: direction, ..self }),
    {
        let mut s = self;
        s.direction = direction;
        s
    }

    /// The flag word to hand the engine.
    fn flags(&self) -> (r: u32)
        ensures
            r == simple_flags(self.rigor, self.wisdom_restriction),
    {
        // The rigor flags and the wisdom bit occupy disjoint bits, so their
        // sum is their union.
        self.rigor.flags() + if self.wisdom_restriction {
            FFTW_WISDOM_ONLY
        } else {
            0
        }
    }

    /// The direction sign to hand the engine.
    fn dir(&self) -> (r: i32)
        ensures
            r == direction_sign(self.direction),
    {
        self.direction.sign()
    }

    /// Plan transforms that run in place.
    pub fn inplace(self) -> (r: InPlacePlanner)
        ensures
            r.plan == self,
    {
        InPlacePlanner { plan: self }
    }

    /// Plan a complex-to-complex transform over the whole of `in_`, into
    /// `out`, which must be at least as long.
    pub fn c2c<I: Storage<Elem = Complex>, O: Storage<Elem = Complex>>(self, in_: I, out: O) -> (r:
        PlanMem<I, O>)
        requires
            in_.layout_spec().len <= 0x7FFFFFFF,
            in_.layout_spec().len <= out.layout_spec().len,
        ensures
            r.plan == self,
            r.in_ == in_,
            r.out matches Some(o) && o == out,
            r.entry == GuruEntry::Dft,
            r.dims@ == seq![Dim { n: in_.layout_spec().len, in_stride: 1, out_stride: 1 }],
            r.how_many@ == Seq::<Dim>::empty(),
    {
        let n = in_.layout().len;
        let mut dims: Vec<Dim> = Vec::new();
        dims.push(Dim { n, in_stride: 1, out_stride: 1 });
        proof {
            assert(dims@ =~= seq![Dim { n, in_stride: 1, out_stride: 1 }]);
        }
        PlanMem {
            plan: self,
            in_,
            out: Some(out),
            entry: GuruEntry::Dft,
            dims,
            how_many: Vec::new(),
        }
    }

    /// Plan a complex-to-real transform: `in_` holds the `n/2 + 1`-element
    /// half-complex spectrum of the length-`n` real signal written to
    /// `out`.
    pub fn c2r<I: Storage<Elem = Complex>, O: Storage<Elem = Real>>(self, in_: I, out: O) -> (r:
        PlanMem<I, O>)
        requires
            1 <= in_.layout_spec().len <= 0x7FFFFFFF,
            in_.layout_spec().len <= out.layout_spec().len / 2 + 1,
        ensures
            r.plan == self,
            r.in_ == in_,
            r.out matches Some(o) && o == out,
            r.entry == GuruEntry::DftC2r,
            r.dims@ == seq![
                Dim {
                    n: (2 * (in_.layout_spec().len - 1)) as usize,
                    in_stride: 1,
                    out_stride: 1,
                },
            ],
            r.how_many@ == Seq::<Dim>::empty(),
    {
        let n = 2 * (in_.layout().len - 1);
        let mut dims: Vec<Dim> = Vec::new();
        dims.push(Dim { n, in_stride: 1, out_stride: 1 });
        proof {
            assert(dims@ =~= seq![Dim { n, in_stride: 1, out_stride: 1 }]);
        }
        PlanMem {
            plan: self,
            in_,
            out: Some(out),
            entry: GuruEntry::DftC2r,
            dims,
            how_many: Vec::new(),
        }
    }

    /// Plan a real-to-complex transform over the whole of `in_`: `out` must
    /// hold the `n/2 + 1`-element half-complex spectrum.
    pub fn r2c<I: Storage<Elem = Real>, O: Storage<Elem = Complex>>(self, in_: I, out: O) -> (r:
        PlanMem<I, O>)
        requires
            in_.layout_spec().len <= 0x7FFFFFFF,
            in_.layout_spec().len / 2 + 1 <= out.layout_spec().len,
        ensures
            r.plan == self,
            r.in_ == in_,
            r.out matches Some(o) && o == out,
            r.entry == GuruEntry::DftR2c,
            r.dims@ == seq![Dim { n: in_.layout_spec().len, in_stride: 1, out_stride: 1 }],
            r.how_many@ == Seq::<Dim>::empty(),
    {
        let n = in_.layout().len;
        let mut dims: Vec<Dim> = Vec::new();
        dims.push(Dim { n, in_stride: 1, out_stride: 1 });
        proof {
            assert(dims@ =~= seq![Dim { n, in_stride: 1, out_stride: 1 }]);
        }
        PlanMem {
            plan: self,
            in_,
            out: Some(out),
            entry: GuruEntry::DftR2c,
            dims,
            how_many: Vec::new(),
        }
    }
}

/// Planner for plans that perform their operation in place.
pub struct InPlacePlanner {
    /// The planner whose options the plan inherits.
    pub plan: Planner,
}

impl InPlacePlanner {
    /// Plan an in-place complex-to-complex transform over the whole of
    /// `in_`.
    pub fn c2c<I: Storage<Elem = Complex>>(self, in_: I) -> (r: PlanMem<I, I>)
        requires
            in_.layout_spec().len <= 0x7FFFFFFF,
        ensures
            r.plan == self.plan,
            r.in_ == in_,
            r.out matches Option::<I>::None,
            r.entry == GuruEntry::Dft,
            r.dims@ == seq![Dim { n: in_.layout_spec().len, in_stride: 1, out_stride: 1 }],
            r.how_many@ == Seq::<Dim>::empty(),
    {
        let n = in_.layout().len;
        let mut dims: Vec<Dim> = Vec::new();
        dims.push(Dim { n, in_stride: 1, out_stride: 1 });
        proof {
            assert(dims@ =~= seq![Dim { n, in_stride: 1, out_stride: 1 }]);
        }
        PlanMem {
            plan: self.plan,
            in_,
            out: None,
            entry: GuruEntry::Dft,
            dims,
            how_many: Vec::new(),
        }
    }
}

/// The structure of a plan's input and output: the options, the bound
/// storages (no separate output for in-place plans), and the one axis the
/// transform runs over.
pub struct PlanMem<I, O> {
    /// The planner whose options the plan inherits.
    pub plan: Planner,
    /// The transform's one axis.
    pub dims: Vec<Dim>,
    /// Batch axes; always empty here.
    pub how_many: Vec<Dim>,
    /// The bound input storage.
    pub in_: I,
    /// The bound output storage; `None` for in-place plans.
    pub out: Option<O>,
    /// The guru entry point the constructor chose.
    pub entry: GuruEntry,
}

impl<I, O> PlanMem<I, O> {
    /// Lower a completed `PlanMem` into the engine request it stands for.
    pub fn plan(self) -> (r: Planned<I, O>)
        requires
            self.dims@.len() == 1,
        ensures
            r.mem.plan == self.plan,
            r.mem.in_ == self.in_,
            r.mem.out == self.out,
            r.mem.entry == self.entry,
            r.mem.dims@ == self.dims@,
            r.mem.how_many@ == self.how_many@,
            r.request@ == (crate::request::GuruRequestV {
                entry: self.entry,
                dims: self.dims@,
                howmany: self.how_many@,
                sign: direction_sign(self.plan.direction),
                flags: simple_flags(self.plan.rigor, self.plan.wisdom_restriction),
                kinds: Seq::empty(),
            }),
    {
        let request = GuruRequest {
            entry: self.entry,
            dims: crate::meta::dup_vec(&self.dims),
            howmany: crate::meta::dup_vec(&self.how_many),
            sign: self.plan.dir(),
            flags: self.plan.flags(),
            kinds: Vec::new(),
        };
        Planned { mem: self, request }
    }
}

/// A lowered plan: the memory description beside the engine request it
/// produced.
pub struct Planned<I, O> {
    /// The plan's memory description.
    pub mem: PlanMem<I, O>,
    /// The validated engine request.
    pub request: GuruRequest,
}

impl<I, O> Planned<I, O> {
    /// The bound input storage.
    pub fn input(&self) -> (r: &I)
        ensures
            *r == self.mem.in_,
    {
        &self.mem.in_
    }

    /// The bound output storage, absent for in-place plans.
    pub fn output(&self) -> (r: Option<&O>)
        ensures
            match r {
                Some(o) => self.mem.out matches Some(mo) && *o == mo,
                None => self.mem.out matches Option::<O>::None,
            },
    {
        self.mem.out.as_ref()
    }

    /// The validated engine request.
    pub fn request(&self) -> (r: &GuruRequest)
        ensures
            *r == self.request,
    {
        &self.request
    }
}

} // verus!
