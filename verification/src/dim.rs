//! One axis of a transform, and the aggregate buffer extents that a sequence
//! of axes requires.
//!
//! For real↔complex transforms only the innermost (last) axis is asymmetric:
//! a length-`n` real signal has `n/2 + 1` non-redundant complex coefficients,
//! so the complex-typed buffer owes `n/2 + 1` elements along that axis while
//! the real-typed buffer owes `n`.

use vstd::prelude::*;

verus! {

/// One dimension (axis) of a transform: its length and its stride in the
/// input and output arrays.
#[derive(Debug, Clone, Copy, PartialEq, Eq, Structural)]
pub struct Dim {
    /// The size of the dimension.
    pub n: usize,
    /// The stride of the dimension in the input array.
    pub in_stride: usize,
    /// The stride of the dimension in the output array.
    pub out_stride: usize,
}

/// The product of the lengths of all dimensions in `ds`.
pub open spec fn prod_lens(ds: Seq<Dim>) -> int
    decreases ds.len(),
{
    if ds.len() == 0 {
        1
    } else {
        prod_lens(ds.drop_last()) * ds.last().n
    }
}

/// Elements required of the real-typed side of a transform over `ds`:
/// the product of all lengths.
pub open spec fn real_extent(ds: Seq<Dim>) -> int {
    prod_lens(ds)
}

/// Elements required of the complex-typed side of a transform over `ds`:
/// every axis contributes its full length except the last, which contributes
/// only the `n/2 + 1` non-redundant spectrum coefficients.
pub open spec fn complex_extent(ds: Seq<Dim>) -> int
    recommends
        ds.len() > 0,
{
    prod_lens(ds.drop_last()) * (ds.last().n as int / 2 + 1)
}

/// Both extents of `ds`, and every intermediate length product along the way,
/// fit in a `usize`.
pub open spec fn extents_fit(ds: Seq<Dim>) -> bool {
    &&& forall|i: int| 0 <= i <= ds.len() ==> prod_lens(#[trigger] ds.take(i)) <= usize::MAX
    &&& ds.len() > 0 ==> complex_extent(ds) <= usize::MAX
}

/// Extending a prefix of `ds` by one dimension multiplies its length product
/// by that dimension's length.
pub proof fn lemma_prod_take_step(ds: Seq<Dim>, i: int)
    requires
        0 <= i < ds.len(),
    ensures
        prod_lens(ds.take(i + 1)) == prod_lens(ds.take(i)) * ds[i].n,
{
    assert(ds.take(i + 1).drop_last() =~= ds.take(i));
    assert(ds.take(i + 1).last() == ds[i]);
}

/// The product of `lens[i..]`: the stride, under tight row-major packing, of
/// an axis standing just before position `i`.
pub open spec fn suffix_prod(lens: Seq<usize>, i: int) -> int
    decreases lens.len() - i,
{
    if i < 0 || i >= lens.len() {
        1
    } else {
        lens[i] * suffix_prod(lens, i + 1)
    }
}

/// Every suffix product of `lens` fits in a `usize`.
pub open spec fn suffix_prods_fit(lens: Seq<usize>) -> bool {
    forall|i: int| 0 <= i <= lens.len() ==> #[trigger] suffix_prod(lens, i) <= usize::MAX
}

/// The dimensions that tight row-major packing derives from axis lengths:
/// each axis keeps its length, and strides make the last axis the
/// fastest-varying, the same on the input and the output side.
pub open spec fn row_major_dims(lens: Seq<usize>) -> Seq<Dim> {
    Seq::new(
        lens.len(),
        |i: int|
            Dim {
                n: lens[i],
                in_stride: suffix_prod(lens, i + 1) as usize,
                out_stride: suffix_prod(lens, i + 1) as usize,
            },
    )
}

/// The product of the supplied input strides of `entries[i..]`, where an
/// entry is `(length, input stride, output stride)`.
pub open spec fn suffix_prod_in(entries: Seq<(usize, usize, usize)>, i: int) -> int
    decreases entries.len() - i,
{
    if i < 0 || i >= entries.len() {
        1
    } else {
        entries[i].1 * suffix_prod_in(entries, i + 1)
    }
}

/// The product of the supplied output strides of `entries[i..]`.
pub open spec fn suffix_prod_out(entries: Seq<(usize, usize, usize)>, i: int) -> int
    decreases entries.len() - i,
{
    if i < 0 || i >= entries.len() {
        1
    } else {
        entries[i].2 * suffix_prod_out(entries, i + 1)
    }
}

/// Every suffix product of the supplied strides fits in a `usize`.
pub open spec fn sub_prods_fit(entries: Seq<(usize, usize, usize)>) -> bool {
    forall|i: int|
        0 <= i <= entries.len() ==> #[trigger] suffix_prod_in(entries, i) <= usize::MAX
            && #[trigger] suffix_prod_out(entries, i) <= usize::MAX
}

/// The dimensions derived from explicit sub-array entries: each axis keeps
/// its length, and an axis's effective stride is the product of the supplied
/// strides of all later axes.
pub open spec fn subarray_dims(entries: Seq<(usize, usize, usize)>) -> Seq<Dim> {
    Seq::new(
        entries.len(),
        |i: int|
            Dim {
                n: entries[i].0,
                in_stride: suffix_prod_in(entries, i + 1) as usize,
                out_stride: suffix_prod_out(entries, i + 1) as usize,
            },
    )
}

/// A transform over one axis of length `n` owes the real-typed buffer `n`
/// elements and the complex-typed buffer exactly `n/2 + 1` (integer
/// division): the half-complex spectrum convention.
pub proof fn lemma_single_dim_extents(d: Dim)
    ensures
        real_extent(seq![d]) == d.n,
        complex_extent(seq![d]) == d.n as int / 2 + 1,
{
    assert(seq![d].drop_last() =~= Seq::<Dim>::empty());
    assert(prod_lens(Seq::<Dim>::empty()) == 1);
    assert(seq![d].last() == d);
}

/// The highest input-array index reached by the dimensions of `ds`, as a sum
/// of length·stride contributions.
pub open spec fn in_weight(ds: Seq<Dim>) -> int
    decreases ds.len(),
{
    if ds.len() == 0 {
        0
    } else {
        in_weight(ds.drop_last()) + ds.last().n * ds.last().in_stride
    }
}

/// The highest output-array index reached by the dimensions of `ds`, as a sum
/// of length·stride contributions.
pub open spec fn out_weight(ds: Seq<Dim>) -> int
    decreases ds.len(),
{
    if ds.len() == 0 {
        0
    } else {
        out_weight(ds.drop_last()) + ds.last().n * ds.last().out_stride
    }
}

/// Input-array span of a transform over `ds`, as a sum of length·stride
/// contributions.  Only the last axis is ever halved, and only on the
/// complex side: for complex→real the input is the complex side, so it
/// contributes `n/2 + 1` entries there; for real→complex, and for the
/// symmetric kinds, it contributes its full length.
pub open spec fn array_in_extent(ds: Seq<Dim>, c2r: bool, r2c: bool) -> int
    recommends
        ds.len() > 0,
{
    let last = ds.last();
    in_weight(ds.drop_last()) + if c2r {
        (last.n as int / 2 + 1) * last.in_stride
    } else {
        last.n * last.in_stride
    }
}

/// Output-array span of a transform over `ds`; the counterpart of
/// [`array_in_extent`].  For real→complex the output is the complex side,
/// so the last axis contributes `n/2 + 1` entries there; for complex→real,
/// and for the symmetric kinds, it contributes its full length.
pub open spec fn array_out_extent(ds: Seq<Dim>, c2r: bool, r2c: bool) -> int
    recommends
        ds.len() > 0,
{
    let last = ds.last();
    out_weight(ds.drop_last()) + if r2c {
        (last.n as int / 2 + 1) * last.out_stride
    } else {
        last.n * last.out_stride
    }
}

/// The array spans of `ds`, and the partial sums leading to them, fit in a
/// `usize`.
pub open spec fn array_extents_fit(ds: Seq<Dim>, c2r: bool, r2c: bool) -> bool {
    &&& forall|i: int|
        0 <= i < ds.len() ==> in_weight(#[trigger] ds.take(i)) <= usize::MAX && out_weight(
            ds.take(i),
        ) <= usize::MAX
    &&& ds.len() > 0 ==> array_in_extent(ds, c2r, r2c) <= usize::MAX && array_out_extent(
        ds,
        c2r,
        r2c,
    ) <= usize::MAX
}

/// Extending a prefix of `ds` by one dimension adds that dimension's
/// length·stride contribution to each weight.
pub proof fn lemma_weights_take_step(ds: Seq<Dim>, i: int)
    requires
        0 <= i < ds.len(),
    ensures
        in_weight(ds.take(i + 1)) == in_weight(ds.take(i)) + ds[i].n * ds[i].in_stride,
        out_weight(ds.take(i + 1)) == out_weight(ds.take(i)) + ds[i].n * ds[i].out_stride,
{
    assert(ds.take(i + 1).drop_last() =~= ds.take(i));
    assert(ds.take(i + 1).last() == ds[i]);
}

impl Dim {
    /// The minimum element counts that the real-typed and the complex-typed
    /// buffer of a transform over `ds` must hold, in that order.
    pub fn size(ds: &[Dim]) -> (r: (usize, usize))
        requires
            ds@.len() > 0,
            extents_fit(ds@),
        ensures
            r.0 == real_extent(ds@),
            r.1 == complex_extent(ds@),
    {
        let n = ds.len();
        let mut head: usize = 1;
        let mut i: usize = 0;
        proof {
            assert(ds@.take(0) =~= Seq::<Dim>::empty());
        }
        while i < n - 1
            invariant
                0 <= i <= n - 1,
                n == ds@.len(),
                1 <= n <= usize::MAX,
                extents_fit(ds@),
                head == prod_lens(ds@.take(i as int)),
            decreases n - 1 - i,
        {
            proof {
                lemma_prod_take_step(ds@, i as int);
            }
            head = head * ds[i].n;
            i = i + 1;
        }
        let last = ds[n - 1];
        proof {
            lemma_prod_take_step(ds@, n - 1);
            assert(ds@.take(n as int) =~= ds@);
            assert(ds@.take(n as int).drop_last() =~= ds@.take(n - 1));
            assert(prod_lens(ds@) == head * last.n);
            assert(complex_extent(ds@) == head * (last.n as int / 2 + 1));
        }
        (head * last.n, head * (last.n / 2 + 1))
    }

    /// The spans of the input and the output array that a transform over `ds`
    /// touches, in elements, with the last axis halved on whichever side
    /// holds the complex half-spectrum (`c2r`: the input; `r2c`: the output).
    pub fn array_size(ds: &[Dim], c2r: bool, r2c: bool) -> (r: (usize, usize))
        requires
            !(c2r && r2c),
            ds@.len() > 0,
            array_extents_fit(ds@, c2r, r2c),
        ensures
            r.0 == array_in_extent(ds@, c2r, r2c),
            r.1 == array_out_extent(ds@, c2r, r2c),
    {
        let n = ds.len();
        let mut in_: usize = 0;
        let mut out: usize = 0;
        let mut i: usize = 0;
        proof {
            assert(ds@.take(0) =~= Seq::<Dim>::empty());
        }
        while i < n - 1
            invariant
                0 <= i <= n - 1,
                n == ds@.len(),
                1 <= n,
                array_extents_fit(ds@, c2r, r2c),
                in_ == in_weight(ds@.take(i as int)),
                out == out_weight(ds@.take(i as int)),
            decreases n - 1 - i,
        {
            proof {
                lemma_weights_take_step(ds@, i as int);
                assert(in_weight(ds@.take(i + 1)) <= usize::MAX);
                assert(out_weight(ds@.take(i + 1)) <= usize::MAX);
            }
            let d = ds[i];
            in_ = in_ + d.n * d.in_stride;
            out = out + d.n * d.out_stride;
            i = i + 1;
        }
        let last = ds[n - 1];
        proof {
            assert(ds@.take(n - 1) =~= ds@.drop_last());
        }
        let in_span = if c2r {
            in_ + (last.n / 2 + 1) * last.in_stride
        } else {
            in_ + last.n * last.in_stride
        };
        let out_span = if r2c {
            out + (last.n / 2 + 1) * last.out_stride
        } else {
            out + last.n * last.out_stride
        };
        (in_span, out_span)
    }
}

} // verus!
