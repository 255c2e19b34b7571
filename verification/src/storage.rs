//! Descriptions of the storages a transform is bound to.
//!
//! The planner validates layouts, not data: what it needs of a bound storage
//! is its element type, its element count and its element stride.  The
//! buffers themselves — the engine's double-precision values — live with the
//! program that drives the engine and are handed to it together with the
//! lowered request.

use vstd::prelude::*;

use core::marker::PhantomData;

verus! {

/// Element-type tag: the engine's double-precision real element.
#[derive(Debug, Clone, Copy, PartialEq, Eq, Structural)]
pub struct Real;

/// Element-type tag: the engine's double-precision complex element.
#[derive(Debug, Clone, Copy, PartialEq, Eq, Structural)]
pub struct Complex;

/// The shape of a bound storage: how many elements it holds and how far
/// apart, in elements, consecutive elements stand.
#[derive(Debug, Clone, Copy, PartialEq, Eq, Structural)]
pub struct Layout {
    /// The number of addressable elements.
    pub len: usize,
    /// The element stride.
    pub stride: usize,
}

/// A storage that a transform can be bound to: it has an element type and
/// a layout.
pub trait Storage {
    /// The element type of the storage.
    type Elem;

    /// The storage's shape.
    spec fn layout_spec(&self) -> Layout;

    /// The storage's shape.
    fn layout(&self) -> (r: Layout)
        ensures
            r == self.layout_spec(),
    ;

    /// The storage's element stride.
    fn stride(&self) -> (r: usize)
        ensures
            r == self.layout_spec().stride,
    ;
}

/// The description of a buffer of `E` elements: its element count and its
/// element stride.
#[derive(Debug, PartialEq, Eq)]
pub struct Buffer<E> {
    /// The number of addressable elements.
    pub len: usize,
    /// The element stride.
    pub stride: usize,
    /// Marker tying the buffer to its element type.
    pub elem: PhantomData<E>,
}

impl<E> Buffer<E> {
    /// Describe a buffer of `len` elements, `stride` elements apart.
    pub fn new(len: usize, stride: usize) -> (r: Buffer<E>)
        ensures
            r.len == len,
            r.stride == stride,
    {
        Buffer { len, stride, elem: PhantomData }
    }

    /// Describe a tightly packed buffer of `len` elements.
    pub fn contiguous(len: usize) -> (r: Buffer<E>)
        ensures
            r.len == len,
            r.stride == 1,
    {
        Buffer { len, stride: 1, elem: PhantomData }
    }
}

impl<E> Storage for Buffer<E> {
    type Elem = E;

    open spec fn layout_spec(&self) -> Layout {
        Layout { len: self.len, stride: self.stride }
    }

    fn layout(&self) -> (r: Layout)
        ensures
            r == self.layout_spec(),
    {
        Layout { len: self.len, stride: self.stride }
    }

    fn stride(&self) -> (r: usize)
        ensures
            r == self.layout_spec().stride,
    {
        self.stride
    }
}

} // verus!
