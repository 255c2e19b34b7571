//! A planning layer for discrete Fourier transforms.
//!
//! The library models the configuration of a transform — buffer layouts,
//! dimensions, strides, effort level, direction, real-to-real kinds — and
//! validates it, producing the exact call that the native transform engine's
//! guru planning interface expects.  The engine itself (the numerical FFT
//! code, its allocator and its wisdom persistence) is an external collaborator
//! that an embedding program drives with the requests built here.

pub mod builder;
pub mod dim;
pub mod fft_data;
pub mod lock;
pub mod meta;
pub mod request;
pub mod simple;
pub mod storage;
pub mod traits;

pub use builder::{Plan, Planner};
pub use dim::Dim;
pub use meta::{Direction, Meta, R2rKind, Rigor};
pub use request::{GuruEntry, GuruRequest, PlanResult, PlanningError};
pub use storage::Buffer;
