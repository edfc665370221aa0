//! Memoization made easier.
//!
//! Two small tools that handle the annoying parts of deferred computation:
//!
//! - [`Memory`], a keyed memoizer: it caches the result of a computation per
//!   distinct input, so the computation runs at most once for each equality
//!   class of inputs.
//! - [`Recall`], a one-shot lazy cell: it evaluates a zero-argument
//!   computation on the first request and returns the stored result on every
//!   request after that.
//!
//! Both are single-threaded and unbounded: there is no eviction, no
//! expiration, and no concurrency control.

pub mod cloning;
pub mod memory;
pub mod recall;

pub use memory::Memory;
pub use recall::Recall;
