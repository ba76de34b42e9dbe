//! Result wrappers that keep errors boxed and typed, or erased behind one
//! universal error that can be recovered as a concrete type later.

pub mod any;
pub mod boxed;

pub use any::{AnyError, AnyResult, Downcast};
pub use boxed::BoxResult;
