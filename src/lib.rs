//! The error core of a native-extension binding layer: one error value that
//! bridges numeric status codes and host-thrown exceptions, keeps the identity
//! of a thrown host value, and hands its retained reference out exactly once.

use vstd::prelude::*;

pub mod diagnostic;
pub mod error;
pub mod extended;
pub mod lifecycle;
pub mod propagate;
pub mod status;
pub mod throwable;

verus! {

} // verus!
