//! A call-expectation engine: a registry that maps a named operation with a
//! given argument and result type to a configured way of producing results.
use vstd::prelude::*;

pub mod key;
pub mod registry;
pub mod slot;
pub mod strategy;

pub use key::Key;
pub use registry::{ExpectationBuilder, Expectations};
pub use slot::Expectation;
pub use strategy::{CallError, Kind, Respond, RespondOnce, Rfunc, Single};
