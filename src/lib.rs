//! A loadable engine module: a Fibonacci task, the module's own cancellable
//! event, registries with an explicit duplicate policy, in-order handler
//! dispatch, and the module's registration entry point.
use vstd::prelude::*;

pub mod event;
pub mod fib;
pub mod handler;
pub mod ident;
pub mod meta;
pub mod module;
pub mod registry;

verus! {

} // verus!
