use vstd::prelude::*;

pub mod broker;
pub mod dispatch;
pub mod engine;
pub mod keys;
pub mod registry;
pub mod router;
pub mod types;

verus! {

} // verus!
