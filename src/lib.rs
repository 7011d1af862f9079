use vstd::prelude::*;

pub mod address;
pub mod client;
pub mod config;
pub mod error;
pub mod flow;
pub mod state;

verus! {

} // verus!
