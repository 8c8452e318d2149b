use vstd::prelude::*;

pub mod text;
pub mod clock;
pub mod manager;
pub mod agent;
pub mod display;
pub mod version;
pub mod update;

verus! {
} // verus!
