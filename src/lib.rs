use vstd::prelude::*;

pub mod args;
pub mod capability;
pub mod device;
pub mod error;
pub mod graphics;
pub mod power;
mod text;

verus! {

} // verus!
