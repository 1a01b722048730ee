use vstd::prelude::*;

pub mod boundary;
pub mod greeting;

verus! {

} // verus!
