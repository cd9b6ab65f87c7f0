use vstd::prelude::*;

pub mod config;
pub mod timer;

verus! {

/// The release of this library.
pub fn version() -> (r: &'static str)
    ensures
        r@ == "1.1.0"@,
{
    "1.1.0"
}

} // verus!
