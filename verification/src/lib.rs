use vstd::prelude::*;

pub mod text;
pub mod numbers;
pub mod io;
pub mod topo;
pub mod geom;
pub mod sync;
pub mod check;
pub mod math;
pub mod ops;
pub mod tess;
pub mod ffi;

verus! {

/// Version of the kernel.
pub fn version() -> (v: &'static str)
    ensures
        v@ == "0.1.0"@,
{
    proof {
        reveal_strlit("0.1.0");
    }
    "0.1.0"
}

/// Initialize the kernel: nothing needs setting up.
pub fn init() {
}

} // verus!
