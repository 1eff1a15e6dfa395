use vstd::prelude::*;

verus! {

/// The compute target that a piece of sample data, or a set of
/// normalization statistics, lives on.
#[derive(Clone, Copy, Debug, PartialEq, Eq, Structural)]
pub enum Device {
    Cpu,
    Gpu(u32),
}

} // verus!
