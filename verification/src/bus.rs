use vstd::prelude::*;

verus! {

/// The hardware block that issues a bus access. An owner of memory may latch
/// its registers for one origin and not for the other.
#[derive(Clone, Copy, Debug, PartialEq, Eq, Structural)]
pub enum Device {
    /// The processor.
    CPU,
    /// The picture unit.
    PPU,
}

} // verus!
