use vstd::prelude::*;

verus! {

/// Address where programs are loaded; the first 0x100 bytes are reserved.
pub const START_ADDRESS: u16 = 0x100;

/// The machine word of this 16-bit VM.
pub type VMWord = u16;

/// A byte address on the bus.
pub type VmAddr = VMWord;

} // verus!
