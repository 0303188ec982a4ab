//! Where the RA-GAS NE4 keeps its measured value.

use vstd::prelude::*;

verus! {

/// The offset of the first register of the measured value.
pub const VALUE_RREG_START: u16 = 0x0000;

/// The number of registers that the measured value takes.
pub const VALUE_RREG_COUNT: u16 = 0x0001;

} // verus!
