//! The fixed parameters of the image pipeline: a global threshold, then a
//! morphological close, then the coordinates of what is left bright.

use vstd::prelude::*;

verus! {

/// The least intensity that counts as bright.
pub const BRIGHT_FROM: u8 = 200;

/// The value of a bright sample in the binary image.
pub const BINARY_MAX: u8 = 255;

/// The side of the square, all-ones structuring element of the close.
pub const KERNEL_SIZE: i32 = 3;

/// How often the close dilates, and then erodes.
pub const CLOSE_ITERATIONS: i32 = 3;

/// Whether a sample counts as bright.
pub open spec fn is_bright(sample: u8) -> bool {
    sample >= BRIGHT_FROM
}

/// The sample of the binary image for a sample of the frame.
pub open spec fn binarized(sample: u8) -> u8 {
    if is_bright(sample) {
        BINARY_MAX
    } else {
        0
    }
}

/// The level for a threshold that lets through the samples strictly above
/// its level: exactly the bright samples lie above it.
pub fn threshold_level() -> (level: u8)
    ensures
        level == BRIGHT_FROM - 1,
        forall|sample: u8| sample > level <==> is_bright(sample),
{
    BRIGHT_FROM - 1
}

} // verus!
