//! Choice of the sound card buffer size.
use vstd::prelude::*;

verus! {

/// Number of frames per sound card buffer that the player asks for.
pub const OPTIMUM_BUFFER_SIZE: u32 = 1024;

/// Buffer sizes that a sound card accepts.
#[derive(Debug, Clone, Copy, PartialEq, Eq)]
pub enum BufferSizeRange {
    /// Any size from `min` to `max` frames.
    Range { min: u32, max: u32 },
    /// The card does not say.
    Unknown,
}

/// Buffer size asked of the sound card.
#[derive(Debug, Clone, Copy, PartialEq, Eq)]
pub enum BufferSizeChoice {
    /// This many frames.
    Fixed(u32),
    /// Whatever the card uses by default.
    Default,
}

/// `x` brought into `[min, max]`.
pub open spec fn clamp(x: int, min: int, max: int) -> int {
    if x < min {
        min
    } else if x > max {
        max
    } else {
        x
    }
}

/// The buffer size to ask for: the optimum brought into the accepted range,
/// or the card's default when the range is unknown.
pub fn choose_buffer_size(supported: &BufferSizeRange) -> (r: BufferSizeChoice)
    requires
        *supported matches BufferSizeRange::Range { min, max } ==> min <= max,
    ensures
        match *supported {
            BufferSizeRange::Range { min, max } => r matches BufferSizeChoice::Fixed(n) && n == clamp(
                OPTIMUM_BUFFER_SIZE as int,
                min as int,
                max as int,
            ),
            BufferSizeRange::Unknown => r is Default,
        },
{
    match supported {
        BufferSizeRange::Range { min, max } => {
            let n = if OPTIMUM_BUFFER_SIZE < *min {
                *min
            } else if OPTIMUM_BUFFER_SIZE > *max {
                *max
            } else {
                OPTIMUM_BUFFER_SIZE
            };
            BufferSizeChoice::Fixed(n)
        },
        BufferSizeRange::Unknown => BufferSizeChoice::Default,
    }
}

} // verus!
