use crate::error::{FliteError, FliteResult};
use vstd::prelude::*;

verus! {

/// Whether `bits` is the binary32 pattern of a positive, finite number.
///
/// In IEEE 754 binary32 the top bit is the sign, the next eight are the
/// exponent and the rest the fraction. The patterns of the positive finite
/// numbers are those above positive zero, which is all zeros, and below
/// positive infinity, whose exponent is all ones and fraction zero; every
/// pattern from there on is infinite, not a number, or has its sign bit set.
pub open spec fn is_positive_finite(bits: u32) -> bool {
    0 < bits < 0x7f80_0000
}

/// A length of audio in seconds: a positive, finite binary32 number, kept as
/// its bits.
#[derive(Clone, Copy, Debug, PartialEq, Eq)]
pub struct SpeechDuration {
    bits: u32,
}

impl View for SpeechDuration {
    type V = u32;

    closed spec fn view(&self) -> u32 {
        self.bits
    }
}

impl SpeechDuration {
    #[verifier::type_invariant]
    spec fn usable(self) -> bool {
        is_positive_finite(self.bits)
    }

    /// Accepts the duration that the engine reported, given by its bits, if
    /// it is a positive and finite number of seconds.
    pub fn from_bits(bits: u32) -> (duration: FliteResult<SpeechDuration>)
        ensures
            match duration {
                Ok(d) => is_positive_finite(bits) && d@ == bits,
                Err(e) => !is_positive_finite(bits) && e == FliteError::InvalidDuration,
            },
    {
        if 0 < bits && bits < 0x7f80_0000 {
            Ok(SpeechDuration { bits })
        } else {
            Err(FliteError::InvalidDuration)
        }
    }

    /// The bits of the duration, which are those of a positive, finite number.
    pub fn to_bits(&self) -> (bits: u32)
        ensures
            bits == self@,
            is_positive_finite(bits),
    {
        proof {
            use_type_invariant(self);
        }
        self.bits
    }
}

} // verus!
