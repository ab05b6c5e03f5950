use vstd::prelude::*;

verus! {

/// Number of occupancy codes per unit of occupancy: a code `c` stands for the
/// fraction `(c + 1) / OCCUPANCY_STEPS`.
pub const OCCUPANCY_STEPS: u16 = 256;

/// An 8-bit fixed-point code for a normalized occupancy value.
#[derive(Debug, Copy, Clone, PartialEq, Eq, Structural)]
pub struct QuantizedFloat {
    pub value: u8,
}

impl QuantizedFloat {
    /// The code that a scaled occupancy narrows to. Narrowing saturates:
    /// anything below the code range becomes 0, anything above it 255.
    pub open spec fn narrowed(scaled: int) -> u8 {
        if scaled < 0 {
            0u8
        } else if scaled > 255 {
            255u8
        } else {
            scaled as u8
        }
    }

    /// Decoding a code that was stored from a scaled occupancy inside the code
    /// range gives that scaled occupancy plus one as numerator; outside the
    /// range it gives the numerator of the nearest end of the range.
    pub proof fn lemma_scaled_round_trip(scaled: int)
        ensures
            0 <= scaled <= 255 ==> Self::narrowed(scaled) + 1 == scaled + 1,
            scaled < 0 ==> Self::narrowed(scaled) + 1 == 1,
            scaled > 255 ==> Self::narrowed(scaled) + 1 == OCCUPANCY_STEPS,
    {
    }

    #[inline]
    pub fn new(val: u8) -> (q: Self)
        ensures
            q.value == val,
    {
        QuantizedFloat { value: val }
    }

    /// Stores the code for an occupancy that the caller has already scaled to
    /// code units, offset by one and rounded to an integer. Values outside the
    /// code range saturate rather than wrap.
    #[inline]
    pub fn encode_scaled(&mut self, scaled: i64)
        ensures
            final(self).value == Self::narrowed(scaled as int),
    {
        if scaled < 0 {
            self.value = 0;
        } else if scaled > 255 {
            self.value = 255;
        } else {
            self.value = scaled as u8;
        }
    }

    /// The numerator of the decoded occupancy, whose denominator is
    /// `OCCUPANCY_STEPS`.
    #[inline]
    pub fn decode_numerator(&self) -> (n: u16)
        ensures
            n == self.value + 1,
            1 <= n <= OCCUPANCY_STEPS,
    {
        let wide: u16 = self.value as u16;
        wide + 1
    }
}

} // verus!
