//! The BLE channel table: maps a logical channel index (0..=39) to its radio
//! frequency and whitening initialization value.

use vstd::prelude::*;

verus! {

/// Frequency in MHz assigned to each BLE channel index.
///
/// The three advertising channels 37, 38 and 39 sit at 2402, 2426 and
/// 2480 MHz; the data channels fill the remaining 2 MHz grid in between.
pub open spec fn spec_frequency(number: u8) -> usize {
    if number == 37 {
        2402
    } else if number == 38 {
        2426
    } else if number == 39 {
        2480
    } else if number <= 10 {
        (2404 + 2 * number) as usize
    } else {
        (2406 + 2 * number) as usize
    }
}

/// A BLE radio channel: its logical index and the frequency it is tuned to.
#[derive(Debug, Clone, Copy, PartialEq, Eq, Structural)]
pub struct Channel {
    pub frequency: usize,
    pub number: u8,
}

impl Channel {
    /// A channel is well formed when its index is valid and its frequency
    /// agrees with the fixed table.
    pub open spec fn wf(self) -> bool {
        &&& self.number <= 39
        &&& self.frequency == spec_frequency(self.number)
    }

    pub fn new(number: u8) -> (r: Self)
        requires
            number <= 39,
        ensures
            r.number == number,
            r.frequency == spec_frequency(number),
            r.wf(),
    {
        let frequency: usize = if number == 37 {
            2402
        } else if number == 38 {
            2426
        } else if number == 39 {
            2480
        } else if number <= 10 {
            2404 + 2 * (number as usize)
        } else {
            2406 + 2 * (number as usize)
        };

        Channel { frequency, number }
    }

    /// The whitening initialization value: the channel index with bit 6 set.
    pub fn whitening_iv(&self) -> (r: u8)
        ensures
            r == (self.number | 0x40),
    {
        self.number | 0x40
    }

    pub fn is_advertising(&self) -> (r: bool)
        ensures
            r == self.spec_is_advertising(),
    {
        self.number >= 37
    }

    pub open spec fn spec_is_advertising(self) -> bool {
        self.number >= 37
    }
}

/// The channel table's global shape: every valid channel index maps to a
/// frequency within the 2402..=2480 MHz band, a channel is an advertising
/// channel exactly when its index is 37, 38 or 39, and the whitening value
/// is always the index with bit 6 set.
pub proof fn lemma_channel_table(number: u8)
    requires
        number <= 39,
    ensures
        2402 <= spec_frequency(number) <= 2480,
        (number == 37 || number == 38 || number == 39) <==> (number >= 37),
        (number | 0x40) == number + 0x40,
{
    assert((number | 0x40) == number + 0x40) by (bit_vector)
        requires
            number <= 39,
    ;
}

} // verus!
