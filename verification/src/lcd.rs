use vstd::prelude::*;
use crate::pin::{PinLevel, level_for, spec_level_for};

verus! {

/// Bit `k` of `data`.
pub open spec fn data_bit(data: u8, k: u8) -> bool {
    (data >> k) & 1u8 == 1u8
}

/// The levels of the data lines D4, D5, D6 and D7 of the display.
#[derive(Clone, Copy, Debug, PartialEq, Eq, Structural)]
pub struct DataLines {
    pub d4: PinLevel,
    pub d5: PinLevel,
    pub d6: PinLevel,
    pub d7: PinLevel,
}

/// The levels of D4..D7 that present `data` to the display in 4-bit mode:
/// D4 carries bit 0, D5 bit 1, D6 bit 2 and D7 bit 3; the upper four bits
/// are not presented.
pub fn data_lines(data: u8) -> (lines: DataLines)
    ensures
        lines.d4 == spec_level_for(data_bit(data, 0)),
        lines.d5 == spec_level_for(data_bit(data, 1)),
        lines.d6 == spec_level_for(data_bit(data, 2)),
        lines.d7 == spec_level_for(data_bit(data, 3)),
        (lines.d4 == PinLevel::High) == (data % 2 == 1),
        (lines.d5 == PinLevel::High) == ((data / 2) % 2 == 1),
        (lines.d6 == PinLevel::High) == ((data / 4) % 2 == 1),
        (lines.d7 == PinLevel::High) == ((data / 8) % 2 == 1),
{
    assert(((data >> 0u8) & 1u8 == 1u8) == (data % 2 == 1)) by (bit_vector);
    assert(((data >> 1u8) & 1u8 == 1u8) == ((data / 2) % 2 == 1)) by (bit_vector);
    assert(((data >> 2u8) & 1u8 == 1u8) == ((data / 4) % 2 == 1)) by (bit_vector);
    assert(((data >> 3u8) & 1u8 == 1u8) == ((data / 8) % 2 == 1)) by (bit_vector);
    DataLines {
        d4: level_for((data >> 0u8) & 1u8 == 1u8),
        d5: level_for((data >> 1u8) & 1u8 == 1u8),
        d6: level_for((data >> 2u8) & 1u8 == 1u8),
        d7: level_for((data >> 3u8) & 1u8 == 1u8),
    }
}

/// The weight a line contributes to the nibble it presents.
pub open spec fn line_value(level: PinLevel, weight: int) -> int {
    if level == PinLevel::High {
        weight
    } else {
        0
    }
}

/// The four data lines present exactly the low nibble of the byte:
/// D4 + 2·D5 + 4·D6 + 8·D7 equals `data % 16`, reading a high line as 1.
pub proof fn lemma_data_lines_present_low_nibble(data: u8, lines: DataLines)
    requires
        lines.d4 == spec_level_for(data_bit(data, 0)),
        lines.d5 == spec_level_for(data_bit(data, 1)),
        lines.d6 == spec_level_for(data_bit(data, 2)),
        lines.d7 == spec_level_for(data_bit(data, 3)),
    ensures
        line_value(lines.d4, 1) + line_value(lines.d5, 2) + line_value(lines.d6, 4)
            + line_value(lines.d7, 8) == data % 16,
{
    assert(((if (data >> 0u8) & 1u8 == 1u8 { 1u8 } else { 0u8 }) + (if (data >> 1u8) & 1u8
        == 1u8 { 2u8 } else { 0u8 }) + (if (data >> 2u8) & 1u8 == 1u8 { 4u8 } else { 0u8 }) + (
    if (data >> 3u8) & 1u8 == 1u8 { 8u8 } else { 0u8 })) == data % 16) by (bit_vector);
}

} // verus!
