use vstd::prelude::*;

verus! {

/// The level driven onto a GPIO output pin.
#[derive(Clone, Copy, Debug, PartialEq, Eq, Structural)]
pub enum PinLevel {
    Low,
    High,
}

/// The level that stands for a logical bit: `true` is high, `false` is low.
pub open spec fn spec_level_for(bit: bool) -> PinLevel {
    if bit {
        PinLevel::High
    } else {
        PinLevel::Low
    }
}

/// The level to drive for `bit`: high for `true`, low for `false`.
#[verifier::when_used_as_spec(spec_level_for)]
pub fn level_for(bit: bool) -> (level: PinLevel)
    ensures
        level == spec_level_for(bit),
        bit ==> level == PinLevel::High,
        !bit ==> level == PinLevel::Low,
{
    if bit {
        PinLevel::High
    } else {
        PinLevel::Low
    }
}

} // verus!
