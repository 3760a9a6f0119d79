use vstd::prelude::*;
use crate::pin::{PinLevel, level_for, spec_level_for};

verus! {

/// The state of the case fan. The fan runs while its control pin is high.
///
/// `pin` is the level last driven onto the control pin: `None` until the
/// controller first drives it. Every operation returns the level it drives,
/// which the caller writes to the pin.
pub struct FanCtl {
    pub enabled: bool,
    pub pin: Option<PinLevel>,
}

impl FanCtl {
    /// The control pin, once driven, agrees with `enabled`.
    pub open spec fn wf(&self) -> bool {
        self.pin matches Some(level) ==> level == spec_level_for(self.enabled)
    }

    /// The state after the fan is set to `enabled`: the flag holds `enabled`
    /// and the pin is driven to the matching level.
    pub open spec fn after_set(enabled: bool) -> FanCtl {
        FanCtl { enabled, pin: Some(spec_level_for(enabled)) }
    }

    /// A controller for a fan that is recorded as off, whose pin has not yet
    /// been driven.
    pub fn new() -> (fan: FanCtl)
        ensures
            !fan.enabled,
            fan.pin is None,
            fan.wf(),
    {
        FanCtl { enabled: false, pin: None }
    }

    /// Turns the fan on: returns the high level to drive.
    pub fn enable(&mut self) -> (level: PinLevel)
        ensures
            *final(self) == FanCtl::after_set(true),
            level == PinLevel::High,
            final(self).enabled,
            final(self).pin == Some(PinLevel::High),
    {
        self.enabled = true;
        self.pin = Some(PinLevel::High);
        PinLevel::High
    }

    /// Turns the fan off: returns the low level to drive.
    pub fn disable(&mut self) -> (level: PinLevel)
        ensures
            *final(self) == FanCtl::after_set(false),
            level == PinLevel::Low,
            !final(self).enabled,
            final(self).pin == Some(PinLevel::Low),
    {
        self.enabled = false;
        self.pin = Some(PinLevel::Low);
        PinLevel::Low
    }

    /// Flips the fan: returns the level that matches its new state.
    pub fn toggle(&mut self) -> (level: PinLevel)
        ensures
            *final(self) == FanCtl::after_set(!old(self).enabled),
            level == spec_level_for(!old(self).enabled),
            final(self).enabled == !old(self).enabled,
            final(self).pin == Some(level),
            (level == PinLevel::High) == final(self).enabled,
    {
        self.enabled = !self.enabled;
        let level = level_for(self.enabled);
        self.pin = Some(level);
        level
    }

    /// Sets the fan to `enabled`: returns the level that matches it.
    pub fn set(&mut self, enabled: bool) -> (level: PinLevel)
        ensures
            *final(self) == FanCtl::after_set(enabled),
            level == spec_level_for(enabled),
            final(self).enabled == enabled,
            final(self).pin == Some(level),
            (level == PinLevel::High) == enabled,
    {
        self.enabled = enabled;
        let level = level_for(self.enabled);
        self.pin = Some(level);
        level
    }
}

/// Every operation leaves the fan well formed, with its pin driven to the
/// level that matches its flag: the fan runs exactly when it is enabled.
pub proof fn lemma_set_drives_matching_level(enabled: bool)
    ensures
        FanCtl::after_set(enabled).wf(),
        FanCtl::after_set(enabled).pin == Some(spec_level_for(FanCtl::after_set(enabled).enabled)),
        FanCtl::after_set(enabled).enabled == enabled,
{
}

/// Toggling twice gives back the state of a fan whose pin has been driven.
pub proof fn lemma_toggle_twice_restores(fan: FanCtl)
    requires
        fan.wf(),
        fan.pin is Some,
    ensures
        FanCtl::after_set(!FanCtl::after_set(!fan.enabled).enabled) == fan,
{
}

/// Toggling a running fan stops it as `disable` does, and toggling a stopped
/// fan starts it as `enable` does.
pub proof fn lemma_toggle_is_enable_or_disable(fan: FanCtl)
    ensures
        fan.enabled ==> FanCtl::after_set(!fan.enabled) == FanCtl::after_set(false),
        !fan.enabled ==> FanCtl::after_set(!fan.enabled) == FanCtl::after_set(true),
{
}

} // verus!
