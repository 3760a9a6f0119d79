use vstd::prelude::*;

verus! {

/// Night mode starts at this hour, and lasts until `DAY_START_HOUR`.
pub const NIGHT_START_HOUR: u32 = 21;

/// Night mode ends at this hour.
pub const DAY_START_HOUR: u32 = 7;

/// What to do with both status LEDs.
#[derive(Clone, Copy, Debug, PartialEq, Eq, Structural)]
pub enum LedCommand {
    /// Leave them as they are.
    Keep,
    /// Turn both off.
    AllOff,
    /// Turn both on.
    AllOn,
}

/// The outcome of one pass of the daemon's loop: the new night-mode flag and
/// what to do with the LEDs.
#[derive(Clone, Copy, Debug, PartialEq, Eq, Structural)]
pub struct NightStep {
    pub night_mode: bool,
    pub leds: LedCommand,
}

/// The night-mode flag after a pass at `hour`: on from 21:00, off from 7:00
/// until 21:00, and unchanged before 7:00.
pub open spec fn night_after(night_mode: bool, hour: u32) -> bool {
    hour >= NIGHT_START_HOUR || (hour < DAY_START_HOUR && night_mode)
}

/// The LED command of a pass that takes the flag from `before` to `after`:
/// the LEDs go off as night mode starts and on as it ends.
pub open spec fn led_command(before: bool, after: bool) -> LedCommand {
    if !before && after {
        LedCommand::AllOff
    } else if before && !after {
        LedCommand::AllOn
    } else {
        LedCommand::Keep
    }
}

/// One pass of the daemon's loop at local hour `hour`, with night mode
/// `night_mode`: night mode starts at 21:00 and ends at 7:00; the LEDs are
/// switched off when it starts and on when it ends.
pub fn night_mode_step(night_mode: bool, hour: u32) -> (step: NightStep)
    ensures
        step.night_mode == night_after(night_mode, hour),
        step.leds == led_command(night_mode, step.night_mode),
        hour >= 21 ==> step.night_mode,
        7 <= hour < 21 ==> !step.night_mode,
        hour < 7 ==> step.night_mode == night_mode && step.leds == LedCommand::Keep,
        (step.leds == LedCommand::AllOff) == (!night_mode && step.night_mode),
        (step.leds == LedCommand::AllOn) == (night_mode && !step.night_mode),
        (step.leds == LedCommand::Keep) == (step.night_mode == night_mode),
{
    if hour >= NIGHT_START_HOUR && !night_mode {
        return NightStep { night_mode: true, leds: LedCommand::AllOff };
    }
    if hour >= DAY_START_HOUR && hour < NIGHT_START_HOUR && night_mode {
        return NightStep { night_mode: false, leds: LedCommand::AllOn };
    }
    NightStep { night_mode, leds: LedCommand::Keep }
}

/// The text the daemon stores for a flag: `true` or `false`.
pub open spec fn flag_text_spec(flag: bool) -> Seq<char> {
    if flag {
        "true"@
    } else {
        "false"@
    }
}

/// The text the daemon stores for a flag, as `flag.to_string()` writes it.
pub fn flag_text(flag: bool) -> (text: &'static str)
    ensures
        text@ == flag_text_spec(flag),
        flag ==> text@ == "true"@,
        !flag ==> text@ == "false"@,
{
    if flag {
        "true"
    } else {
        "false"
    }
}

/// Whether the LEDs are lit after `command`, given whether they were lit before.
pub open spec fn leds_lit_after(lit: bool, command: LedCommand) -> bool {
    match command {
        LedCommand::Keep => lit,
        LedCommand::AllOff => false,
        LedCommand::AllOn => true,
    }
}

/// The LEDs are lit exactly when night mode is off: where this holds before a
/// pass (as it does when the daemon starts, with the LEDs lit and night mode
/// off), it holds after it, whatever the hour.
pub proof fn lemma_leds_lit_outside_night(night_mode: bool, lit: bool, hour: u32)
    requires
        lit == !night_mode,
    ensures
        leds_lit_after(lit, led_command(night_mode, night_after(night_mode, hour)))
            == !night_after(night_mode, hour),
{
}

/// A second pass at the same hour changes nothing: it keeps the flag and
/// switches no LED.
pub proof fn lemma_step_idempotent(night_mode: bool, hour: u32)
    ensures
        night_after(night_after(night_mode, hour), hour) == night_after(night_mode, hour),
        led_command(night_after(night_mode, hour), night_after(night_after(night_mode, hour), hour))
            == LedCommand::Keep,
{
}

/// The LEDs are switched exactly when the night-mode flag changes.
pub proof fn lemma_leds_switch_iff_mode_changes(night_mode: bool, hour: u32)
    ensures
        (led_command(night_mode, night_after(night_mode, hour)) != LedCommand::Keep)
            <==> (night_after(night_mode, hour) != night_mode),
{
}

/// The schedule by the clock: every pass from 21:00 leaves night mode on,
/// every pass from 7:00 until 21:00 leaves it off, and a pass before 7:00
/// (midnight included) keeps the flag and switches no LED. So night mode
/// begins only at an hour from 21 and ends only at an hour from 7 to 20.
pub proof fn lemma_night_schedule_by_hour(night_mode: bool, hour: u32)
    ensures
        hour >= 21 ==> night_after(night_mode, hour),
        7 <= hour < 21 ==> !night_after(night_mode, hour),
        hour < 7 ==> night_after(night_mode, hour) == night_mode,
        hour < 7 ==> led_command(night_mode, night_after(night_mode, hour)) == LedCommand::Keep,
        !night_mode && night_after(night_mode, hour) ==> hour >= 21,
        night_mode && !night_after(night_mode, hour) ==> 7 <= hour < 21,
{
}

/// The LEDs go off exactly as night mode starts and on exactly as it ends.
pub proof fn lemma_led_command_by_change(before: bool, after: bool)
    ensures
        (led_command(before, after) == LedCommand::AllOff) == (!before && after),
        (led_command(before, after) == LedCommand::AllOn) == (before && !after),
        (led_command(before, after) == LedCommand::Keep) == (before == after),
{
}

} // verus!
