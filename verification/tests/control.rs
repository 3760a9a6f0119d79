use rpictl::fan::FanCtl;
use rpictl::lcd::{data_lines, DataLines};
use rpictl::pin::{level_for, PinLevel};
use rpictl::schedule::{flag_text, night_mode_step, LedCommand, NightStep};

#[test]
fn level_for_maps_bits_to_levels() {
    assert_eq!(level_for(true), PinLevel::High);
    assert_eq!(level_for(false), PinLevel::Low);
}

#[test]
fn new_fan_is_off_and_undriven() {
    let fan = FanCtl::new();
    assert!(!fan.enabled);
    assert_eq!(fan.pin, None);
}

#[test]
fn enable_and_disable_drive_the_pin() {
    let mut fan = FanCtl::new();
    assert_eq!(fan.enable(), PinLevel::High);
    assert!(fan.enabled);
    assert_eq!(fan.pin, Some(PinLevel::High));
    assert_eq!(fan.disable(), PinLevel::Low);
    assert!(!fan.enabled);
    assert_eq!(fan.pin, Some(PinLevel::Low));
}

#[test]
fn toggle_flips_and_twice_restores() {
    let mut fan = FanCtl::new();
    assert_eq!(fan.toggle(), PinLevel::High);
    assert!(fan.enabled);
    let before = (fan.enabled, fan.pin);
    assert_eq!(fan.toggle(), PinLevel::Low);
    assert!(!fan.enabled);
    assert_eq!(fan.pin, Some(PinLevel::Low));
    assert_eq!(fan.toggle(), PinLevel::High);
    assert_eq!((fan.enabled, fan.pin), before);
}

#[test]
fn set_follows_its_argument() {
    let mut fan = FanCtl::new();
    assert_eq!(fan.set(true), PinLevel::High);
    assert_eq!(fan.set(true), PinLevel::High);
    assert!(fan.enabled);
    assert_eq!(fan.set(false), PinLevel::Low);
    assert!(!fan.enabled);
    assert_eq!(fan.pin, Some(PinLevel::Low));
}

fn lines(d4: bool, d5: bool, d6: bool, d7: bool) -> DataLines {
    DataLines { d4: level_for(d4), d5: level_for(d5), d6: level_for(d6), d7: level_for(d7) }
}

#[test]
fn data_lines_carry_the_low_nibble() {
    assert_eq!(data_lines(0x00), lines(false, false, false, false));
    assert_eq!(data_lines(0x01), lines(true, false, false, false));
    assert_eq!(data_lines(0x0A), lines(false, true, false, true));
    assert_eq!(data_lines(0x0F), lines(true, true, true, true));
    assert_eq!(data_lines(0xF0), lines(false, false, false, false));
    assert_eq!(data_lines(0x36), lines(false, true, true, false));
}

#[test]
fn data_lines_sum_to_the_nibble() {
    for data in 0..=255u8 {
        let l = data_lines(data);
        let v = |lv: PinLevel, w: u8| if lv == PinLevel::High { w } else { 0 };
        assert_eq!(v(l.d4, 1) + v(l.d5, 2) + v(l.d6, 4) + v(l.d7, 8), data % 16);
    }
}

#[test]
fn night_mode_starts_at_nine_pm() {
    assert_eq!(night_mode_step(false, 21), NightStep { night_mode: true, leds: LedCommand::AllOff });
    assert_eq!(night_mode_step(false, 23), NightStep { night_mode: true, leds: LedCommand::AllOff });
    assert_eq!(night_mode_step(true, 22), NightStep { night_mode: true, leds: LedCommand::Keep });
}

#[test]
fn night_mode_ends_at_seven_am() {
    assert_eq!(night_mode_step(true, 7), NightStep { night_mode: false, leds: LedCommand::AllOn });
    assert_eq!(night_mode_step(true, 20), NightStep { night_mode: false, leds: LedCommand::AllOn });
    assert_eq!(night_mode_step(false, 12), NightStep { night_mode: false, leds: LedCommand::Keep });
}

#[test]
fn early_hours_keep_the_mode() {
    assert_eq!(night_mode_step(true, 3), NightStep { night_mode: true, leds: LedCommand::Keep });
    assert_eq!(night_mode_step(false, 3), NightStep { night_mode: false, leds: LedCommand::Keep });
    assert_eq!(night_mode_step(false, 0), NightStep { night_mode: false, leds: LedCommand::Keep });
}

#[test]
fn a_second_pass_changes_nothing() {
    for hour in 0..24u32 {
        for night in [false, true] {
            let first = night_mode_step(night, hour);
            let second = night_mode_step(first.night_mode, hour);
            assert_eq!(second, NightStep { night_mode: first.night_mode, leds: LedCommand::Keep });
        }
    }
}

#[test]
fn leds_are_lit_exactly_outside_night_mode() {
    let mut night = false;
    let mut lit = true;
    for pass in 0..72u32 {
        let step = night_mode_step(night, pass % 24);
        match step.leds {
            LedCommand::AllOff => lit = false,
            LedCommand::AllOn => lit = true,
            LedCommand::Keep => {}
        }
        night = step.night_mode;
        assert_eq!(lit, !night);
    }
}

#[test]
fn flag_text_is_to_string() {
    assert_eq!(flag_text(true), true.to_string());
    assert_eq!(flag_text(false), false.to_string());
}
