use rpictl::sys::{
    decimal_text, last_byte_index, led_brightness_path, led_name, lowercase_equals,
    set_led_brightness, set_led_off, set_led_on, temp_field, SysQuery, GREEN_LED, RED_LED,
    TEMP_COMMAND,
};

#[test]
fn lowercase_equals_ignores_ascii_case() {
    assert!(lowercase_equals("red", "red"));
    assert!(lowercase_equals("ReD", "red"));
    assert!(lowercase_equals("GREEN", "green"));
    assert!(!lowercase_equals("reds", "red"));
    assert!(!lowercase_equals("rad", "red"));
    assert!(!lowercase_equals("", "red"));
    assert!(lowercase_equals("", ""));
}

#[test]
fn led_names_resolve() {
    assert_eq!(led_name("red"), RED_LED);
    assert_eq!(led_name("RED"), "PWR");
    assert_eq!(led_name("Green"), GREEN_LED);
    assert_eq!(led_name("green"), "ACT");
    assert_eq!(led_name("PWR"), "PWR");
    assert_eq!(led_name("ACT"), "ACT");
    assert_eq!(led_name("led0"), "led0");
}

#[test]
fn resolving_twice_is_resolving_once() {
    for name in ["red", "Red", "green", "GREEN", "PWR", "ACT", "mmc0", ""] {
        assert_eq!(led_name(led_name(name)), led_name(name));
    }
}

#[test]
fn brightness_path() {
    assert_eq!(led_brightness_path("PWR"), "/sys/class/leds/PWR/brightness");
    assert_eq!(led_brightness_path("ACT"), "/sys/class/leds/ACT/brightness");
}

#[test]
fn decimal_text_is_to_string() {
    for n in 0..=255u8 {
        assert_eq!(decimal_text(n), n.to_string());
    }
}

#[test]
fn set_led_brightness_targets_the_resolved_led() {
    let w = set_led_brightness("red", 128);
    assert_eq!(w.path, "/sys/class/leds/PWR/brightness");
    assert_eq!(w.contents, "128");
    let w = set_led_brightness("Green", 7);
    assert_eq!(w.path, "/sys/class/leds/ACT/brightness");
    assert_eq!(w.contents, "7");
    let w = set_led_brightness("led1", 42);
    assert_eq!(w.path, "/sys/class/leds/led1/brightness");
    assert_eq!(w.contents, "42");
}

#[test]
fn set_led_off_writes_zero() {
    let w = set_led_off(RED_LED);
    assert_eq!(w.path, "/sys/class/leds/PWR/brightness");
    assert_eq!(w.contents, "0");
    let w = set_led_off("green");
    assert_eq!(w.path, "/sys/class/leds/ACT/brightness");
    assert_eq!(w.contents, "0");
}

#[test]
fn set_led_on_writes_full_brightness() {
    let w = set_led_on(GREEN_LED);
    assert_eq!(w.path, "/sys/class/leds/ACT/brightness");
    assert_eq!(w.contents, "255");
    let w = set_led_on("RED");
    assert_eq!(w.path, "/sys/class/leds/PWR/brightness");
    assert_eq!(w.contents, "255");
}

#[test]
fn last_byte_index_is_rfind() {
    for (s, c) in [("temp=48.3'C", '='), ("a=b=c", '='), ("abc", '='), ("é=5'", '\''), ("ü'x'", '\''), ("", 'x')] {
        assert_eq!(last_byte_index(s, c), s.rfind(c));
    }
}

#[test]
fn temp_field_reads_vcgencmd_output() {
    assert_eq!(temp_field("temp=48.3'C\n"), "48.3");
    assert_eq!(temp_field("temp=62.0'C"), "62.0");
    assert_eq!(temp_field("x=1 temp=40.1'C"), "40.1");
}

#[test]
fn temp_field_takes_byte_offsets_as_character_indices() {
    // '=' at byte 2 and '\'' at byte 4; characters 3..4 are "'".
    assert_eq!(temp_field("é=5'"), "'");
    // The quote before the equals sign gives the empty text.
    assert_eq!(temp_field("a'b=c"), "");
}

#[test]
fn temp_command() {
    assert_eq!(TEMP_COMMAND, "/usr/bin/vcgencmd measure_temp");
}

#[test]
fn report_commands() {
    assert_eq!(SysQuery::SysInfo.command(), "cat /proc/cpuinfo");
    assert_eq!(SysQuery::OsInfo.command(), "cat /etc/os-release");
    assert_eq!(SysQuery::OsArch.command(), "uname -m");
    assert_eq!(SysQuery::Mem.command(), "free -h");
    assert_eq!(SysQuery::DiskInfo.command(), "df -h");
    assert_eq!(
        SysQuery::Voltages.command(),
        r#"for id in core sdram_c sdram_i sdram_p ; do \
    echo -e "$id:\t$(vcgencmd measure_volts $id)" ; \
    done"#
    );
}

#[test]
fn reports_print_heading_output_status_and_errors() {
    assert_eq!(
        SysQuery::SysInfo.report("cpu", "exit status: 0", ""),
        "cpu\n\nstatus: exit status: 0\nerr: \n"
    );
    assert_eq!(
        SysQuery::Mem.report("mem", "exit status: 0", "oops"),
        "\nmem\n\nstatus: exit status: 0\nerr: oops\n"
    );
    assert_eq!(
        SysQuery::OsArch.report("aarch64\n", "exit status: 0", ""),
        "\nYour cpu architecutre: aarch64\n\n\nstatus: exit status: 0\nerr: \n"
    );
}
