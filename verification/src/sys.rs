use vstd::prelude::*;
use vstd::utf8::{encode_utf8, encode_scalar, char_is_scalar, is_ascii_chars, is_ascii_chars_encode_utf8};
use substring::Substring;

verus! {

// ---------------------------------------------------------------- LEDs

/// Name of the board's green LED under `/sys/class/leds`.
pub const GREEN_LED: &'static str = "ACT";

/// Name of the board's red LED under `/sys/class/leds`.
pub const RED_LED: &'static str = "PWR";

/// The code of `c` after ASCII lowercasing: `A`..`Z` map to `a`..`z`, every
/// other character keeps its code.
pub open spec fn ascii_lower_code(c: char) -> int {
    let u = c as int;
    if 65 <= u <= 90 {
        u + 32
    } else {
        u
    }
}

/// `s` lowercases to `lower`, a word of lowercase ASCII letters.
///
/// For `red` and `green` this is exactly `s.to_lowercase() == lower`: each of
/// their letters is the lowercase form of itself and of its uppercase form
/// only, and every other character lowercases to text that holds a non-ASCII
/// character. (The exception among ASCII letters, `k`, which the Kelvin sign
/// also lowercases to, occurs in neither word.)
pub open spec fn lowercases_to(s: Seq<char>, lower: Seq<char>) -> bool {
    &&& s.len() == lower.len()
    &&& forall|i: int| 0 <= i < s.len() ==> #[trigger] ascii_lower_code(s[i]) == lower[i] as int
}

/// Whether `s` lowercases to `lower` (see `lowercases_to`).
pub fn lowercase_equals(s: &str, lower: &str) -> (r: bool)
    ensures
        r == lowercases_to(s@, lower@),
{
    let n = s.unicode_len();
    if n != lower.unicode_len() {
        return false;
    }
    let mut i: usize = 0;
    while i < n
        invariant
            n == s@.len(),
            n == lower@.len(),
            0 <= i <= n,
            forall|j: int| 0 <= j < i ==> #[trigger] ascii_lower_code(s@[j]) == lower@[j] as int,
        decreases n - i,
    {
        let c = s.get_char(i) as u32;
        let t = lower.get_char(i) as u32;
        let lc: u32 = if 65 <= c && c <= 90 {
            c + 32
        } else {
            c
        };
        if lc != t {
            assert(ascii_lower_code(s@[i as int]) != lower@[i as int] as int);
            return false;
        }
        i = i + 1;
    }
    true
}

/// The LED that a name denotes: `red` (in any letter case) is the red LED,
/// `green` the green one, and any other name is taken as the LED's own name.
pub open spec fn resolve_led(name: Seq<char>) -> Seq<char> {
    if lowercases_to(name, "red"@) {
        RED_LED@
    } else if lowercases_to(name, "green"@) {
        GREEN_LED@
    } else {
        name
    }
}

/// The LED that `iled` denotes (see `resolve_led`).
pub fn led_name<'a>(iled: &'a str) -> (led: &'a str)
    ensures
        led@ == resolve_led(iled@),
        lowercases_to(iled@, "red"@) ==> led@ == "PWR"@,
        lowercases_to(iled@, "green"@) ==> led@ == "ACT"@,
        !lowercases_to(iled@, "red"@) && !lowercases_to(iled@, "green"@) ==> led@ == iled@,
{
    proof {
        lemma_red_green_exclusive(iled@);
    }
    if lowercase_equals(iled, "red") {
        RED_LED
    } else if lowercase_equals(iled, "green") {
        GREEN_LED
    } else {
        iled
    }
}

/// The sysfs file that holds the brightness of LED `led`.
pub open spec fn led_path(led: Seq<char>) -> Seq<char> {
    "/sys/class/leds/"@ + led + "/brightness"@
}

/// The sysfs file that holds the brightness of LED `led`.
pub fn led_brightness_path(led: &str) -> (path: String)
    ensures
        path@ == led_path(led@),
        path@ == "/sys/class/leds/"@ + led@ + "/brightness"@,
{
    let mut path = String::from_str("/sys/class/leds/");
    path.append(led);
    path.append("/brightness");
    path
}

/// The decimal digit character for `d` (below 10).
pub open spec fn digit_char(d: nat) -> char {
    (48 + d) as char
}

/// The decimal representation of `n`, without sign or leading zeros.
pub open spec fn decimal(n: nat) -> Seq<char>
    decreases n,
{
    if n < 10 {
        seq![digit_char(n)]
    } else {
        decimal(n / 10).push(digit_char(n % 10))
    }
}

/// The number that a text of decimal digits denotes.
pub open spec fn digits_value(s: Seq<char>) -> int
    decreases s.len(),
{
    if s.len() == 0 {
        0
    } else {
        digits_value(s.drop_last()) * 10 + (s.last() as int - 48)
    }
}

/// Whether `c` is one of the digits `0`..`9`.
pub open spec fn is_digit(c: char) -> bool {
    48 <= c as int <= 57
}

fn digit_text(d: u8) -> (text: &'static str)
    requires
        d < 10,
    ensures
        text@ == seq![digit_char(d as nat)],
{
    proof {
        reveal_strlit("0");
        reveal_strlit("1");
        reveal_strlit("2");
        reveal_strlit("3");
        reveal_strlit("4");
        reveal_strlit("5");
        reveal_strlit("6");
        reveal_strlit("7");
        reveal_strlit("8");
        reveal_strlit("9");
    }
    match d {
        0 => "0",
        1 => "1",
        2 => "2",
        3 => "3",
        4 => "4",
        5 => "5",
        6 => "6",
        7 => "7",
        8 => "8",
        _ => "9",
    }
}

/// The decimal text of `n`, as `n.to_string()` writes it.
pub fn decimal_text(n: u8) -> (text: String)
    ensures
        text@ == decimal(n as nat),
        1 <= text@.len() <= 3,
        forall|i: int| 0 <= i < text@.len() ==> is_digit(#[trigger] text@[i]),
        text@.len() > 1 ==> text@[0] != '0',
        digits_value(text@) == n,
{
    proof {
        reveal_with_fuel(decimal, 3);
        reveal_with_fuel(digits_value, 4);
    }
    let mut text = String::from_str(digit_text(if n >= 100 {
        n / 100
    } else if n >= 10 {
        n / 10
    } else {
        n
    }));
    if n >= 10 {
        if n >= 100 {
            text.append(digit_text((n / 10) % 10));
        }
        text.append(digit_text(n % 10));
    }
    text
}

/// A write of `contents` to the file at `path`.
pub struct LedWrite {
    pub path: String,
    pub contents: String,
}

/// The write that sets LED `iled` (see `resolve_led`) to `brightness`: the
/// decimal brightness, written to the LED's sysfs brightness file.
pub fn set_led_brightness(iled: &str, brightness: u8) -> (write: LedWrite)
    ensures
        write.path@ == led_path(resolve_led(iled@)),
        write.contents@ == decimal(brightness as nat),
        lowercases_to(iled@, "red"@) ==> write.path@ == "/sys/class/leds/PWR/brightness"@,
        lowercases_to(iled@, "green"@) ==> write.path@ == "/sys/class/leds/ACT/brightness"@,
        !lowercases_to(iled@, "red"@) && !lowercases_to(iled@, "green"@) ==> write.path@
            == "/sys/class/leds/"@ + iled@ + "/brightness"@,
{
    proof {
        lemma_led_paths();
    }
    let led = led_name(iled);
    LedWrite { path: led_brightness_path(led), contents: decimal_text(brightness) }
}

/// The write that turns LED `iled` off: brightness `0`.
pub fn set_led_off(iled: &str) -> (write: LedWrite)
    ensures
        write.path@ == led_path(resolve_led(iled@)),
        write.contents@ == "0"@,
        lowercases_to(iled@, "red"@) ==> write.path@ == "/sys/class/leds/PWR/brightness"@,
        lowercases_to(iled@, "green"@) ==> write.path@ == "/sys/class/leds/ACT/brightness"@,
        !lowercases_to(iled@, "red"@) && !lowercases_to(iled@, "green"@) ==> write.path@
            == "/sys/class/leds/"@ + iled@ + "/brightness"@,
{
    proof {
        reveal_strlit("0");
    }
    set_led_brightness(iled, 0)
}

/// The write that turns LED `iled` on: brightness `255`.
pub fn set_led_on(iled: &str) -> (write: LedWrite)
    ensures
        write.path@ == led_path(resolve_led(iled@)),
        write.contents@ == "255"@,
        lowercases_to(iled@, "red"@) ==> write.path@ == "/sys/class/leds/PWR/brightness"@,
        lowercases_to(iled@, "green"@) ==> write.path@ == "/sys/class/leds/ACT/brightness"@,
        !lowercases_to(iled@, "red"@) && !lowercases_to(iled@, "green"@) ==> write.path@
            == "/sys/class/leds/"@ + iled@ + "/brightness"@,
{
    proof {
        reveal_strlit("255");
        reveal_with_fuel(decimal, 3);
    }
    set_led_brightness(iled, 255)
}

/// The sysfs files of the two board LEDs.
proof fn lemma_led_paths()
    ensures
        led_path("PWR"@) == "/sys/class/leds/PWR/brightness"@,
        led_path("ACT"@) == "/sys/class/leds/ACT/brightness"@,
{
    reveal_strlit("PWR");
    reveal_strlit("ACT");
    reveal_strlit("/sys/class/leds/");
    reveal_strlit("/brightness");
    reveal_strlit("/sys/class/leds/PWR/brightness");
    reveal_strlit("/sys/class/leds/ACT/brightness");
    assert(led_path("PWR"@) =~= "/sys/class/leds/PWR/brightness"@);
    assert(led_path("ACT"@) =~= "/sys/class/leds/ACT/brightness"@);
}

/// Every letter case of `red` names the red LED, every letter case of `green`
/// the green one, and any other name stands for itself.
pub proof fn lemma_resolve_led_by_name(name: Seq<char>)
    ensures
        lowercases_to(name, "red"@) ==> resolve_led(name) == "PWR"@,
        lowercases_to(name, "green"@) ==> resolve_led(name) == "ACT"@,
        !lowercases_to(name, "red"@) && !lowercases_to(name, "green"@) ==> resolve_led(name) == name,
{
    lemma_red_green_exclusive(name);
}

/// No name lowercases both to `red` and to `green`: their lengths differ.
proof fn lemma_red_green_exclusive(name: Seq<char>)
    ensures
        !(lowercases_to(name, "red"@) && lowercases_to(name, "green"@)),
{
    reveal_strlit("red");
    reveal_strlit("green");
}

/// Naming an LED by what a name resolves to denotes the same LED: resolving
/// is idempotent, so `red`, `Red` and `PWR` all reach the same file.
pub proof fn lemma_resolve_led_idempotent(name: Seq<char>)
    ensures
        resolve_led(resolve_led(name)) == resolve_led(name),
{
    reveal_strlit("PWR");
    reveal_strlit("ACT");
    reveal_strlit("red");
    reveal_strlit("green");
    if lowercases_to(name, "red"@) {
        assert(!lowercases_to("PWR"@, "red"@)) by {
            assert(ascii_lower_code("PWR"@[0]) != "red"@[0] as int);
        }
        assert(!lowercases_to("PWR"@, "green"@));
    } else if lowercases_to(name, "green"@) {
        assert(!lowercases_to("ACT"@, "red"@)) by {
            assert(ascii_lower_code("ACT"@[0]) != "red"@[0] as int);
        }
        assert(!lowercases_to("ACT"@, "green"@));
    }
}

// ------------------------------------------------------------ temperature

/// The command whose output carries the SoC temperature, as in `temp=48.3'C`.
pub const TEMP_COMMAND: &'static str = "/usr/bin/vcgencmd measure_temp";

/// The index of the last occurrence of `c` in `s`, or -1 where `c` does not occur.
pub open spec fn last_index_of(s: Seq<char>, c: char) -> int
    decreases s.len(),
{
    if s.len() == 0 {
        -1
    } else if s.last() == c {
        s.len() - 1
    } else {
        last_index_of(s.drop_last(), c)
    }
}

/// The byte offset of character `i` of `s`: the length of the UTF-8 encoding
/// of the characters before it.
pub open spec fn byte_offset(s: Seq<char>, i: int) -> int {
    encode_utf8(s.take(i)).len() as int
}

/// The characters of `s` from index `start` up to index `end`, both clamped to
/// the length of `s`; empty where `end <= start`.
pub open spec fn char_slice(s: Seq<char>, start: int, end: int) -> Seq<char> {
    if end <= start {
        Seq::empty()
    } else {
        let n = s.len() as int;
        s.subrange(
            if start < n {
                start
            } else {
                n
            },
            if end < n {
                end
            } else {
                n
            },
        )
    }
}

/// `Substring::substring` of the `substring` crate, which takes character
/// indices. Its source returns the empty string where `end <= start`, and
/// otherwise the characters from `start` up to `end`, each index clamped to
/// the number of characters; it does not panic.
#[verifier::external_body]
fn substring_chars<'a>(s: &'a str, start: usize, end: usize) -> (sub: &'a str)
    ensures
        sub@ == char_slice(s@, start as int, end as int),
{
    s.substring(start, end)
}

/// UTF-8 encoding distributes over concatenation.
proof fn lemma_encode_utf8_concat(a: Seq<char>, b: Seq<char>)
    ensures
        encode_utf8(a + b) == encode_utf8(a) + encode_utf8(b),
    decreases a.len(),
{
    if a.len() == 0 {
        assert(a + b =~= b);
        assert(encode_utf8(a) + encode_utf8(b) =~= encode_utf8(b));
    } else {
        lemma_encode_utf8_concat(a.drop_first(), b);
        assert((a + b).drop_first() =~= a.drop_first() + b);
        assert(encode_utf8(a + b) =~= encode_scalar(a[0] as u32) + encode_utf8(a.drop_first() + b));
    }
}

/// The byte offset of character `i + 1` is that of character `i` plus the
/// width of character `i`.
proof fn lemma_byte_offset_step(s: Seq<char>, i: int)
    requires
        0 <= i < s.len(),
    ensures
        byte_offset(s, i + 1) == byte_offset(s, i) + encode_scalar(s[i] as u32).len(),
{
    assert(s.take(i + 1) =~= s.take(i) + seq![s[i]]);
    lemma_encode_utf8_concat(s.take(i), seq![s[i]]);
    assert(seq![s[i]].drop_first() =~= Seq::<char>::empty());
    assert(encode_utf8(Seq::<char>::empty()) =~= Seq::<u8>::empty());
    assert(encode_utf8(seq![s[i]]) =~= encode_scalar(s[i] as u32) + encode_utf8(Seq::<char>::empty()));
}

/// Where `c` occurs in `s`, its last occurrence is at a valid index.
proof fn lemma_last_index_of_found(s: Seq<char>, c: char)
    ensures
        -1 <= last_index_of(s, c) < s.len(),
        last_index_of(s, c) >= 0 <==> s.contains(c),
        last_index_of(s, c) >= 0 ==> s[last_index_of(s, c)] == c,
        forall|j: int| last_index_of(s, c) < j < s.len() ==> #[trigger] s[j] != c,
    decreases s.len(),
{
    if s.len() > 0 {
        lemma_last_index_of_found(s.drop_last(), c);
        assert forall|j: int| last_index_of(s, c) < j < s.len() implies #[trigger] s[j] != c by {
            if j < s.len() - 1 {
                assert(s.drop_last()[j] == s[j]);
            }
        }
        if s.last() != c {
            if s.contains(c) {
                let k = choose|k: int| 0 <= k < s.len() && s[k] == c;
                assert(s.drop_last()[k] == c);
            }
            if s.drop_last().contains(c) {
                let k = choose|k: int| 0 <= k < s.drop_last().len() && s.drop_last()[k] == c;
                assert(s[k] == c);
            }
        }
    }
}

/// The width in bytes of the UTF-8 encoding of `c`.
fn utf8_width(c: char) -> (w: usize)
    ensures
        w == encode_scalar(c as u32).len(),
{
    proof {
        char_is_scalar(c);
    }
    let u = c as u32;
    if u <= 0x7F {
        1
    } else if u <= 0x7FF {
        2
    } else if u <= 0xFFFF {
        3
    } else {
        4
    }
}

/// The byte offset of the last occurrence of `c` in `s`, as `s.rfind(c)`
/// returns it: `None` where `c` does not occur.
pub fn last_byte_index(s: &str, c: char) -> (found: Option<usize>)
    requires
        encode_utf8(s@).len() <= usize::MAX,
    ensures
        found is None <==> !s@.contains(c),
        found matches Some(b) ==> b == byte_offset(s@, last_index_of(s@, c)),
        found matches Some(b) ==> exists|k: int|
            0 <= k < s@.len() && #[trigger] s@[k] == c && (forall|j: int| k < j < s@.len() ==> s@[j] != c)
                && b == encode_utf8(s@.take(k)).len(),
{
    let n = s.unicode_len();
    let mut i: usize = 0;
    let mut pos: usize = 0;
    let mut found: Option<usize> = None;
    proof {
        lemma_encode_utf8_concat(s@.take(0), s@);
        assert(s@.take(0) + s@ =~= s@);
        assert(s@.take(0) =~= Seq::<char>::empty());
        assert(s@.skip(0) =~= s@);
    }
    while i < n
        invariant
            n == s@.len(),
            0 <= i <= n,
            pos == byte_offset(s@, i as int),
            byte_offset(s@, i as int) + encode_utf8(s@.skip(i as int)).len() == encode_utf8(s@).len(),
            encode_utf8(s@).len() <= usize::MAX,
            found is None <==> last_index_of(s@.take(i as int), c) == -1,
            found matches Some(b) ==> b == byte_offset(s@, last_index_of(s@.take(i as int), c)),
        decreases n - i,
    {
        let ch = s.get_char(i);
        let w = utf8_width(ch);
        proof {
            lemma_byte_offset_step(s@, i as int);
            lemma_encode_utf8_concat(s@.take(i + 1), s@.skip(i + 1));
            assert(s@.take(i + 1) + s@.skip(i + 1) =~= s@);
            lemma_encode_utf8_concat(s@.take(i as int), s@.skip(i as int));
            assert(s@.take(i as int) + s@.skip(i as int) =~= s@);
            assert(s@.take(i + 1).drop_last() =~= s@.take(i as int));
            lemma_last_index_of_found(s@.take(i as int), c);
        }
        if ch == c {
            found = Some(pos);
        }
        pos = pos + w;
        i = i + 1;
    }
    proof {
        assert(s@.take(n as int) =~= s@);
        lemma_last_index_of_found(s@, c);
        let k = last_index_of(s@, c);
        if k >= 0 {
            assert(s@[k] == c);
        }
    }
    found
}

/// The temperature text in the output of `TEMP_COMMAND`: what lies between
/// the last `=` and the last `'`. As in the daemon, the two positions are
/// found as byte offsets and then taken as character indices.
pub open spec fn temp_text(output: Seq<char>) -> Seq<char> {
    char_slice(
        output,
        byte_offset(output, last_index_of(output, '=')) + 1,
        byte_offset(output, last_index_of(output, '\'')),
    )
}

/// On ASCII output, byte offsets and character indices agree, so the
/// temperature text is exactly what lies strictly between the last `=` and
/// the last `'` (empty where the quote comes first).
pub proof fn lemma_temp_text_ascii(output: Seq<char>)
    requires
        is_ascii_chars(output),
        output.contains('='),
        output.contains('\''),
    ensures
        temp_text(output) == char_slice(
            output,
            last_index_of(output, '=') + 1,
            last_index_of(output, '\''),
        ),
{
    let e = last_index_of(output, '=');
    let q = last_index_of(output, '\'');
    lemma_last_index_of_found(output, '=');
    lemma_last_index_of_found(output, '\'');
    assert(is_ascii_chars(output.take(e)));
    assert(is_ascii_chars(output.take(q)));
    is_ascii_chars_encode_utf8(output.take(e));
    is_ascii_chars_encode_utf8(output.take(q));
}

/// The temperature text in the output of `TEMP_COMMAND` (see `temp_text`);
/// `temp=48.3'C` gives `48.3`. The output must hold both a `=` and a `'`.
pub fn temp_field<'a>(output: &'a str) -> (field: &'a str)
    requires
        output@.contains('='),
        output@.contains('\''),
        encode_utf8(output@).len() <= usize::MAX,
    ensures
        field@ == temp_text(output@),
        is_ascii_chars(output@) && last_index_of(output@, '=') < last_index_of(output@, '\'') ==> field@
            == output@.subrange(last_index_of(output@, '=') + 1, last_index_of(output@, '\'')),
        is_ascii_chars(output@) && last_index_of(output@, '\'') <= last_index_of(output@, '=') + 1
            ==> field@.len() == 0,
{
    proof {
        if is_ascii_chars(output@) {
            lemma_temp_text_ascii(output@);
            lemma_last_index_of_found(output@, '=');
            lemma_last_index_of_found(output@, '\'');
        }
    }
    let eq = last_byte_index(output, '=');
    let quote = last_byte_index(output, '\'');
    let eq = match eq {
        Some(b) => b,
        None => 0,
    };
    let quote = match quote {
        Some(b) => b,
        None => 0,
    };
    proof {
        let s = output@;
        let k = last_index_of(s, '=');
        lemma_last_index_of_found(s, '=');
        lemma_byte_offset_step(s, k);
        lemma_encode_utf8_concat(s.take(k + 1), s.skip(k + 1));
        assert(s.take(k + 1) + s.skip(k + 1) =~= s);
    }
    substring_chars(output, eq + 1, quote)
}

// ---------------------------------------------------------------- reports

/// The system reports the daemon can print. Each runs a shell command under
/// `sudo bash -c` and prints what it wrote.
#[derive(Clone, Copy, Debug, PartialEq, Eq, Structural)]
pub enum SysQuery {
    /// `/proc/cpuinfo`.
    SysInfo,
    /// `/etc/os-release`.
    OsInfo,
    /// The machine architecture from `uname -m`.
    OsArch,
    /// Memory use from `free -h`.
    Mem,
    /// The core and SDRAM voltages from `vcgencmd measure_volts`.
    Voltages,
    /// Disk use from `df -h`.
    DiskInfo,
}

/// The shell command that produces a report.
pub open spec fn query_command(query: SysQuery) -> Seq<char> {
    match query {
        SysQuery::SysInfo => "cat /proc/cpuinfo"@,
        SysQuery::OsInfo => "cat /etc/os-release"@,
        SysQuery::OsArch => "uname -m"@,
        SysQuery::Mem => "free -h"@,
        SysQuery::Voltages => "for id in core sdram_c sdram_i sdram_p ; do \\\n    echo -e \"$id:\\t$(vcgencmd measure_volts $id)\" ; \\\n    done"@,
        SysQuery::DiskInfo => "df -h"@,
    }
}

/// The text printed before a report's output.
pub open spec fn query_heading(query: SysQuery) -> Seq<char> {
    match query {
        SysQuery::SysInfo => ""@,
        SysQuery::OsArch => "\nYour cpu architecutre: "@,
        _ => "\n"@,
    }
}

/// The printed report: the heading, the command's standard output, a blank
/// line, its exit status and its standard error, each line ended by a newline.
pub open spec fn report_text(query: SysQuery, stdout: Seq<char>, status: Seq<char>, stderr: Seq<char>) -> Seq<char> {
    query_heading(query) + stdout + "\n\nstatus: "@ + status + "\nerr: "@ + stderr + "\n"@
}

impl SysQuery {
    /// The shell command that produces this report.
    pub fn command(&self) -> (cmd: &'static str)
        ensures
            cmd@ == query_command(*self),
            *self == SysQuery::SysInfo ==> cmd@ == "cat /proc/cpuinfo"@,
            *self == SysQuery::OsInfo ==> cmd@ == "cat /etc/os-release"@,
            *self == SysQuery::OsArch ==> cmd@ == "uname -m"@,
            *self == SysQuery::Mem ==> cmd@ == "free -h"@,
            *self == SysQuery::Voltages ==> cmd@
                == "for id in core sdram_c sdram_i sdram_p ; do \\\n    echo -e \"$id:\\t$(vcgencmd measure_volts $id)\" ; \\\n    done"@,
            *self == SysQuery::DiskInfo ==> cmd@ == "df -h"@,
    {
        match self {
            SysQuery::SysInfo => "cat /proc/cpuinfo",
            SysQuery::OsInfo => "cat /etc/os-release",
            SysQuery::OsArch => "uname -m",
            SysQuery::Mem => "free -h",
            SysQuery::Voltages => "for id in core sdram_c sdram_i sdram_p ; do \\\n    echo -e \"$id:\\t$(vcgencmd measure_volts $id)\" ; \\\n    done",
            SysQuery::DiskInfo => "df -h",
        }
    }

    /// The text printed before this report's output.
    pub fn heading(&self) -> (heading: &'static str)
        ensures
            heading@ == query_heading(*self),
            *self == SysQuery::SysInfo ==> heading@ == ""@,
            *self == SysQuery::OsInfo ==> heading@ == "\n"@,
            *self == SysQuery::OsArch ==> heading@ == "\nYour cpu architecutre: "@,
            *self == SysQuery::Mem ==> heading@ == "\n"@,
            *self == SysQuery::Voltages ==> heading@ == "\n"@,
            *self == SysQuery::DiskInfo ==> heading@ == "\n"@,
    {
        match self {
            SysQuery::SysInfo => "",
            SysQuery::OsArch => "\nYour cpu architecutre: ",
            _ => "\n",
        }
    }

    /// The printed report (see `report_text`), given the command's standard
    /// output, its exit status as displayed, and its standard error, each
    /// already decoded as text.
    pub fn report(&self, stdout: &str, status: &str, stderr: &str) -> (text: String)
        ensures
            text@ == report_text(*self, stdout@, status@, stderr@),
            *self == SysQuery::SysInfo ==> text@ == ""@ + stdout@ + "\n\nstatus: "@ + status@ + "\nerr: "@ + stderr@ + "\n"@,
            *self == SysQuery::OsInfo ==> text@ == "\n"@ + stdout@ + "\n\nstatus: "@ + status@ + "\nerr: "@ + stderr@ + "\n"@,
            *self == SysQuery::OsArch ==> text@ == "\nYour cpu architecutre: "@ + stdout@ + "\n\nstatus: "@ + status@ + "\nerr: "@ + stderr@ + "\n"@,
            *self == SysQuery::Mem ==> text@ == "\n"@ + stdout@ + "\n\nstatus: "@ + status@ + "\nerr: "@ + stderr@ + "\n"@,
            *self == SysQuery::Voltages ==> text@ == "\n"@ + stdout@ + "\n\nstatus: "@ + status@ + "\nerr: "@ + stderr@ + "\n"@,
            *self == SysQuery::DiskInfo ==> text@ == "\n"@ + stdout@ + "\n\nstatus: "@ + status@ + "\nerr: "@ + stderr@ + "\n"@,
    {
        let mut text = String::from_str(self.heading());
        text.append(stdout);
        text.append("\n\nstatus: ");
        text.append(status);
        text.append("\nerr: ");
        text.append(stderr);
        text.append("\n");
        text
    }
}

/// Only the architecture report carries a label: the cpuinfo report has no
/// heading and every other report starts with a bare newline.
pub proof fn lemma_report_headings()
    ensures
        query_heading(SysQuery::SysInfo) == ""@,
        query_heading(SysQuery::OsInfo) == "\n"@,
        query_heading(SysQuery::OsArch) == "\nYour cpu architecutre: "@,
        query_heading(SysQuery::Mem) == "\n"@,
        query_heading(SysQuery::Voltages) == "\n"@,
        query_heading(SysQuery::DiskInfo) == "\n"@,
{
}

/// Every report, whatever the query, holds the command's standard output
/// right after its heading, then a blank line, the status and the errors.
pub proof fn lemma_report_holds_output(query: SysQuery, stdout: Seq<char>, status: Seq<char>, stderr: Seq<char>)
    ensures
        report_text(query, stdout, status, stderr).subrange(
            query_heading(query).len() as int,
            (query_heading(query).len() + stdout.len()) as int,
        ) == stdout,
        report_text(query, stdout, status, stderr) == query_heading(query) + stdout + "\n\nstatus: "@
            + status + "\nerr: "@ + stderr + "\n"@,
{
    let h = query_heading(query);
    let rest = "\n\nstatus: "@ + status + "\nerr: "@ + stderr + "\n"@;
    assert(report_text(query, stdout, status, stderr) =~= h + stdout + rest);
    assert((h + stdout + rest).subrange(h.len() as int, (h.len() + stdout.len()) as int) =~= stdout);
}

} // verus!
