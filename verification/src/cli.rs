//! The values of the command line that the library decides on: workload presets,
//! transfer directions and `--duration` arguments.
use vstd::prelude::*;
use crate::text::{
    chars_of, debug_char, debug_str, is_ascii_digit, message3, message_debug_range,
    parse_unsigned, parse_unsigned_range, render_debug_char, trim, trim_range, char_is_ascii_digit,
};

verus! {

/// Workload preset of the CPU benchmark.
#[derive(Debug, Clone, Copy, PartialEq, Eq, Structural)]
pub enum Mode {
    Quick,
    Normal,
    Long,
}

/// Transfer directions that an adb run times.
#[derive(Debug, Clone, Copy, PartialEq, Eq, Structural)]
pub enum AdbDirection {
    Both,
    Push,
}

impl AdbDirection {
    /// The name of the direction as the envelope records it.
    pub open spec fn name(self) -> Seq<char> {
        match self {
            AdbDirection::Both => "both"@,
            AdbDirection::Push => "push"@,
        }
    }

    /// Whether the run times pulls as well as pushes.
    pub fn times_pulls(self) -> (b: bool)
        ensures b == (self == AdbDirection::Both),
    {
        match self {
            AdbDirection::Both => true,
            AdbDirection::Push => false,
        }
    }

    pub fn as_str(self) -> (r: &'static str)
        ensures r@ == self.name(),
    {
        match self {
            AdbDirection::Both => "both",
            AdbDirection::Push => "push",
        }
    }
}

/// Seconds per unit of a `--duration` suffix.
pub open spec fn duration_unit(c: char) -> Option<nat> {
    if c == 's' { Some(1) } else if c == 'm' { Some(60) } else if c == 'h' { Some(3600) } else { None }
}

/// The meaning of a `--duration` argument: after trimming, a positive whole number
/// of seconds, optionally followed by `s`, `m` (minutes) or `h` (hours); the total
/// in seconds, or the message that rejects the argument.
pub open spec fn duration_arg(s: Seq<char>) -> Result<u64, Seq<char>> {
    let t = trim(s);
    if t.len() == 0 {
        Err("duration must not be empty"@)
    } else if duration_unit(t.last()) is None && !is_ascii_digit(t.last()) {
        Err("invalid duration suffix "@ + debug_char(t.last()) + " (expected s, m, h)"@)
    } else {
        let num = if is_ascii_digit(t.last()) { t } else { t.drop_last() };
        let mult: nat = if is_ascii_digit(t.last()) { 1 } else { duration_unit(t.last())->0 };
        match parse_unsigned(num, u64::MAX as nat) {
            None => Err("invalid duration "@ + debug_str(t) + " (expected e.g. 30s, 10m, 1h)"@),
            Some(n) => if n == 0 {
                Err("duration must be greater than zero"@)
            } else if n * mult > u64::MAX {
                Err("duration "@ + debug_str(t) + " overflows seconds"@)
            } else {
                Ok((n * mult) as u64)
            },
        }
    }
}

/// Parses a `--duration` argument such as `30`, `30s`, `10m` or `1h` into seconds.
pub fn parse_duration_arg(s: &str) -> (r: Result<u64, String>)
    ensures
        match duration_arg(s@) {
            Ok(n) => r == Ok::<u64, String>(n),
            Err(m) => r is Err && r->Err_0@ == m,
        },
{
    let v = chars_of(s);
    let (a, b) = trim_range(&v, 0, v.len());
    let ghost t = v@.subrange(a as int, b as int);
    assert(v@.subrange(0, v@.len() as int) =~= s@);
    if a == b {
        return Err(String::from_str("duration must not be empty"));
    }
    let c = v[b - 1];
    assert(t.last() == c);
    let (end, mult): (usize, u64) = if c == 's' {
        (b - 1, 1)
    } else if c == 'm' {
        (b - 1, 60)
    } else if c == 'h' {
        (b - 1, 3600)
    } else if char_is_ascii_digit(c) {
        (b, 1)
    } else {
        let d = render_debug_char(c);
        return Err(message3("invalid duration suffix ", d.as_str(), " (expected s, m, h)"));
    };
    assert(v@.subrange(a as int, end as int) =~= if is_ascii_digit(c) { t } else { t.drop_last() });
    match parse_unsigned_range(&v, a, end, u64::MAX) {
        None => Err(message_debug_range("invalid duration ", &v, a, b, " (expected e.g. 30s, 10m, 1h)")),
        Some(n) => {
            if n == 0 {
                Err(String::from_str("duration must be greater than zero"))
            } else {
                match n.checked_mul(mult) {
                    Some(total) => Ok(total),
                    None => Err(message_debug_range("duration ", &v, a, b, " overflows seconds")),
                }
            }
        }
    }
}

} // verus!
