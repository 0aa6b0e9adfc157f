//! Configuration-facing value types: the clock-source selector and the
//! timezone offset, each with a verified parser and renderer for its
//! configuration-string form.
//!
//! Malformed configuration strings never fail: both parsers substitute a
//! documented safe default (GPS method, zero offset) and report the fallback
//! through a flag, so the caller can log a warning.

use vstd::prelude::*;

verus! {

/// Compares two string slices by their character sequences.
pub fn str_eq(a: &str, b: &str) -> (r: bool)
    ensures
        r == (a@ == b@),
{
    let alen = a.unicode_len();
    let blen = b.unicode_len();
    if alen != blen {
        return false;
    }
    let mut i: usize = 0;
    while i < alen
        invariant
            alen == a@.len(),
            blen == b@.len(),
            alen == blen,
            i <= alen,
            forall|j: int| 0 <= j < i ==> a@[j] == b@[j],
        decreases alen - i,
    {
        if a.get_char(i) != b.get_char(i) {
            return false;
        }
        i = i + 1;
    }
    proof {
        assert(a@ =~= b@);
    }
    true
}

/// Clock source for timestamp computation: GPS-disciplined, or derived from
/// the host system clock captured at startup. Selected once at startup and
/// not mutated at runtime.
#[derive(Copy, Clone, PartialEq, Eq, Structural, Debug)]
pub enum TimeStampMethod {
    Systemtime,
    GPS,
}

impl TimeStampMethod {
    /// The configuration-string form of each variant.
    pub open spec fn spec_label(self) -> Seq<char> {
        match self {
            TimeStampMethod::Systemtime => "systemtime"@,
            TimeStampMethod::GPS => "gps"@,
        }
    }

    pub fn label(&self) -> (r: &'static str)
        ensures
            r@ == self.spec_label(),
    {
        match self {
            TimeStampMethod::Systemtime => "systemtime",
            TimeStampMethod::GPS => "gps",
        }
    }

    /// Parsing a configuration string: an unrecognized value falls back to
    /// GPS; the second component is false exactly on that fallback.
    pub open spec fn spec_parse(s: Seq<char>) -> (TimeStampMethod, bool) {
        if s == "gps"@ {
            (TimeStampMethod::GPS, true)
        } else if s == "systemtime"@ {
            (TimeStampMethod::Systemtime, true)
        } else {
            (TimeStampMethod::GPS, false)
        }
    }

    pub fn parse(s: &str) -> (r: (TimeStampMethod, bool))
        ensures
            r == Self::spec_parse(s@),
    {
        if str_eq(s, "gps") {
            (TimeStampMethod::GPS, true)
        } else if str_eq(s, "systemtime") {
            (TimeStampMethod::Systemtime, true)
        } else {
            (TimeStampMethod::GPS, false)
        }
    }
}

impl Default for TimeStampMethod {
    /// The safe default clock source is GPS.
    fn default() -> (r: TimeStampMethod)
        ensures
            r == TimeStampMethod::GPS,
    {
        TimeStampMethod::GPS
    }
}

pub open spec fn is_digit(c: char) -> bool {
    c == '0' || c == '1' || c == '2' || c == '3' || c == '4' || c == '5' || c == '6' || c == '7'
        || c == '8' || c == '9'
}

pub open spec fn digit_val(c: char) -> u8 {
    if c == '0' {
        0
    } else if c == '1' {
        1
    } else if c == '2' {
        2
    } else if c == '3' {
        3
    } else if c == '4' {
        4
    } else if c == '5' {
        5
    } else if c == '6' {
        6
    } else if c == '7' {
        7
    } else if c == '8' {
        8
    } else {
        9
    }
}

pub open spec fn digit_char(d: u8) -> char {
    if d == 0 {
        '0'
    } else if d == 1 {
        '1'
    } else if d == 2 {
        '2'
    } else if d == 3 {
        '3'
    } else if d == 4 {
        '4'
    } else if d == 5 {
        '5'
    } else if d == 6 {
        '6'
    } else if d == 7 {
        '7'
    } else if d == 8 {
        '8'
    } else {
        '9'
    }
}

/// The digit value of a character, or None when it is not a decimal digit.
fn char_digit(c: char) -> (r: Option<u8>)
    ensures
        r is Some <==> is_digit(c),
        r is Some ==> r->0 == digit_val(c) && r->0 <= 9,
{
    match c {
        '0' => Some(0),
        '1' => Some(1),
        '2' => Some(2),
        '3' => Some(3),
        '4' => Some(4),
        '5' => Some(5),
        '6' => Some(6),
        '7' => Some(7),
        '8' => Some(8),
        '9' => Some(9),
        _ => None,
    }
}

/// The one-character string of a decimal digit.
fn digit_str(d: u8) -> (r: &'static str)
    requires
        d <= 9,
    ensures
        r@ == seq![digit_char(d)],
{
    if d == 0 {
        proof {
            reveal_strlit("0");
            assert("0"@ =~= seq![digit_char(0u8)]);
        }
        "0"
    } else if d == 1 {
        proof {
            reveal_strlit("1");
            assert("1"@ =~= seq![digit_char(1u8)]);
        }
        "1"
    } else if d == 2 {
        proof {
            reveal_strlit("2");
            assert("2"@ =~= seq![digit_char(2u8)]);
        }
        "2"
    } else if d == 3 {
        proof {
            reveal_strlit("3");
            assert("3"@ =~= seq![digit_char(3u8)]);
        }
        "3"
    } else if d == 4 {
        proof {
            reveal_strlit("4");
            assert("4"@ =~= seq![digit_char(4u8)]);
        }
        "4"
    } else if d == 5 {
        proof {
            reveal_strlit("5");
            assert("5"@ =~= seq![digit_char(5u8)]);
        }
        "5"
    } else if d == 6 {
        proof {
            reveal_strlit("6");
            assert("6"@ =~= seq![digit_char(6u8)]);
        }
        "6"
    } else if d == 7 {
        proof {
            reveal_strlit("7");
            assert("7"@ =~= seq![digit_char(7u8)]);
        }
        "7"
    } else if d == 8 {
        proof {
            reveal_strlit("8");
            assert("8"@ =~= seq![digit_char(8u8)]);
        }
        "8"
    } else {
        proof {
            reveal_strlit("9");
            assert("9"@ =~= seq![digit_char(9u8)]);
        }
        "9"
    }
}

/// Timezone offset: a sign and a magnitude in whole minutes, canonically
/// written as a five-character string, sign then two hour digits then two
/// minute digits. The two digit pairs are kept as parsed, so rendering a
/// parsed offset reproduces the input string exactly.
#[derive(Copy, Clone, PartialEq, Eq, Structural, Debug)]
pub struct TimeZone {
    /// True when the offset is subtracted from the wall-clock time.
    pub negative: bool,
    /// Hour digits of the offset, 0..=99.
    pub hours: u8,
    /// Minute digits of the offset, 0..=99.
    pub minutes: u8,
}

impl TimeZone {
    /// Both fields carry at most two decimal digits; a larger magnitude has
    /// no five-character rendering and is rejected at configuration time.
    pub open spec fn wf(self) -> bool {
        self.hours <= 99 && self.minutes <= 99
    }

    pub open spec fn spec_zero() -> TimeZone {
        TimeZone { negative: false, hours: 0, minutes: 0 }
    }

    /// The zero offset: the documented safe default.
    pub fn zero() -> (r: TimeZone)
        ensures
            r == TimeZone::spec_zero(),
            r.wf(),
    {
        TimeZone { negative: false, hours: 0, minutes: 0 }
    }

    /// Signed offset in microseconds, as applied to a wall-clock time.
    pub open spec fn spec_offset_us(self) -> int {
        let mag = ((self.hours as int) * 60 + (self.minutes as int)) * 60_000_000;
        if self.negative {
            -mag
        } else {
            mag
        }
    }

    /// Parsing a timezone string: exactly five characters, a sign character,
    /// then four decimal digits. Anything else falls back to the zero offset;
    /// the second component is false exactly on that fallback.
    pub open spec fn spec_parse(s: Seq<char>) -> (TimeZone, bool) {
        if s.len() == 5 && (s[0] == '+' || s[0] == '-') && is_digit(s[1]) && is_digit(s[2])
            && is_digit(s[3]) && is_digit(s[4]) {
            (
                TimeZone {
                    negative: s[0] == '-',
                    hours: (10 * (digit_val(s[1]) as int) + (digit_val(s[2]) as int)) as u8,
                    minutes: (10 * (digit_val(s[3]) as int) + (digit_val(s[4]) as int)) as u8,
                },
                true,
            )
        } else {
            (TimeZone::spec_zero(), false)
        }
    }

    pub fn parse(s: &str) -> (r: (TimeZone, bool))
        ensures
            r == TimeZone::spec_parse(s@),
            r.0.wf(),
    {
        let n = s.unicode_len();
        if n != 5 {
            return (TimeZone::zero(), false);
        }
        let c0 = s.get_char(0);
        if !(c0 == '+' || c0 == '-') {
            return (TimeZone::zero(), false);
        }
        let d1 = match char_digit(s.get_char(1)) {
            Some(d) => d,
            None => { return (TimeZone::zero(), false); },
        };
        let d2 = match char_digit(s.get_char(2)) {
            Some(d) => d,
            None => { return (TimeZone::zero(), false); },
        };
        let d3 = match char_digit(s.get_char(3)) {
            Some(d) => d,
            None => { return (TimeZone::zero(), false); },
        };
        let d4 = match char_digit(s.get_char(4)) {
            Some(d) => d,
            None => { return (TimeZone::zero(), false); },
        };
        (TimeZone { negative: c0 == '-', hours: 10 * d1 + d2, minutes: 10 * d3 + d4 }, true)
    }

    /// The canonical five-character rendering: sign, two hour digits, two
    /// minute digits, each field zero-padded.
    pub open spec fn spec_render(self) -> Seq<char> {
        seq![
            if self.negative {
                '-'
            } else {
                '+'
            },
            digit_char((self.hours / 10) as u8),
            digit_char((self.hours % 10) as u8),
            digit_char((self.minutes / 10) as u8),
            digit_char((self.minutes % 10) as u8),
        ]
    }

    pub fn render(&self) -> (r: String)
        requires
            self.wf(),
        ensures
            r@ == self.spec_render(),
    {
        proof {
            reveal_strlit("+");
            reveal_strlit("-");
        }
        let mut out = String::from_str(if self.negative {
            "-"
        } else {
            "+"
        });
        out.append(digit_str(self.hours / 10));
        out.append(digit_str(self.hours % 10));
        out.append(digit_str(self.minutes / 10));
        out.append(digit_str(self.minutes % 10));
        proof {
            assert(out@ =~= self.spec_render());
        }
        out
    }
}

impl Default for TimeZone {
    /// The safe default offset is zero.
    fn default() -> (r: TimeZone)
        ensures
            r == TimeZone::spec_zero(),
    {
        TimeZone { negative: false, hours: 0, minutes: 0 }
    }
}

/// Law: rendering a successfully parsed timezone string reproduces the
/// string exactly, for every well-formed five-character offset string.
pub proof fn lemma_timezone_round_trip(s: Seq<char>)
    requires
        TimeZone::spec_parse(s).1,
    ensures
        TimeZone::spec_parse(s).0.spec_render() == s,
{
    let tz = TimeZone::spec_parse(s).0;
    assert(digit_char(tz.hours / 10) == s[1] && digit_char(tz.hours % 10) == s[2]);
    assert(digit_char(tz.minutes / 10) == s[3] && digit_char(tz.minutes % 10) == s[4]);
    assert(tz.spec_render() =~= s);
}

/// Law: parsing the rendering of any well-formed timezone offset yields the
/// offset back, with no fallback.
pub proof fn lemma_timezone_render_parse(tz: TimeZone)
    requires
        tz.wf(),
    ensures
        TimeZone::spec_parse(tz.spec_render()) == (tz, true),
{
    let s = tz.spec_render();
    assert(TimeZone::spec_parse(s).0 == tz);
}

} // verus!
