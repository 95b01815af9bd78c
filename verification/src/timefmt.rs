use vstd::prelude::*;
use vstd::string::StrSliceExecFns;
use vstd::string::StringExecFns;

use chrono::Datelike;
use chrono::Timelike;

verus! {

/// A calendar moment in UTC, broken into plain fields.
#[derive(Clone, Copy, Debug)]
pub struct Timestamp {
    pub year: i32,
    pub month: u32,
    pub day: u32,
    pub hour: u32,
    pub minute: u32,
    pub second: u32,
}

impl Timestamp {
    /// The field ranges of a calendar moment: month and day start at 1,
    /// the time-of-day fields are zero-based.
    pub open spec fn wf(&self) -> bool {
        &&& 1 <= self.month <= 12
        &&& 1 <= self.day <= 31
        &&& self.hour <= 23
        &&& self.minute <= 59
        &&& self.second <= 59
    }
}

/// Relies on chrono::DateTime::from_timestamp and on chrono's Datelike
/// and Timelike accessors (year, month, day, hour, minute, second) to
/// read the current moment, fed by std's SystemTime (through its
/// fallible duration_since, so a clock set before the epoch yields
/// `None` rather than a panic, as does a moment chrono cannot
/// represent). The moment itself depends on the clock, so all that is
/// promised of a reading is the field ranges that chrono documents:
/// month 1 to 12, day 1 to 31, hour 0 to 23, minute and second 0 to 59.
#[verifier::external_body]
fn clock_now_utc() -> (r: Option<Timestamp>)
    ensures
        r matches Some(t) ==> t.wf(),
{
    let secs = match std::time::SystemTime::now().duration_since(std::time::UNIX_EPOCH) {
        Ok(d) => d.as_secs(),
        Err(_) => return None,
    };
    let now = chrono::DateTime::from_timestamp(secs as i64, 0)?;
    Some(Timestamp {
        year: now.year(), month: now.month(), day: now.day(),
        hour: now.hour(), minute: now.minute(), second: now.second(),
    })
}

/// The character for a single decimal digit.
pub open spec fn spec_digit(d: nat) -> char {
    if d == 0 {
        '0'
    } else if d == 1 {
        '1'
    } else if d == 2 {
        '2'
    } else if d == 3 {
        '3'
    } else if d == 4 {
        '4'
    } else if d == 5 {
        '5'
    } else if d == 6 {
        '6'
    } else if d == 7 {
        '7'
    } else if d == 8 {
        '8'
    } else {
        '9'
    }
}

/// The decimal digits of `n`, most significant first, no leading zeros
/// (a lone zero for `n == 0`).
pub open spec fn spec_decimal(n: nat) -> Seq<char>
    decreases n,
{
    if n < 10 {
        seq![spec_digit(n)]
    } else {
        spec_decimal(n / 10).push(spec_digit(n % 10))
    }
}

/// `s` padded with leading zeros up to width `w`; `s` itself if it is
/// already wide enough.
pub open spec fn spec_zero_pad(s: Seq<char>, w: nat) -> Seq<char> {
    if s.len() >= w {
        s
    } else {
        Seq::new((w - s.len()) as nat, |i: int| '0') + s
    }
}

/// A number rendered in exactly two digits.
pub open spec fn spec_two_digits(n: nat) -> Seq<char> {
    spec_zero_pad(spec_decimal(n), 2)
}

/// A year rendered in at least four digits, with a leading minus sign
/// for years before year zero.
pub open spec fn spec_year_digits(y: int) -> Seq<char> {
    if y < 0 {
        "-"@ + spec_zero_pad(spec_decimal((-y) as nat), 4)
    } else {
        spec_zero_pad(spec_decimal(y as nat), 4)
    }
}

/// The text of a timestamp: year, month and day separated by hyphens,
/// then hour, minute and second separated by colons, then " UTC".
pub open spec fn spec_timestamp_text(t: Timestamp) -> Seq<char> {
    spec_year_digits(t.year as int) + "-"@ + spec_two_digits(t.month as nat) + "-"@
        + spec_two_digits(t.day as nat) + " "@ + spec_two_digits(t.hour as nat) + ":"@
        + spec_two_digits(t.minute as nat) + ":"@ + spec_two_digits(t.second as nat) + " UTC"@
}

/// The one-character string for a decimal digit.
fn digit_str(d: u64) -> (r: &'static str)
    requires
        d < 10,
    ensures
        r@ == seq![spec_digit(d as nat)],
{
    proof {
        reveal_strlit("0");
        reveal_strlit("1");
        reveal_strlit("2");
        reveal_strlit("3");
        reveal_strlit("4");
        reveal_strlit("5");
        reveal_strlit("6");
        reveal_strlit("7");
        reveal_strlit("8");
        reveal_strlit("9");
    }
    let r = if d == 0 {
        "0"
    } else if d == 1 {
        "1"
    } else if d == 2 {
        "2"
    } else if d == 3 {
        "3"
    } else if d == 4 {
        "4"
    } else if d == 5 {
        "5"
    } else if d == 6 {
        "6"
    } else if d == 7 {
        "7"
    } else if d == 8 {
        "8"
    } else {
        "9"
    };
    proof {
        assert(r@ =~= seq![spec_digit(d as nat)]);
    }
    r
}

/// Renders `n` in decimal, most significant digit first.
fn decimal_string(n: u64) -> (r: String)
    ensures
        r@ == spec_decimal(n as nat),
    decreases n,
{
    if n < 10 {
        String::from_str(digit_str(n))
    } else {
        assert(n / 10 < n) by (nonlinear_arith)
            requires
                n >= 10,
        ;
        let mut s = decimal_string(n / 10);
        s.append(digit_str(n % 10));
        proof {
            assert(spec_decimal((n / 10) as nat).push(spec_digit((n % 10) as nat)) =~= spec_decimal(
                (n / 10) as nat,
            ) + seq![spec_digit((n % 10) as nat)]);
        }
        s
    }
}

/// A string of `k` zeros.
fn repeat_zeros(k: usize) -> (r: String)
    ensures
        r@ == Seq::new(k as nat, |i: int| '0'),
{
    let mut s = String::new();
    let mut i: usize = 0;
    proof {
        reveal_strlit("0");
        assert(s@ =~= Seq::new(0nat, |j: int| '0'));
    }
    while i < k
        invariant
            0 <= i <= k,
            s@ == Seq::new(i as nat, |j: int| '0'),
        decreases k - i,
    {
        s.append("0");
        i = i + 1;
        proof {
            reveal_strlit("0");
            assert(s@ =~= Seq::new(i as nat, |j: int| '0'));
        }
    }
    s
}

/// Pads `s` with leading zeros up to width `w`.
fn zero_pad_string(s: String, w: usize) -> (r: String)
    ensures
        r@ == spec_zero_pad(s@, w as nat),
{
    let n = s.as_str().unicode_len();
    if n >= w {
        s
    } else {
        let z = repeat_zeros(w - n);
        z.concat(s.as_str())
    }
}

/// Renders `n` in exactly two digits.
fn two_digits(n: u32) -> (r: String)
    requires
        n < 100,
    ensures
        r@ == spec_two_digits(n as nat),
{
    zero_pad_string(decimal_string(n as u64), 2)
}

/// Renders a year in at least four digits, signed.
fn year_digits(y: i32) -> (r: String)
    ensures
        r@ == spec_year_digits(y as int),
{
    if y >= 0 {
        zero_pad_string(decimal_string(y as u64), 4)
    } else {
        let m: u64 = (-(y as i64)) as u64;
        assert(m as nat == (-(y as int)) as nat);
        let d = zero_pad_string(decimal_string(m), 4);
        String::from_str("-").concat(d.as_str())
    }
}

/// Renders a timestamp as "YYYY-MM-DD HH:MM:SS UTC" (the year keeps all
/// its digits when it needs more than four).
pub fn format_timestamp(t: &Timestamp) -> (r: String)
    requires
        t.wf(),
    ensures
        r@ == spec_timestamp_text(*t),
{
    let mut s = year_digits(t.year);
    s.append("-");
    s.append(two_digits(t.month).as_str());
    s.append("-");
    s.append(two_digits(t.day).as_str());
    s.append(" ");
    s.append(two_digits(t.hour).as_str());
    s.append(":");
    s.append(two_digits(t.minute).as_str());
    s.append(":");
    s.append(two_digits(t.second).as_str());
    s.append(" UTC");
    s
}

/// Reads the clock and renders the current UTC moment; whatever moment
/// the clock reported, the result is that moment's canonical text, and
/// an unreadable clock yields `None` rather than a panic.
pub fn current_timestamp_text() -> (r: Option<String>)
    ensures
        r matches Some(s) ==> exists|t: Timestamp| t.wf() && s@ == spec_timestamp_text(t),
{
    match clock_now_utc() {
        Some(t) => {
            let s = format_timestamp(&t);
            proof {
                assert(t.wf() && s@ == spec_timestamp_text(t));
            }
            Some(s)
        },
        None => None,
    }
}

} // verus!
