use vstd::prelude::*;
use vstd::string::StringExecFns;

verus! {

/// The decimal digit for `d` (below ten).
pub open spec fn digit_char(d: nat) -> char {
    (48 + d) as char
}

/// The decimal numeral of `n`, without leading zeros.
pub open spec fn decimal(n: nat) -> Seq<char>
    decreases n,
{
    if n < 10 {
        seq![digit_char(n)]
    } else {
        decimal(n / 10).push(digit_char(n % 10))
    }
}

/// The numeral of `n` (below a hundred) padded to two digits.
pub open spec fn two_digits(n: nat) -> Seq<char> {
    seq![digit_char(n / 10), digit_char(n % 10)]
}

/// A whole number of seconds as a clock: `h:mm:ss` from an hour on,
/// `m:ss` below.
pub open spec fn clock_text(secs: nat) -> Seq<char> {
    let h = secs / 3600;
    let m = (secs % 3600) / 60;
    let s = secs % 60;
    if h > 0 {
        decimal(h) + seq![':'] + two_digits(m) + seq![':'] + two_digits(s)
    } else {
        decimal(m) + seq![':'] + two_digits(s)
    }
}

/// Appends one character to a string (`String::push`).
#[verifier::external_body]
fn push_char(s: &mut String, c: char)
    ensures
        final(s)@ == old(s)@.push(c),
{
    s.push(c);
}

fn digit(d: u32) -> (c: char)
    requires
        d < 10,
    ensures
        c == digit_char(d as nat),
{
    let b: u8 = 48u8 + (d as u8);
    b as char
}

/// Appends the decimal numeral of `n`.
pub fn push_decimal(s: &mut String, n: u32)
    ensures
        final(s)@ == old(s)@ + decimal(n as nat),
    decreases n,
{
    if n >= 10 {
        push_decimal(s, n / 10);
    }
    push_char(s, digit(n % 10));
    assert(s@ =~= old(s)@ + decimal(n as nat));
}

fn push_two_digits(s: &mut String, n: u32)
    requires
        n < 100,
    ensures
        final(s)@ == old(s)@ + two_digits(n as nat),
{
    push_char(s, digit(n / 10));
    push_char(s, digit(n % 10));
    assert(s@ =~= old(s)@ + two_digits(n as nat));
}

/// The decimal numeral of `n` as a string.
pub fn decimal_string(n: u32) -> (r: String)
    ensures
        r@ == decimal(n as nat),
{
    let mut s = String::new();
    push_decimal(&mut s, n);
    assert(s@ =~= decimal(n as nat));
    s
}

/// Formats a whole number of seconds for the time display: `h:mm:ss` when
/// it reaches an hour, else `m:ss`.
pub fn format_time(secs: u32) -> (r: String)
    ensures
        r@ == clock_text(secs as nat),
{
    let h = secs / 3600;
    let m = (secs % 3600) / 60;
    let sec = secs % 60;
    let mut out = String::new();
    if h > 0 {
        push_decimal(&mut out, h);
        push_char(&mut out, ':');
        push_two_digits(&mut out, m);
        push_char(&mut out, ':');
        push_two_digits(&mut out, sec);
    } else {
        push_decimal(&mut out, m);
        push_char(&mut out, ':');
        push_two_digits(&mut out, sec);
    }
    assert(out@ =~= clock_text(secs as nat));
    out
}

/// The bit rate shown under the title, `N kbps`, with 0 when unknown.
pub fn kbps_label(bitrate_kbps: Option<u32>) -> (r: String)
    ensures
        r@ == decimal(bitrate_kbps.unwrap_or(0) as nat) + " kbps"@,
{
    let n = match bitrate_kbps {
        Some(n) => n,
        None => 0,
    };
    let mut s = decimal_string(n);
    s.append(" kbps");
    s
}

/// The sample rate shown under the title, `N Hz`, with 0 when unknown.
pub fn hz_label(sample_rate_hz: Option<u32>) -> (r: String)
    ensures
        r@ == decimal(sample_rate_hz.unwrap_or(0) as nat) + " Hz"@,
{
    let n = match sample_rate_hz {
        Some(n) => n,
        None => 0,
    };
    let mut s = decimal_string(n);
    s.append(" Hz");
    s
}

/// The duration column of the playlist: the clock text of the track's
/// length, or a dash when it is unknown.
pub fn duration_label(secs: Option<u32>) -> (r: String)
    ensures
        r@ == match secs {
            Some(n) => clock_text(n as nat),
            None => "\u{2014}"@,
        },
{
    match secs {
        Some(n) => format_time(n),
        None => String::from_str("\u{2014}"),
    }
}

} // verus!
