//! Presentation policy: pure threshold rules that turn a state snapshot into
//! display attributes (severity bands, freshness, gauge fill, offset text).

use vstd::prelude::*;
use vstd::string::StringExecFns;

verus! {

/// Quality band used to colour a displayed value, from best to worst.
#[derive(Clone, Copy, Debug, PartialEq, Eq, Structural)]
pub enum Severity {
    Nominal,
    Caution,
    Warning,
    Critical,
}

/// Position of a band on the nominal-to-critical scale.
pub open spec fn severity_rank(s: Severity) -> int {
    match s {
        Severity::Nominal => 0,
        Severity::Caution => 1,
        Severity::Warning => 2,
        Severity::Critical => 3,
    }
}

/// Severity band of a clock offset, by the magnitude bands
/// 0..=10, 11..=50, 51..=100, 101.. (milliseconds).
pub open spec fn offset_severity(offset_ms: int) -> Severity {
    let m = if offset_ms < 0 { -offset_ms } else { offset_ms };
    if m <= 10 {
        Severity::Nominal
    } else if m <= 50 {
        Severity::Caution
    } else if m <= 100 {
        Severity::Warning
    } else {
        Severity::Critical
    }
}

/// Colour band for a measured offset: the further the local clock is from
/// the reference, in either direction, the worse the band.
pub fn get_color_for_offset(offset_ms: i64) -> (c: Severity)
    ensures
        c == offset_severity(offset_ms as int),
{
    if -10 <= offset_ms && offset_ms <= 10 {
        Severity::Nominal
    } else if -50 <= offset_ms && offset_ms <= 50 {
        Severity::Caution
    } else if -100 <= offset_ms && offset_ms <= 100 {
        Severity::Warning
    } else {
        Severity::Critical
    }
}

/// Severity band of a sync age, by the bands 0..=5, 6..=15, 16..=30, 31..
/// (seconds).
pub open spec fn freshness_severity(age_secs: int) -> Severity {
    if age_secs <= 5 {
        Severity::Nominal
    } else if age_secs <= 15 {
        Severity::Caution
    } else if age_secs <= 30 {
        Severity::Warning
    } else {
        Severity::Critical
    }
}

/// Colour band for the age of the last successful sync: the longer ago,
/// the worse the band.
pub fn get_sync_color(seconds_since_sync: u64) -> (c: Severity)
    ensures
        c == freshness_severity(seconds_since_sync as int),
{
    if seconds_since_sync <= 5 {
        Severity::Nominal
    } else if seconds_since_sync <= 15 {
        Severity::Caution
    } else if seconds_since_sync <= 30 {
        Severity::Warning
    } else {
        Severity::Critical
    }
}

/// The binary freshness marker: synchronization counts as fresh up to and
/// including thirty seconds of age, stale beyond.
pub fn is_fresh(seconds_since_sync: u64) -> (r: bool)
    ensures
        r == (seconds_since_sync <= 30),
{
    seconds_since_sync <= 30
}

/// The glyph the gauge label carries: a filled dot while fresh, a hollow
/// one once stale.
pub open spec fn spec_sync_indicator(age_secs: int) -> Seq<char> {
    if age_secs <= 30 {
        "\u{25cf}"@
    } else {
        "\u{25cb}"@
    }
}

/// Freshness indicator glyph for a sync age: filled while fresh (at most
/// thirty seconds), hollow once stale.
pub fn get_sync_indicator(seconds_since_sync: u64) -> (r: &'static str)
    ensures
        r@ == spec_sync_indicator(seconds_since_sync as int),
{
    if seconds_since_sync <= 30 {
        "\u{25cf}"
    } else {
        "\u{25cb}"
    }
}

/// Numerator of the freshness gauge fill, over a denominator of thirty:
/// full at age zero, decaying by one per second, empty from thirty seconds
/// on (floored, never negative). The displayed ratio is this value over
/// thirty, which equals `1 - min(age, 30)/30` exactly.
pub open spec fn gauge_fill_thirtieths(age_secs: int) -> int {
    if age_secs >= 30 {
        0
    } else {
        30 - age_secs
    }
}

/// Fill of the freshness gauge, as thirtieths of a full gauge.
pub fn sync_gauge_fill(seconds_since_sync: u64) -> (r: u64)
    ensures
        r as int == gauge_fill_thirtieths(seconds_since_sync as int),
        r <= 30,
{
    if seconds_since_sync >= 30 {
        0
    } else {
        30 - seconds_since_sync
    }
}

/// The character for one decimal digit value.
pub open spec fn digit_char(d: nat) -> char {
    if d == 0 {
        '0'
    } else if d == 1 {
        '1'
    } else if d == 2 {
        '2'
    } else if d == 3 {
        '3'
    } else if d == 4 {
        '4'
    } else if d == 5 {
        '5'
    } else if d == 6 {
        '6'
    } else if d == 7 {
        '7'
    } else if d == 8 {
        '8'
    } else {
        '9'
    }
}

/// Decimal digits of `n`, most significant first, with no leading zeros
/// (zero itself is the single digit `0`).
pub open spec fn dec_digits(n: nat) -> Seq<char>
    decreases n,
{
    if n < 10 {
        seq![digit_char(n)]
    } else {
        dec_digits(n / 10) + seq![digit_char(n % 10)]
    }
}

/// The offset line's text: an explicit sign (zero displays as positive),
/// the decimal magnitude, and the millisecond unit.
pub open spec fn spec_offset_text(offset_ms: int) -> Seq<char> {
    let sign = if offset_ms < 0 {
        "-"@
    } else {
        "+"@
    };
    let magnitude = if offset_ms < 0 {
        (-offset_ms) as nat
    } else {
        offset_ms as nat
    };
    sign + dec_digits(magnitude) + " ms"@
}

/// Appends the character of one digit value.
fn push_digit(s: &mut String, d: u64)
    requires
        d < 10,
    ensures
        final(s)@ == old(s)@ + seq![digit_char(d as nat)],
{
    proof {
        reveal_strlit("0");
        reveal_strlit("1");
        reveal_strlit("2");
        reveal_strlit("3");
        reveal_strlit("4");
        reveal_strlit("5");
        reveal_strlit("6");
        reveal_strlit("7");
        reveal_strlit("8");
        reveal_strlit("9");
    }
    let lit: &'static str = if d == 0 {
        "0"
    } else if d == 1 {
        "1"
    } else if d == 2 {
        "2"
    } else if d == 3 {
        "3"
    } else if d == 4 {
        "4"
    } else if d == 5 {
        "5"
    } else if d == 6 {
        "6"
    } else if d == 7 {
        "7"
    } else if d == 8 {
        "8"
    } else {
        "9"
    };
    proof {
        assert(lit@ =~= seq![digit_char(d as nat)]);
    }
    s.append(lit);
}

/// Appends the decimal digits of `n`, most significant first.
fn push_dec_digits(s: &mut String, n: u64)
    ensures
        final(s)@ == old(s)@ + dec_digits(n as nat),
    decreases n,
{
    if n >= 10 {
        push_dec_digits(s, n / 10);
        push_digit(s, n % 10);
        proof {
            assert(s@ =~= old(s)@ + dec_digits(n as nat));
        }
    } else {
        push_digit(s, n);
    }
}

/// The numeric offset rendered with an explicit sign and unit, exactly as
/// the offset line displays it: `+37 ms`, `-5 ms`, `+0 ms`.
pub fn format_offset(offset_ms: i64) -> (r: String)
    ensures
        r@ == spec_offset_text(offset_ms as int),
{
    let mut s = String::new();
    if offset_ms < 0 {
        s.append("-");
    } else {
        s.append("+");
    }
    let magnitude: u64 = if offset_ms == i64::MIN {
        9223372036854775808
    } else if offset_ms < 0 {
        (-offset_ms) as u64
    } else {
        offset_ms as u64
    };
    push_dec_digits(&mut s, magnitude);
    s.append(" ms");
    proof {
        assert(s@ =~= spec_offset_text(offset_ms as int));
    }
    s
}

/// Whether a key press asks to quit: the dedicated quit character in either
/// case, or the control-C interrupt combination.
pub open spec fn spec_quit_key(c: char, ctrl: bool) -> bool {
    c == 'q' || c == 'Q' || (ctrl && c == 'c')
}

/// The quit decision for one key event, given as the pressed character and
/// whether the control modifier was held.
pub fn is_quit_key(c: char, ctrl: bool) -> (r: bool)
    ensures
        r == spec_quit_key(c, ctrl),
{
    c == 'q' || c == 'Q' || (ctrl && c == 'c')
}

/// The offset severity never improves as the offset magnitude grows: the
/// band boundaries classify monotonically.
pub proof fn lemma_offset_severity_monotonic(m1: int, m2: int)
    requires
        0 <= m1,
        m1 <= m2,
    ensures
        severity_rank(offset_severity(m1)) <= severity_rank(offset_severity(m2)),
{
}

/// The freshness severity never improves as the sync age grows.
pub proof fn lemma_freshness_severity_monotonic(a1: int, a2: int)
    requires
        0 <= a1,
        a1 <= a2,
    ensures
        severity_rank(freshness_severity(a1)) <= severity_rank(freshness_severity(a2)),
{
}

/// The binary stale marker and the critical freshness band coincide: an
/// age reads as stale exactly when its colour band is critical.
pub proof fn lemma_stale_iff_critical(age_secs: int)
    ensures
        (freshness_severity(age_secs) == Severity::Critical) <==> !(age_secs <= 30),
{
}

/// The gauge is empty exactly on the stale ages: fill reaches zero at the
/// same thirty-second threshold that flips the indicator.
pub proof fn lemma_gauge_empty_iff_stale(age_secs: int)
    requires
        0 <= age_secs,
    ensures
        (gauge_fill_thirtieths(age_secs) == 0) <==> (age_secs >= 30),
{
}

} // verus!
