//! The document classifier: turns the recognized text of one
//! inspection screenshot into one of four labels, by ordered rules.
//!
//! The rules, first match wins:
//!   1. the text contains the marker `Upper Limit` — a deviation chart;
//!   2. the text contains the marker `OBW:` — an occupied-bandwidth
//!      chart;
//!   3. the text shows a swept frequency (`Center`, `Stop` or `Start`,
//!      an optional colon, a decimal number, then `MHz`) whose value
//!      lies within 0.01 of the fixed expected value (112, 137 or 87
//!      MHz respectively) — an unwanted-emission chart;
//!   4. otherwise the image carries no chart marker — a date-only
//!      image.
//!
//! Empty text falls through to the last rule; a malformed number is a
//! non-match, never an error.

use vstd::prelude::*;

use crate::text::chars_of;
use crate::text::contains_seq;
use crate::text::contains_sub;
use crate::text::end_digits;
use crate::text::is_digit;
use crate::text::lemma_end_digits;
use crate::text::match_at;
use crate::text::occurs_at;
use crate::text::scan_digits;
use crate::text::scan_spaces;
use crate::text::skip_spaces;
use crate::text::digit_val;

verus! {

/// The classification of one inspection screenshot.
#[derive(Debug, Clone, Copy, PartialEq, Eq, Structural)]
pub enum OcrResult {
    /// The image shows a frequency-deviation measurement.
    Deviation,
    /// The image shows an occupied-bandwidth measurement.
    OccBandwidth,
    /// The image shows an unwanted-emission sweep.
    Unwanted,
    /// The image carries no chart marker, at most a date.
    Date,
}

/// Where the number after a frequency keyword starts: past an optional
/// colon and any whitespace.
pub open spec fn num_start(t: Seq<char>, j: int) -> int {
    if j < t.len() && t[j] == ':' {
        skip_spaces(t, j + 1)
    } else {
        skip_spaces(t, j)
    }
}

/// Where the integer digits of the number end.
pub open spec fn int_end(t: Seq<char>, j: int) -> int {
    end_digits(t, num_start(t, j))
}

/// Where the fractional digits start: right after a decimal point, if
/// one follows the integer digits.
pub open spec fn frac_start(t: Seq<char>, j: int) -> int {
    if int_end(t, j) < t.len() && t[int_end(t, j)] == '.' {
        int_end(t, j) + 1
    } else {
        int_end(t, j)
    }
}

/// Where the fractional digits end.
pub open spec fn frac_end(t: Seq<char>, j: int) -> int {
    end_digits(t, frac_start(t, j))
}

/// The literal `MHz` stands at index `m`.
pub open spec fn mhz_at(t: Seq<char>, m: int) -> bool {
    m + 3 <= t.len() && t[m] == 'M' && t[m + 1] == 'H' && t[m + 2] == 'z'
}

/// Right after a frequency keyword at offset `j`, the text reads as an
/// optional colon, whitespace, at least one digit, an optional
/// fractional part, whitespace, and the unit `MHz`.
pub open spec fn tail_matches(t: Seq<char>, j: int) -> bool {
    int_end(t, j) > num_start(t, j) && mhz_at(t, skip_spaces(t, frac_end(t, j)))
}

/// The captured integer digits.
pub open spec fn capture_int(t: Seq<char>, j: int) -> Seq<char> {
    t.subrange(num_start(t, j), int_end(t, j))
}

/// The captured fractional digits (empty when no decimal point is
/// present).
pub open spec fn capture_frac(t: Seq<char>, j: int) -> Seq<char> {
    t.subrange(frac_start(t, j), frac_end(t, j))
}

/// The value of a string of decimal digits.
pub open spec fn digits_val(s: Seq<char>) -> nat
    decreases s.len(),
{
    if s.len() == 0 {
        0
    } else {
        digits_val(s.drop_last()) * 10 + digit_val(s.last())
    }
}

/// The `k`-th fractional digit, `'0'` past the written digits.
pub open spec fn frac_char(f: Seq<char>, k: int) -> char {
    if 0 <= k < f.len() {
        f[k]
    } else {
        '0'
    }
}

/// The fractional part is below one hundredth: its first two digits
/// are zero.
pub open spec fn frac_below_hundredth(f: Seq<char>) -> bool {
    frac_char(f, 0) == '0' && frac_char(f, 1) == '0'
}

/// The fractional part exceeds ninety-nine hundredths: it starts with
/// two nines and some later digit is not zero.
pub open spec fn frac_above_ninety_nine(f: Seq<char>) -> bool {
    frac_char(f, 0) == '9' && frac_char(f, 1) == '9' && (exists|k: int|
        2 <= k < f.len() && f[k] != '0')
}

/// The captured decimal number `I.F` lies strictly within one
/// hundredth of the whole number `expected`: either the integer part
/// is `expected` and the fraction is below 0.01, or the integer part
/// is `expected - 1` and the fraction is above 0.99.
pub open spec fn within_tolerance(intd: Seq<char>, frac: Seq<char>, expected: nat) -> bool {
    ||| (digits_val(intd) == expected && frac_below_hundredth(frac))
    ||| (expected >= 1 && digits_val(intd) == (expected - 1) as nat && frac_above_ninety_nine(
        frac,
    ))
}

/// The first position at or after `i` where the keyword occurs with a
/// full frequency reading after it — the leftmost match of the
/// keyword-number-unit pattern.
pub open spec fn first_freq_hit_from(t: Seq<char>, kw: Seq<char>, i: int) -> Option<int>
    decreases t.len() + 1 - i when 0 <= i <= t.len() + 1
{
    if i + kw.len() > t.len() {
        None
    } else if occurs_at(t, kw, i) && tail_matches(t, i + kw.len()) {
        Some(i)
    } else {
        first_freq_hit_from(t, kw, i + 1)
    }
}

/// One frequency rule holds: the leftmost full match of the keyword's
/// pattern captures a number within 0.01 of the expected value. With
/// no full match anywhere the rule does not hold.
pub open spec fn freq_rule_holds(t: Seq<char>, kw: Seq<char>, expected: nat) -> bool {
    match first_freq_hit_from(t, kw, 0) {
        Some(i) => within_tolerance(
            capture_int(t, i + kw.len()),
            capture_frac(t, i + kw.len()),
            expected,
        ),
        None => false,
    }
}

/// The classification rules in their priority order.
pub open spec fn classify_label(t: Seq<char>) -> OcrResult {
    if contains_seq(t, "Upper Limit"@) {
        OcrResult::Deviation
    } else if contains_seq(t, "OBW:"@) {
        OcrResult::OccBandwidth
    } else if freq_rule_holds(t, "Center"@, 112) || freq_rule_holds(t, "Stop"@, 137)
        || freq_rule_holds(t, "Start"@, 87) {
        OcrResult::Unwanted
    } else {
        OcrResult::Date
    }
}

/// The bounds of a captured number in the text.
struct NumSpan {
    int_start: usize,
    int_end: usize,
    frac_start: usize,
    frac_end: usize,
}

/// Reads the frequency pattern's tail that must follow a keyword
/// occurrence ending at `j`, returning the bounds of the captured
/// number.
fn parse_tail(t: &Vec<char>, j: usize) -> (r: Option<NumSpan>)
    requires
        j <= t@.len(),
    ensures
        match r {
            Some(sp) => {
                &&& tail_matches(t@, j as int)
                &&& sp.int_start == num_start(t@, j as int)
                &&& sp.int_end == int_end(t@, j as int)
                &&& sp.frac_start == frac_start(t@, j as int)
                &&& sp.frac_end == frac_end(t@, j as int)
                &&& sp.int_start < sp.int_end <= sp.frac_start <= sp.frac_end <= t@.len()
                &&& forall|k: int| sp.int_start <= k < sp.int_end ==> is_digit(t@[k])
                &&& forall|k: int| sp.frac_start <= k < sp.frac_end ==> is_digit(t@[k])
            },
            None => !tail_matches(t@, j as int),
        },
{
    let a = if j < t.len() && t[j] == ':' {
        scan_spaces(t, j + 1)
    } else {
        scan_spaces(t, j)
    };
    let de = scan_digits(t, a);
    if de == a {
        return None;
    }
    let fs = if de < t.len() && t[de] == '.' {
        de + 1
    } else {
        de
    };
    let fe = scan_digits(t, fs);
    let m = scan_spaces(t, fe);
    proof {
        lemma_end_digits(t@, a as int);
        lemma_end_digits(t@, fs as int);
    }
    if t.len() - m >= 3 {
        if t[m] == 'M' && t[m + 1] == 'H' && t[m + 2] == 'z' {
            return Some(NumSpan { int_start: a, int_end: de, frac_start: fs, frac_end: fe });
        }
    }
    None
}

/// Decides `within_tolerance` for a captured number. The integer part
/// is folded with a cap high above every expected value, so that long
/// digit strings need no big arithmetic.
fn check_tolerance(t: &Vec<char>, sp: &NumSpan, expected: u32) -> (b: bool)
    requires
        expected < 1000,
        sp.int_start < sp.int_end <= sp.frac_start <= sp.frac_end <= t@.len(),
        forall|k: int| sp.int_start <= k < sp.int_end ==> is_digit(t@[k]),
    ensures
        b == within_tolerance(
            t@.subrange(sp.int_start as int, sp.int_end as int),
            t@.subrange(sp.frac_start as int, sp.frac_end as int),
            expected as nat,
        ),
{
    let ghost intd = t@.subrange(sp.int_start as int, sp.int_end as int);
    let ghost frac = t@.subrange(sp.frac_start as int, sp.frac_end as int);
    let mut acc: u32 = 0;
    let mut k: usize = sp.int_start;
    proof {
        assert(t@.subrange(sp.int_start as int, sp.int_start as int) =~= Seq::<char>::empty());
    }
    while k < sp.int_end
        invariant
            sp.int_start <= k <= sp.int_end <= t@.len(),
            forall|q: int| sp.int_start <= q < sp.int_end ==> is_digit(t@[q]),
            acc <= 9999,
            digits_val(t@.subrange(sp.int_start as int, k as int)) < 1000 ==> acc == digits_val(
                t@.subrange(sp.int_start as int, k as int),
            ),
            digits_val(t@.subrange(sp.int_start as int, k as int)) >= 1000 ==> acc >= 1000,
        decreases sp.int_end - k,
    {
        let c = t[k];
        let ghost prefix = t@.subrange(sp.int_start as int, k as int);
        proof {
            assert(t@.subrange(sp.int_start as int, k + 1 as int) =~= prefix.push(t@[k as int]));
            assert(t@.subrange(sp.int_start as int, k + 1 as int).drop_last() =~= prefix);
        }
        let d = (c as u32) - 0x30;
        if acc >= 1000 {
            acc = 1000;
        } else {
            acc = acc * 10 + d;
        }
        k = k + 1;
    }
    let int_is_expected = acc == expected;
    let int_is_one_less = expected >= 1 && acc == expected - 1;
    if !int_is_expected && !int_is_one_less {
        return false;
    }
    let flen = sp.frac_end - sp.frac_start;
    let d0 = if flen >= 1 {
        t[sp.frac_start]
    } else {
        '0'
    };
    let d1 = if flen >= 2 {
        t[sp.frac_start + 1]
    } else {
        '0'
    };
    proof {
        assert(flen >= 1 ==> frac[0] == t@[sp.frac_start as int]);
        assert(flen >= 2 ==> frac[1] == t@[sp.frac_start + 1 as int]);
    }
    if int_is_expected {
        return d0 == '0' && d1 == '0';
    }
    // integer part is expected - 1: the fraction must exceed 0.99
    if !(d0 == '9' && d1 == '9') {
        return false;
    }
    proof {
        assert(digits_val(intd) == (expected - 1) as nat);
        assert(frac_char(frac, 0) == '9' && frac_char(frac, 1) == '9');
    }
    let mut m: usize = sp.frac_start + 2;
    while m < sp.frac_end
        invariant
            sp.frac_start + 2 <= m,
            m <= sp.frac_end <= t@.len(),
            sp.frac_start <= sp.frac_end,
            1 <= expected < 1000,
            intd == t@.subrange(sp.int_start as int, sp.int_end as int),
            frac == t@.subrange(sp.frac_start as int, sp.frac_end as int),
            digits_val(intd) == (expected - 1) as nat,
            frac_char(frac, 0) == '9' && frac_char(frac, 1) == '9',
            forall|q: int| sp.frac_start + 2 <= q < m ==> t@[q] == '0',
        decreases sp.frac_end - m,
    {
        if t[m] != '0' {
            proof {
                let idx = m - sp.frac_start;
                assert(frac[idx] == t@[m as int]);
                assert(2 <= idx < frac.len() && frac[idx] != '0');
                assert(frac_above_ninety_nine(frac));
                assert(digits_val(intd) == (expected - 1) as nat);
            }
            return true;
        }
        m = m + 1;
    }
    proof {
        assert forall|q: int| 2 <= q < frac.len() implies frac[q] == '0' by {
            assert(frac[q] == t@[sp.frac_start + q]);
        }
    }
    false
}

/// Decides one frequency rule by scanning the text left to right for
/// the keyword's first full pattern match.
fn freq_rule(t: &Vec<char>, kw: &Vec<char>, expected: u32) -> (b: bool)
    requires
        kw@.len() >= 1,
        expected < 1000,
    ensures
        b == freq_rule_holds(t@, kw@, expected as nat),
{
    if kw.len() > t.len() {
        return false;
    }
    let last = t.len() - kw.len();
    let mut i: usize = 0;
    while i <= last
        invariant
            expected < 1000,
            1 <= kw@.len() <= t@.len(),
            last == t@.len() - kw@.len(),
            last < t.len(),
            i <= last + 1,
            first_freq_hit_from(t@, kw@, 0) == first_freq_hit_from(t@, kw@, i as int),
        decreases last + 1 - i,
    {
        if match_at(t, kw, i) {
            let j = i + kw.len();
            match parse_tail(t, j) {
                Some(sp) => {
                    proof {
                        assert(first_freq_hit_from(t@, kw@, i as int) == Some(i as int));
                    }
                    return check_tolerance(t, &sp, expected);
                },
                None => {},
            }
        }
        i = i + 1;
    }
    false
}

/// Classifies one screenshot's recognized text, by the ordered rules
/// of [`classify_label`]. Pure: no I/O, total on every text, never an
/// error.
pub fn classify(text: &str) -> (r: OcrResult)
    ensures
        r == classify_label(text@),
{
    let t = chars_of(text);
    let upper = chars_of("Upper Limit");
    if contains_sub(&t, &upper) {
        return OcrResult::Deviation;
    }
    let obw = chars_of("OBW:");
    if contains_sub(&t, &obw) {
        return OcrResult::OccBandwidth;
    }
    let center = chars_of("Center");
    let stop = chars_of("Stop");
    let start = chars_of("Start");
    proof {
        reveal_strlit("Center");
        reveal_strlit("Stop");
        reveal_strlit("Start");
    }
    if freq_rule(&t, &center, 112) || freq_rule(&t, &stop, 137) || freq_rule(&t, &start, 87) {
        return OcrResult::Unwanted;
    }
    OcrResult::Date
}

/// Priority of the deviation marker: every text that contains
/// `Upper Limit` is classified Deviation, whatever else it contains.
pub proof fn lemma_upper_limit_priority(t: Seq<char>)
    requires
        contains_seq(t, "Upper Limit"@),
    ensures
        classify_label(t) == OcrResult::Deviation,
{
}

/// Priority of the bandwidth marker: every text that contains `OBW:`
/// but not `Upper Limit` is classified OccBandwidth.
pub proof fn lemma_obw_priority(t: Seq<char>)
    requires
        !contains_seq(t, "Upper Limit"@),
        contains_seq(t, "OBW:"@),
    ensures
        classify_label(t) == OcrResult::OccBandwidth,
{
}

/// The fall-through rule: with neither marker and no frequency rule
/// holding, the text is classified Date, never an error.
pub proof fn lemma_no_marker_is_date(t: Seq<char>)
    requires
        !contains_seq(t, "Upper Limit"@),
        !contains_seq(t, "OBW:"@),
        !freq_rule_holds(t, "Center"@, 112),
        !freq_rule_holds(t, "Stop"@, 137),
        !freq_rule_holds(t, "Start"@, 87),
    ensures
        classify_label(t) == OcrResult::Date,
{
}

} // verus!
