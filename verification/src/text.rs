//! Character-level text utilities shared by the classifier, the date
//! scanner and the form-flow planner: whitespace and digit tests,
//! substring search, and whitespace trimming.

use vstd::prelude::*;

verus! {

/// A whitespace character: the Unicode `White_Space` set, the one that
/// `str::trim` and `char::is_whitespace` use.
pub open spec fn is_space(c: char) -> bool {
    let u = c as int;
    ||| u == 0x20
    ||| 0x09 <= u <= 0x0d
    ||| u == 0x85
    ||| u == 0xa0
    ||| u == 0x1680
    ||| 0x2000 <= u <= 0x200a
    ||| u == 0x2028
    ||| u == 0x2029
    ||| u == 0x202f
    ||| u == 0x205f
    ||| u == 0x3000
}

pub fn space_char(c: char) -> (b: bool)
    ensures
        b == is_space(c),
{
    let u = c as u32;
    u == 0x20 || (0x09 <= u && u <= 0x0d) || u == 0x85 || u == 0xa0 || u == 0x1680 || (0x2000
        <= u && u <= 0x200a) || u == 0x2028 || u == 0x2029 || u == 0x202f || u == 0x205f || u
        == 0x3000
}

/// An ASCII decimal digit.
pub open spec fn is_digit(c: char) -> bool {
    '0' as int <= c as int <= '9' as int
}

pub fn digit_char(c: char) -> (b: bool)
    ensures
        b == is_digit(c),
{
    let u = c as u32;
    0x30 <= u && u <= 0x39
}

/// The numeric value of a decimal digit character.
pub open spec fn digit_val(c: char) -> nat {
    if is_digit(c) {
        (c as int - '0' as int) as nat
    } else {
        0
    }
}

/// A word character in the ASCII reading of the usual word-boundary
/// rule: a letter, a digit, or an underscore.
pub open spec fn is_word_char(c: char) -> bool {
    let u = c as int;
    ||| is_digit(c)
    ||| 'a' as int <= u <= 'z' as int
    ||| 'A' as int <= u <= 'Z' as int
    ||| c == '_'
}

pub fn word_char(c: char) -> (b: bool)
    ensures
        b == is_word_char(c),
{
    let u = c as u32;
    (0x30 <= u && u <= 0x39) || (0x61 <= u && u <= 0x7a) || (0x41 <= u && u <= 0x5a) || u == 0x5f
}

/// Copies the characters of a string slice into a vector, so that
/// callers can index the text cheaply.
pub fn chars_of(s: &str) -> (v: Vec<char>)
    ensures
        v@ == s@,
{
    let n = s.unicode_len();
    let mut v: Vec<char> = Vec::new();
    let mut i: usize = 0;
    while i < n
        invariant
            n == s@.len(),
            i <= n,
            v@ == s@.subrange(0, i as int),
        decreases n - i,
    {
        let c = s.get_char(i);
        v.push(c);
        i = i + 1;
        proof {
            assert(v@ =~= s@.subrange(0, i as int));
        }
    }
    proof {
        assert(v@ =~= s@);
    }
    v
}

/// The pattern `p` occurs in `t` starting at index `i`.
pub open spec fn occurs_at(t: Seq<char>, p: Seq<char>, i: int) -> bool {
    0 <= i && i + p.len() <= t.len() && t.subrange(i, i + p.len()) == p
}

/// The pattern `p` occurs somewhere in `t`.
pub open spec fn contains_seq(t: Seq<char>, p: Seq<char>) -> bool {
    exists|i: int| occurs_at(t, p, i)
}

/// Compares the slice of `t` that starts at `i` against the whole of `p`.
pub fn match_at(t: &Vec<char>, p: &Vec<char>, i: usize) -> (b: bool)
    requires
        i + p@.len() <= t@.len(),
    ensures
        b == occurs_at(t@, p@, i as int),
{
    let tl = t.len();
    let mut j: usize = 0;
    while j < p.len()
        invariant
            tl == t@.len(),
            i + p@.len() <= t@.len(),
            j <= p@.len(),
            forall|k: int| 0 <= k < j ==> t@[i + k] == p@[k],
        decreases p@.len() - j,
    {
        if t[i + j] != p[j] {
            proof {
                assert(t@.subrange(i as int, i + p@.len())[j as int] == t@[i + j]);
            }
            return false;
        }
        j = j + 1;
    }
    proof {
        assert(t@.subrange(i as int, i + p@.len()) =~= p@);
    }
    true
}

/// Substring search: whether `p` occurs anywhere in `t`.
pub fn contains_sub(t: &Vec<char>, p: &Vec<char>) -> (b: bool)
    ensures
        b == contains_seq(t@, p@),
{
    if p.len() > t.len() {
        return false;
    }
    if p.len() == 0 {
        proof {
            assert(t@.subrange(0, 0) =~= p@);
            assert(occurs_at(t@, p@, 0));
        }
        return true;
    }
    let mut i: usize = 0;
    let last = t.len() - p.len();
    while i <= last
        invariant
            1 <= p@.len() <= t@.len(),
            last == t@.len() - p@.len(),
            last < t.len(),
            i <= last + 1,
            forall|k: int| 0 <= k < i ==> !occurs_at(t@, p@, k),
        decreases last - i + 1,
    {
        if match_at(t, p, i) {
            return true;
        }
        i = i + 1;
    }
    false
}

/// The first index at or after `i` whose character is not whitespace
/// (the length of `t` if all of the rest is whitespace).
pub open spec fn skip_spaces(t: Seq<char>, i: int) -> int
    decreases t.len() - i when 0 <= i <= t.len()
{
    if i < t.len() && is_space(t[i]) {
        skip_spaces(t, i + 1)
    } else {
        i
    }
}

pub proof fn lemma_skip_spaces(t: Seq<char>, i: int)
    requires
        0 <= i <= t.len(),
    ensures
        i <= skip_spaces(t, i) <= t.len(),
        forall|k: int| i <= k < skip_spaces(t, i) ==> is_space(t[k]),
        skip_spaces(t, i) < t.len() ==> !is_space(t[skip_spaces(t, i)]),
    decreases t.len() - i,
{
    if i < t.len() && is_space(t[i]) {
        lemma_skip_spaces(t, i + 1);
    }
}

/// Advances an index over whitespace.
pub fn scan_spaces(t: &Vec<char>, i: usize) -> (r: usize)
    requires
        i <= t@.len(),
    ensures
        r == skip_spaces(t@, i as int),
        i <= r <= t@.len(),
{
    proof {
        lemma_skip_spaces(t@, i as int);
    }
    let mut j: usize = i;
    while j < t.len() && space_char(t[j])
        invariant
            i <= j <= t@.len(),
            skip_spaces(t@, i as int) == skip_spaces(t@, j as int),
        decreases t@.len() - j,
    {
        j = j + 1;
    }
    j
}

/// The first index at or after `i` whose character is not a decimal
/// digit (the length of `t` if digits run to the end).
pub open spec fn end_digits(t: Seq<char>, i: int) -> int
    decreases t.len() - i when 0 <= i <= t.len()
{
    if i < t.len() && is_digit(t[i]) {
        end_digits(t, i + 1)
    } else {
        i
    }
}

pub proof fn lemma_end_digits(t: Seq<char>, i: int)
    requires
        0 <= i <= t.len(),
    ensures
        i <= end_digits(t, i) <= t.len(),
        forall|k: int| i <= k < end_digits(t, i) ==> is_digit(t[k]),
        end_digits(t, i) < t.len() ==> !is_digit(t[end_digits(t, i)]),
    decreases t.len() - i,
{
    if i < t.len() && is_digit(t[i]) {
        lemma_end_digits(t, i + 1);
    }
}

/// Advances an index over decimal digits.
pub fn scan_digits(t: &Vec<char>, i: usize) -> (r: usize)
    requires
        i <= t@.len(),
    ensures
        r == end_digits(t@, i as int),
        i <= r <= t@.len(),
{
    proof {
        lemma_end_digits(t@, i as int);
    }
    let mut j: usize = i;
    while j < t.len() && digit_char(t[j])
        invariant
            i <= j <= t@.len(),
            end_digits(t@, i as int) == end_digits(t@, j as int),
        decreases t@.len() - j,
    {
        j = j + 1;
    }
    j
}

/// The first index before `i` (scanning backwards) that still has a
/// non-whitespace character after it; trailing whitespace is skipped.
pub open spec fn rskip_spaces(t: Seq<char>, i: int) -> int
    decreases i when 0 <= i <= t.len()
{
    if 0 < i <= t.len() && is_space(t[i - 1]) {
        rskip_spaces(t, i - 1)
    } else {
        i
    }
}

pub proof fn lemma_rskip_spaces(t: Seq<char>, i: int)
    requires
        0 <= i <= t.len(),
    ensures
        0 <= rskip_spaces(t, i) <= i,
        forall|k: int| rskip_spaces(t, i) <= k < i ==> is_space(t[k]),
        rskip_spaces(t, i) > 0 ==> !is_space(t[rskip_spaces(t, i) - 1]),
    decreases i,
{
    if 0 < i && is_space(t[i - 1]) {
        lemma_rskip_spaces(t, i - 1);
    }
}

/// What `str::trim` leaves: the text without leading and trailing
/// whitespace.
pub open spec fn trim_of(t: Seq<char>) -> Seq<char> {
    let a = skip_spaces(t, 0);
    let b = rskip_spaces(t, t.len() as int);
    if a <= b {
        t.subrange(a, b)
    } else {
        Seq::empty()
    }
}

/// The text is empty or all whitespace, so that trimming leaves nothing.
pub open spec fn is_blank(t: Seq<char>) -> bool {
    forall|k: int| 0 <= k < t.len() ==> is_space(t[k])
}

/// Trimming leaves nothing exactly on blank text.
pub proof fn lemma_trim_blank(t: Seq<char>)
    ensures
        is_blank(t) <==> trim_of(t).len() == 0,
{
    lemma_skip_spaces(t, 0);
    lemma_rskip_spaces(t, t.len() as int);
    let a = skip_spaces(t, 0);
    let b = rskip_spaces(t, t.len() as int);
    if is_blank(t) {
        if a < b {
            assert(!is_space(t[b - 1]));
            assert(is_space(t[b - 1]));
        }
    } else {
        let k = choose|k: int| 0 <= k < t.len() && !is_space(t[k]);
        assert(a <= k);
        assert(k < b);
    }
}

/// Whether the string is empty once trimmed, as the form back-fill
/// rule asks.
pub fn blank_str(s: &str) -> (b: bool)
    ensures
        b == is_blank(s@),
{
    let n = s.unicode_len();
    let mut i: usize = 0;
    while i < n
        invariant
            n == s@.len(),
            i <= n,
            forall|k: int| 0 <= k < i ==> is_space(s@[k]),
        decreases n - i,
    {
        if !space_char(s.get_char(i)) {
            return false;
        }
        i = i + 1;
    }
    true
}

/// Copies `s` without its leading and trailing whitespace, as
/// `str::trim` would.
pub fn trimmed(s: &str) -> (r: String)
    ensures
        r@ == trim_of(s@),
{
    let n = s.unicode_len();
    proof {
        lemma_skip_spaces(s@, 0);
        lemma_rskip_spaces(s@, s@.len() as int);
    }
    let mut a: usize = 0;
    while a < n && space_char(s.get_char(a))
        invariant
            n == s@.len(),
            a <= n,
            skip_spaces(s@, 0) == skip_spaces(s@, a as int),
        decreases n - a,
    {
        a = a + 1;
    }
    let mut b: usize = n;
    while b > 0 && space_char(s.get_char(b - 1))
        invariant
            n == s@.len(),
            b <= n,
            rskip_spaces(s@, n as int) == rskip_spaces(s@, b as int),
        decreases b,
    {
        b = b - 1;
    }
    if a <= b {
        let r = s.substring_char(a, b);
        String::from_str(r)
    } else {
        String::new()
    }
}

} // verus!
