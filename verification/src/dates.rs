//! Inspection-date extraction: finds the first `dd/mm/yy` token in the
//! recognized text of a station's images.
//!
//! A date token is two digits, a slash, two digits, a slash, two
//! digits, standing on word boundaries (the characters right before
//! and after, if any, are not letters, digits or underscores, in the
//! ASCII reading). Scanning is left to right within a text, and the
//! first token across a station's texts, in image order, wins.

use vstd::prelude::*;

use crate::text::chars_of;
use crate::text::digit_char;
use crate::text::is_digit;
use crate::text::is_word_char;
use crate::text::word_char;

verus! {

/// A `dd/mm/yy` token on word boundaries starts at index `i`.
pub open spec fn date_at(t: Seq<char>, i: int) -> bool {
    &&& 0 <= i
    &&& i + 8 <= t.len()
    &&& is_digit(t[i])
    &&& is_digit(t[i + 1])
    &&& t[i + 2] == '/'
    &&& is_digit(t[i + 3])
    &&& is_digit(t[i + 4])
    &&& t[i + 5] == '/'
    &&& is_digit(t[i + 6])
    &&& is_digit(t[i + 7])
    &&& (i == 0 || !is_word_char(t[i - 1]))
    &&& (i + 8 == t.len() || !is_word_char(t[i + 8]))
}

/// The first date token at or after index `i`.
pub open spec fn first_date_from(t: Seq<char>, i: int) -> Option<int>
    decreases t.len() + 1 - i when 0 <= i <= t.len() + 1
{
    if i + 8 > t.len() {
        None
    } else if date_at(t, i) {
        Some(i)
    } else {
        first_date_from(t, i + 1)
    }
}

/// The first date token of the text, if any.
pub open spec fn date_token(t: Seq<char>) -> Option<Seq<char>> {
    match first_date_from(t, 0) {
        Some(i) => Some(t.subrange(i, i + 8)),
        None => None,
    }
}

fn date_ok_at(t: &Vec<char>, i: usize) -> (b: bool)
    requires
        i + 8 <= t@.len(),
    ensures
        b == date_at(t@, i as int),
{
    let n = t.len();
    digit_char(t[i]) && digit_char(t[i + 1]) && t[i + 2] == '/' && digit_char(t[i + 3])
        && digit_char(t[i + 4]) && t[i + 5] == '/' && digit_char(t[i + 6]) && digit_char(
        t[i + 7],
    ) && (i == 0 || !word_char(t[i - 1])) && (i + 8 == n || !word_char(t[i + 8]))
}

/// Finds the first `dd/mm/yy` token of one text, scanning left to
/// right.
pub fn find_date(text: &str) -> (r: Option<String>)
    ensures
        match r {
            Some(d) => date_token(text@) == Some(d@),
            None => date_token(text@) is None,
        },
{
    let t = chars_of(text);
    let n = t.len();
    if n < 8 {
        return None;
    }
    let last = n - 8;
    let mut i: usize = 0;
    while i <= last
        invariant
            t@ == text@,
            n == t@.len(),
            8 <= n,
            last == n - 8,
            i <= last + 1,
            first_date_from(t@, 0) == first_date_from(t@, i as int),
        decreases last + 1 - i,
    {
        if date_ok_at(&t, i) {
            let d = text.substring_char(i, i + 8);
            return Some(String::from_str(d));
        }
        i = i + 1;
    }
    None
}

/// The first date token across a station's texts, starting at text
/// `i`: scanning in image order, the first text with a token decides.
pub open spec fn texts_date_from(texts: Seq<Seq<char>>, i: int) -> Option<Seq<char>>
    decreases texts.len() - i when 0 <= i <= texts.len()
{
    if i >= texts.len() {
        None
    } else if date_token(texts[i]) is Some {
        date_token(texts[i])
    } else {
        texts_date_from(texts, i + 1)
    }
}

/// The station's inspection date: the first date token across its
/// images' texts, in order.
pub open spec fn station_date(texts: Seq<Seq<char>>) -> Option<Seq<char>> {
    texts_date_from(texts, 0)
}

proof fn lemma_texts_date_skip(texts: Seq<Seq<char>>, j: int, i: int)
    requires
        0 <= j <= i <= texts.len(),
        forall|k: int| j <= k < i ==> date_token(texts[k]) is None,
    ensures
        texts_date_from(texts, j) == texts_date_from(texts, i),
    decreases i - j,
{
    if j < i {
        lemma_texts_date_skip(texts, j + 1, i);
    }
}

/// First match wins across a station's images: when every text before
/// image `i` carries no date token and image `i` carries one, that
/// token is the station's date, whatever the later images hold.
pub proof fn lemma_first_date_wins(texts: Seq<Seq<char>>, i: int)
    requires
        0 <= i < texts.len(),
        forall|k: int| 0 <= k < i ==> date_token(texts[k]) is None,
        date_token(texts[i]) is Some,
    ensures
        station_date(texts) == date_token(texts[i]),
{
    lemma_texts_date_skip(texts, 0, i);
}

} // verus!
