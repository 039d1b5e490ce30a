//! Small helpers on strings.

use vstd::prelude::*;

verus! {

/// The characters of a string, as contracts speak of them.
pub type Text = Seq<char>;

/// Whether `s` reads exactly `word`.
pub fn str_is(s: &String, word: &str) -> (r: bool)
    ensures
        r == (s@ == word@),
{
    let w = String::from_str(word);
    *s == w
}

/// The view of an optional string.
pub open spec fn opt_text(o: Option<String>) -> Option<Text> {
    match o {
        Some(s) => Some(s@),
        None => None,
    }
}

/// A copy of an optional string.
pub fn clone_opt(o: &Option<String>) -> (r: Option<String>)
    ensures
        r == *o,
{
    match o {
        Some(s) => Some(s.clone()),
        None => None,
    }
}

/// The views of a sequence of strings.
pub open spec fn texts(s: Seq<String>) -> Seq<Text> {
    Seq::new(s.len(), |i: int| s[i]@)
}

/// The value of a decimal digit.
pub open spec fn digit_value(c: char) -> Option<nat> {
    if '0' <= c && c <= '9' {
        Some((c as u32 - '0' as u32) as nat)
    } else {
        None
    }
}

/// The number that a text of decimal digits denotes, if it fits a
/// `usize`. A text that is empty, that holds anything but digits, or
/// that has a prefix which does not fit, denotes none.
pub open spec fn decimal_value(s: Text) -> Option<usize>
    decreases s.len(),
{
    if s.len() == 0 {
        None
    } else {
        match digit_value(s.last()) {
            None => None,
            Some(d) => if s.len() == 1 {
                Some(d as usize)
            } else {
                match decimal_value(s.drop_last()) {
                    None => None,
                    Some(v) => if v * 10 + d <= usize::MAX {
                        Some((v * 10 + d) as usize)
                    } else {
                        None
                    },
                }
            },
        }
    }
}

/// Reads a text of decimal digits as a number.
pub fn parse_decimal(s: &String) -> (r: Option<usize>)
    ensures
        r == decimal_value(s@),
{
    let t = s.as_str();
    let n = t.unicode_len();
    if n == 0 {
        return None;
    }
    let mut acc: usize = 0;
    let mut i: usize = 0;
    while i < n
        invariant
            n == s@.len(),
            t@ == s@,
            i <= n,
            i > 0 ==> decimal_value(s@.take(i as int)) == Some(acc),
            i == 0 ==> acc == 0,
        decreases n - i,
    {
        let c = t.get_char(i);
        let ghost next = s@.take(i + 1);
        assert(next.last() == c);
        assert(next.drop_last() == s@.take(i as int));
        if !('0' <= c && c <= '9') {
            proof {
                lemma_decimal_prefix(s@, i + 1);
            }
            return None;
        }
        let d: usize = (c as u32 - '0' as u32) as usize;
        if i > 0 && acc > (usize::MAX - d) / 10 {
            proof {
                lemma_decimal_prefix(s@, i + 1);
            }
            return None;
        }
        acc = acc * 10 + d;
        i = i + 1;
    }
    assert(s@.take(n as int) == s@);
    Some(acc)
}

/// A text denotes no number where one of its prefixes denotes none.
pub proof fn lemma_decimal_prefix(s: Text, k: int)
    requires
        0 < k <= s.len(),
        decimal_value(s.take(k)).is_none(),
    ensures
        decimal_value(s).is_none(),
    decreases s.len() - k,
{
    if k < s.len() {
        let next = s.take(k + 1);
        assert(next.drop_last() == s.take(k));
        lemma_decimal_prefix(s, k + 1);
    } else {
        assert(s.take(k) == s);
    }
}

} // verus!
