//! Normalization of container tag keys for display: the first character
//! is upper-cased, the rest of the key is lower-cased, and an empty key
//! passes through unchanged. Values are never touched, duplicate keys are
//! kept as separate rows, and the container's enumeration order is
//! preserved.

use vstd::prelude::*;
use vstd::string::*;

verus! {

/// What `char::to_uppercase` yields for one character; depends on the
/// character alone (it may be more than one character long).
pub uninterp spec fn upper_of(c: char) -> Seq<char>;

/// What `str::to_lowercase` yields; depends on the characters alone.
pub uninterp spec fn lower_of(s: Seq<char>) -> Seq<char>;

/// Relies on `char::to_uppercase`: yields the uppercase mapping of the
/// character alone, and yields the character itself where no mapping
/// exists, so the result is never empty.
#[verifier::external_body]
fn char_upper(c: char) -> (r: String)
    ensures
        r@ == upper_of(c),
        r@.len() >= 1,
{
    c.to_uppercase().collect()
}

/// Relies on `str::to_lowercase`: the result is the lowercase mapping of
/// the characters alone, and is empty for an empty input.
#[verifier::external_body]
fn str_lower(s: &str) -> (r: String)
    ensures
        r@ == lower_of(s@),
        s@.len() == 0 ==> r@.len() == 0,
{
    s.to_lowercase()
}

/// A key as displayed: empty keys unchanged; otherwise the uppercase
/// mapping of the first character followed by the lowercase mapping of
/// the remainder.
pub open spec fn normal_key(s: Seq<char>) -> Seq<char> {
    if s.len() == 0 {
        s
    } else {
        upper_of(s[0]) + lower_of(s.skip(1))
    }
}

/// Normalize one tag key for display.
pub fn normalize_key(key: &str) -> (r: String)
    ensures
        r@ == normal_key(key@),
{
    let n = key.unicode_len();
    if n == 0 {
        let r = String::new();
        proof {
            assert(r@ =~= key@);
        }
        r
    } else {
        let first = key.get_char(0);
        let rest = key.substring_char(1, n);
        proof {
            assert(rest@ =~= key@.skip(1));
        }
        let mut r = char_upper(first);
        let low = str_lower(rest);
        r.append(low.as_str());
        r
    }
}

/// Normalize a whole tag table: every key is normalized, every value and
/// the order of the rows are kept, and duplicate keys stay separate rows.
pub fn normalize_tags(tags: Vec<(String, String)>) -> (r: Vec<(String, String)>)
    ensures
        r@.len() == tags@.len(),
        forall|i: int|
            0 <= i < tags@.len()
                ==> #[trigger] r@[i].0@ == normal_key(tags@[i].0@) && r@[i].1@ == tags@[i].1@,
{
    let mut r: Vec<(String, String)> = Vec::new();
    let mut i: usize = 0;
    while i < tags.len()
        invariant
            i <= tags@.len(),
            r@.len() == i,
            forall|j: int|
                0 <= j < i ==> #[trigger] r@[j].0@ == normal_key(tags@[j].0@) && r@[j].1@
                    == tags@[j].1@,
        decreases tags@.len() - i,
    {
        let key = normalize_key(tags[i].0.as_str());
        let value = tags[i].1.clone();
        r.push((key, value));
        i = i + 1;
    }
    r
}

} // verus!
