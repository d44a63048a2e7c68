//! The display suffix of a key: its last few characters.

use crate::constants::SUFFIX_CHARS;
use vstd::prelude::*;
use vstd::string::StrSliceExecFns;

verus! {

/// The last `SUFFIX_CHARS` characters of `key`, or all of it where it is
/// shorter. Characters are counted, not bytes.
pub open spec fn suffix_of(key: Seq<char>) -> Seq<char> {
    if key.len() <= SUFFIX_CHARS {
        key
    } else {
        key.subrange(key.len() - SUFFIX_CHARS, key.len() as int)
    }
}

/// What is shown of a key: nothing for the empty key, else its suffix.
pub open spec fn key_suffix_of(key: Seq<char>) -> Option<Seq<char>> {
    if key.len() == 0 {
        None
    } else {
        Some(suffix_of(key))
    }
}

/// Whether the executable value `shown` is the mathematical value `expected`.
pub open spec fn suffix_matches(shown: Option<String>, expected: Option<Seq<char>>) -> bool {
    match (shown, expected) {
        (None, None) => true,
        (Some(s), Some(e)) => s@ == e,
        _ => false,
    }
}

/// Extracts the display suffix of `key`.
///
/// The result is absent exactly for the empty key. Otherwise it holds the
/// last four characters of the key in their order, or the whole key where
/// it has fewer.
pub fn compute_key_suffix(key: &str) -> (shown: Option<String>)
    ensures
        suffix_matches(shown, key_suffix_of(key@)),
        shown is None <==> key@.len() == 0,
        shown matches Some(s) ==> 1 <= s@.len() <= SUFFIX_CHARS && s@.is_suffix_of(key@),
{
    let count: usize = key.unicode_len();
    if count == 0 {
        return None;
    }
    let start: usize = if count > SUFFIX_CHARS {
        count - SUFFIX_CHARS
    } else {
        0
    };
    let tail: &str = key.substring_char(start, count);
    let owned: String = tail.to_owned();
    proof {
        assert(key@.subrange(0, count as int) =~= key@);
        assert(owned@ == suffix_of(key@));
        assert(key@ =~= key@.subrange(0, start as int) + owned@);
    }
    Some(owned)
}

/// A suffix is absent exactly for the empty key. One that is present is
/// never empty, never longer than `SUFFIX_CHARS`, as long as the key where
/// the key is shorter than that, and made of the key's last characters in
/// their order.
pub proof fn lemma_key_suffix_bounds(key: Seq<char>)
    ensures
        key_suffix_of(key) is None <==> key.len() == 0,
        key_suffix_of(key) matches Some(shown) ==> {
            &&& 1 <= shown.len() <= SUFFIX_CHARS
            &&& shown.len() == key.len() || shown.len() == SUFFIX_CHARS
            &&& shown.is_suffix_of(key)
            &&& forall|i: int|
                0 <= i < shown.len() ==> shown[i] == key[key.len() - shown.len() + i]
        },
{
    if key.len() > 0 {
        let shown = suffix_of(key);
        assert(key =~= key.subrange(0, key.len() - shown.len()) + shown);
    }
}

} // verus!
