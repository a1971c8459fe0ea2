//! Size limits on the text fields of a record.
//!
//! Identifiers and free text are persisted in fixed-size slots, so every limit
//! is a limit on the length of the UTF-8 encoding, not on the number of
//! characters.

use vstd::prelude::*;
use vstd::utf8::encode_utf8;

verus! {

/// Largest encoded size of a record or agent identifier, in bytes.
pub const MAX_ID_BYTES: usize = 32;

/// Number of bytes in the UTF-8 encoding of `text`.
pub open spec fn byte_len(text: Seq<char>) -> nat {
    encode_utf8(text).len()
}

/// The character sequences of a list of strings, in order.
pub open spec fn texts(items: Seq<String>) -> Seq<Seq<char>> {
    Seq::new(items.len(), |i: int| items[i]@)
}

/// Every entry of `items` encodes to at most `max` bytes.
pub open spec fn all_within(items: Seq<Seq<char>>, max: nat) -> bool {
    forall|i: int| 0 <= i < items.len() ==> byte_len(#[trigger] items[i]) <= max
}

/// Whether `text` encodes to at most `max` bytes.
pub fn fits(text: &String, max: usize) -> (ok: bool)
    ensures
        ok == (byte_len(text@) <= max),
{
    text.as_str().as_bytes().len() <= max
}

/// Whether every string of `items` encodes to at most `max` bytes.
pub fn all_fit(items: &Vec<String>, max: usize) -> (ok: bool)
    ensures
        ok == all_within(texts(items@), max as nat),
{
    let mut i: usize = 0;
    while i < items.len()
        invariant
            i <= items.len(),
            all_within(texts(items@).take(i as int), max as nat),
        decreases items.len() - i,
    {
        if !fits(&items[i], max) {
            assert(texts(items@)[i as int] == items@[i as int]@);
            return false;
        }
        proof {
            let all = texts(items@);
            assert forall|k: int| 0 <= k < i + 1 implies byte_len(
                #[trigger] all.take(i + 1)[k],
            ) <= max by {
                if k < i {
                    assert(all.take(i + 1)[k] == all.take(i as int)[k]);
                }
            }
        }
        i += 1;
    }
    assert(texts(items@).take(i as int) == texts(items@));
    true
}

/// Whether no two strings of `items` are equal.
pub fn all_distinct(items: &Vec<String>) -> (ok: bool)
    ensures
        ok == texts(items@).no_duplicates(),
{
    let ghost all = texts(items@);
    let mut i: usize = 0;
    while i < items.len()
        invariant
            i <= items.len(),
            all == texts(items@),
            forall|a: int, b: int| 0 <= a < b < i ==> all[a] != all[b],
        decreases items.len() - i,
    {
        let mut j: usize = 0;
        while j < i
            invariant
                j <= i < items.len(),
                all == texts(items@),
                forall|a: int| 0 <= a < j ==> all[a] != all[i as int],
            decreases i - j,
        {
            if items[j] == items[i] {
                assert(all[j as int] == all[i as int]);
                return false;
            }
            j += 1;
        }
        i += 1;
    }
    true
}

} // verus!
