//! Words of ASCII characters as bytes.

use vstd::prelude::*;
use vstd::string::*;

verus! {

/// The bytes of a word of ASCII characters.
pub open spec fn ascii(word: Seq<char>) -> Seq<u8> {
    Seq::new(word.len(), |i: int| word[i] as u8)
}

/// Whether `bytes` spell the ASCII word `word`.
pub fn spells(bytes: &[u8], word: &str) -> (same: bool)
    requires
        is_ascii(word),
    ensures
        same == (bytes@ == ascii(word@)),
{
    let n = word.unicode_len();
    if n != bytes.len() {
        assert(bytes@.len() != ascii(word@).len());
        return false;
    }
    let mut i: usize = 0;
    while i < n
        invariant
            i <= n,
            n == bytes@.len(),
            n == word@.len(),
            is_ascii(word),
            forall|j: int| 0 <= j < i ==> bytes@[j] == word@[j] as u8,
        decreases n - i,
    {
        if bytes[i] != word.get_ascii(i) {
            assert(bytes@[i as int] != ascii(word@)[i as int]);
            return false;
        }
        i += 1;
    }
    assert(bytes@ =~= ascii(word@));
    true
}

} // verus!
