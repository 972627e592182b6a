//! Comparing strings: exactly, and without regard to the case of ASCII
//! letters.

use vstd::prelude::*;
use vstd::string::*;
use vstd::utf8::*;

verus! {

/// The lower-case form of an ASCII capital letter; any other character
/// unchanged.
pub open spec fn lower(c: char) -> char {
    if 'A' <= c <= 'Z' {
        ((c as u8) + 32) as char
    } else {
        c
    }
}

/// `text` with every ASCII capital letter replaced by its lower-case form.
pub open spec fn to_lower(text: Seq<char>) -> Seq<char> {
    Seq::new(text.len(), |i: int| lower(text[i]))
}

/// Folding a text twice is folding it once.
pub proof fn lemma_to_lower_idempotent(text: Seq<char>)
    ensures
        to_lower(to_lower(text)) == to_lower(text),
{
    assert(to_lower(to_lower(text)) =~= to_lower(text));
}

/// Whether two strings hold the same characters.
pub fn same_text(a: &str, b: &str) -> (same: bool)
    ensures
        same == (a@ == b@),
{
    let left = a.as_bytes();
    let right = b.as_bytes();
    proof {
        encode_utf8_decode_utf8(a@);
        encode_utf8_decode_utf8(b@);
    }
    if left.len() != right.len() {
        return false;
    }
    let mut i: usize = 0;
    while i < left.len()
        invariant
            i <= left.len(),
            left.len() == right.len(),
            forall|k: int| 0 <= k < i ==> left@[k] == right@[k],
            left@ == a.spec_bytes(),
            right@ == b.spec_bytes(),
            decode_utf8(a.spec_bytes()) == a@,
            decode_utf8(b.spec_bytes()) == b@,
        decreases left.len() - i,
    {
        if left[i] != right[i] {
            return false;
        }
        i += 1;
    }
    assert(left@ =~= right@);
    true
}

/// The lower-case form of a byte that is an ASCII capital letter; any other
/// byte unchanged.
fn lower_byte(byte: u8) -> (folded: u8)
    ensures
        folded == if 65 <= byte <= 90 { byte + 32 } else { byte as int },
{
    if 65 <= byte && byte <= 90 {
        byte + 32
    } else {
        byte
    }
}

/// Whether `input`, with its ASCII capitals folded to lower case, reads as
/// `name`.
pub(crate) fn folds_to(input: &str, name: &str) -> (same: bool)
    requires
        is_ascii_chars(name@),
    ensures
        same == (to_lower(input@) == name@),
{
    if !input.is_ascii() {
        proof {
            let k = choose|k: int|
                0 <= k < input@.len() && !('\0' <= #[trigger] input@[k] <= '\u{7f}');
            assert(to_lower(input@)[k] == input@[k]);
        }
        return false;
    }
    let left = input.as_bytes();
    let right = name.as_bytes();
    proof {
        is_ascii_chars_encode_utf8(input@);
        is_ascii_chars_encode_utf8(name@);
    }
    if left.len() != right.len() {
        return false;
    }
    let mut i: usize = 0;
    while i < left.len()
        invariant
            i <= left.len(),
            left.len() == right.len(),
            left.len() == input@.len(),
            right.len() == name@.len(),
            is_ascii_chars(input@),
            is_ascii_chars(name@),
            forall|k: int| 0 <= k < left.len() ==> input@[k] as u8 == left@[k],
            forall|k: int| 0 <= k < right.len() ==> name@[k] as u8 == right@[k],
            forall|k: int| 0 <= k < i ==> lower(input@[k]) == name@[k],
        decreases left.len() - i,
    {
        let folded = lower_byte(left[i]);
        proof {
            let c = input@[i as int];
            let d = name@[i as int];
            assert('\0' <= c <= '\u{7f}');
            assert('\0' <= d <= '\u{7f}');
            assert((folded == right@[i as int]) == (lower(c) == d));
        }
        if folded != right[i] {
            assert(to_lower(input@)[i as int] != name@[i as int]);
            return false;
        }
        i += 1;
    }
    assert(to_lower(input@) =~= name@);
    true
}

} // verus!
