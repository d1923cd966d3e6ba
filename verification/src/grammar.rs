//! The textual forms of a GUID, as predicates on character sequences.
//!
//! A GUID is 128 bits, written as 32 hexadecimal digits. The canonical form
//! groups them 8-4-4-4-12 with hyphens; three further forms are accepted
//! alongside it: the bare digits, the canonical form in braces, and the
//! canonical form behind a `urn:uuid:` prefix.

use vstd::prelude::*;

verus! {

/// A hexadecimal digit, in either case.
pub open spec fn is_hex_digit(c: char) -> bool {
    ('0' <= c <= '9') || ('a' <= c <= 'f') || ('A' <= c <= 'F')
}

/// The four places where the canonical form carries a hyphen.
pub open spec fn is_hyphen_index(i: int) -> bool {
    i == 8 || i == 13 || i == 18 || i == 23
}

/// The canonical form: 36 characters, a hyphen at each of the four hyphen
/// places and a hexadecimal digit everywhere else.
pub open spec fn is_canonical_guid(text: Seq<char>) -> bool {
    &&& text.len() == 36
    &&& forall|i: int|
        #![trigger text[i]]
        0 <= i < 36 ==> if is_hyphen_index(i) {
            text[i] == '-'
        } else {
            is_hex_digit(text[i])
        }
}

/// The bare form: 32 hexadecimal digits and nothing else.
pub open spec fn is_simple_guid(text: Seq<char>) -> bool {
    &&& text.len() == 32
    &&& forall|i: int| 0 <= i < 32 ==> is_hex_digit(#[trigger] text[i])
}

/// The braced form: the canonical form between `{` and `}`.
pub open spec fn is_braced_guid(text: Seq<char>) -> bool {
    &&& text.len() == 38
    &&& text[0] == '{'
    &&& text[37] == '}'
    &&& is_canonical_guid(text.subrange(1, 37))
}

/// The nine characters `urn:uuid:`, each letter in either case.
pub open spec fn is_urn_prefix(prefix: Seq<char>) -> bool {
    &&& prefix.len() == 9
    &&& (prefix[0] == 'u' || prefix[0] == 'U')
    &&& (prefix[1] == 'r' || prefix[1] == 'R')
    &&& (prefix[2] == 'n' || prefix[2] == 'N')
    &&& prefix[3] == ':'
    &&& (prefix[4] == 'u' || prefix[4] == 'U')
    &&& (prefix[5] == 'u' || prefix[5] == 'U')
    &&& (prefix[6] == 'i' || prefix[6] == 'I')
    &&& (prefix[7] == 'd' || prefix[7] == 'D')
    &&& prefix[8] == ':'
}

/// The URN form: the canonical form behind a `urn:uuid:` prefix.
pub open spec fn is_urn_guid(text: Seq<char>) -> bool {
    &&& text.len() == 45
    &&& is_urn_prefix(text.subrange(0, 9))
    &&& is_canonical_guid(text.subrange(9, 45))
}

/// Every text that counts as a GUID: the canonical form or one of the three
/// forms accepted alongside it.
pub open spec fn is_guid_text(text: Seq<char>) -> bool {
    ||| is_canonical_guid(text)
    ||| is_simple_guid(text)
    ||| is_braced_guid(text)
    ||| is_urn_guid(text)
}

/// Every character of a GUID text is ASCII, whichever form it has.
pub proof fn lemma_guid_text_is_ascii(text: Seq<char>)
    requires
        is_guid_text(text),
    ensures
        vstd::utf8::is_ascii_chars(text),
{
    assert forall|i: int| 0 <= i < text.len() implies '\0' <= #[trigger] text[i] <= '\u{7f}' by {
        if is_canonical_guid(text) {
        } else if is_simple_guid(text) {
        } else if is_braced_guid(text) {
            let inner = text.subrange(1, 37);
            if 1 <= i < 37 {
                assert(inner[i - 1] == text[i]);
            }
        } else {
            let prefix = text.subrange(0, 9);
            let inner = text.subrange(9, 45);
            if i < 9 {
                assert(prefix[i] == text[i]);
            } else {
                assert(inner[i - 9] == text[i]);
            }
        }
    }
}

} // verus!
