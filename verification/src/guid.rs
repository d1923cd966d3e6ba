//! Checking that a piece of text is a GUID.
//!
//! The parsing itself is done by the `uuid` crate; what this module adds is
//! the statement of which texts pass, the failure message, and the proof that
//! the two fit together.

use crate::encoding::{bytes_as_text, lemma_ascii_encoding_text, lemma_ascii_text_encoding};
use crate::grammar::{is_canonical_guid, is_guid_text, lemma_guid_text_is_ascii};
use crate::message::{quote, quoted, verdict_view};
use vstd::prelude::*;
use vstd::string::StringSliceAdditionalSpecFns;
use vstd::utf8::encode_utf8;

verus! {

/// `uuid::Uuid`, the parsed identifier. Nothing here looks inside it.
#[verifier::external_type_specification]
#[verifier::external_body]
pub struct ExUuid(uuid::Uuid);

/// `uuid::Error`, the parser's own diagnosis. Nothing here looks inside it.
#[verifier::external_type_specification]
#[verifier::external_body]
pub struct ExUuidError(uuid::Error);

/// `uuid::Uuid::parse_str` succeeds exactly on the inputs whose bytes spell
/// one of the four GUID forms.
///
/// The parser works on the bytes of its input, never on characters. It
/// dispatches on the number of bytes: 32 for the bare form, 36 for the
/// canonical form, 38 for the braced form, 45 for the URN form; any other
/// length fails. It compares the braces and the four hyphens byte by byte,
/// compares the first nine bytes of the URN form with `urn:uuid:` ignoring
/// ASCII case, and requires every remaining byte to be an ASCII hexadecimal
/// digit. It returns on every input.
///
/// Assumed, not proved. Nothing is claimed about the parsed value or about
/// which error is reported.
pub assume_specification[ uuid::Uuid::parse_str ](input: &str) -> (parsed: Result<
    uuid::Uuid,
    uuid::Error,
>)
    ensures
        parsed is Ok <==> is_guid_text(bytes_as_text(input.spec_bytes())),
;

/// The message for a text that is no GUID: `'<text>' is not a valid GUID`.
pub open spec fn invalid_guid_message(text: Seq<char>) -> Seq<char> {
    quoted(text, " is not a valid GUID"@)
}

/// The verdict on `text`: accepted when it is a GUID in one of the four
/// forms, reported otherwise.
pub open spec fn guid_verdict(text: Seq<char>) -> Result<(), Seq<char>> {
    if is_guid_text(text) {
        Ok(())
    } else {
        Err(invalid_guid_message(text))
    }
}

/// Reading the UTF-8 encoding of a text byte by byte gives a GUID exactly
/// when the text itself is one.
pub proof fn lemma_guid_text_survives_encoding(text: Seq<char>)
    ensures
        is_guid_text(bytes_as_text(encode_utf8(text))) <==> is_guid_text(text),
{
    let read_back = bytes_as_text(encode_utf8(text));
    if is_guid_text(read_back) {
        lemma_guid_text_is_ascii(read_back);
        lemma_ascii_encoding_text(text);
        lemma_ascii_text_encoding(text);
    }
    if is_guid_text(text) {
        lemma_guid_text_is_ascii(text);
        lemma_ascii_text_encoding(text);
    }
}

/// Accepts `guid` when it is a GUID in text form, and otherwise reports it.
///
/// The canonical hyphenated form is always accepted, in either case of the
/// hexadecimal digits; so are the bare, braced and URN forms. Every other
/// text is rejected with the message `'<guid>' is not a valid GUID`, the
/// input quoted verbatim.
pub fn is_valid_guid(guid: String) -> (verdict: Result<(), String>)
    ensures
        verdict_view(verdict) == guid_verdict(guid@),
        is_canonical_guid(guid@) ==> verdict is Ok,
        !is_guid_text(guid@) ==> (verdict matches Err(message) && message@
            == invalid_guid_message(guid@)),
{
    proof {
        lemma_guid_text_survives_encoding(guid@);
    }
    match uuid::Uuid::parse_str(guid.as_str()) {
        Ok(_) => Ok(()),
        Err(_) => Err(quote(guid.as_str(), " is not a valid GUID")),
    }
}

/// Checking the same text twice gives the same verdict and the same message.
pub proof fn lemma_guid_verdicts_agree(
    text: Seq<char>,
    first: Result<(), String>,
    second: Result<(), String>,
)
    requires
        verdict_view(first) == guid_verdict(text),
        verdict_view(second) == guid_verdict(text),
    ensures
        verdict_view(first) == verdict_view(second),
{
}

} // verus!
