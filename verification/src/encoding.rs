use vstd::prelude::*;

verus! {

/// The URL-safe, unpadded base64 text of a byte sequence.
pub uninterp spec fn b64url_encode_spec(bytes: Seq<u8>) -> Seq<char>;

/// What URL-safe, unpadded base64 decoding yields for a text: `None` exactly
/// when the text is not valid in that alphabet.
pub uninterp spec fn b64url_decode_spec(text: Seq<char>) -> Option<Seq<u8>>;

/// The text with surrounding whitespace removed.
pub uninterp spec fn trim_spec(text: Seq<char>) -> Seq<char>;

/// A character of the URL-safe base64 alphabet: `A`-`Z`, `a`-`z`, `0`-`9`,
/// `-` or `_`.
pub open spec fn is_b64url_char(c: char) -> bool {
    ||| (65 <= (c as int) && (c as int) <= 90)
    ||| (97 <= (c as int) && (c as int) <= 122)
    ||| (48 <= (c as int) && (c as int) <= 57)
    ||| c == '-'
    ||| c == '_'
}

/// Relies on base64's `URL_SAFE_NO_PAD` engine, through `Engine::encode` and
/// `Engine::decode`, and on `str::trim`: the text produced is a pure
/// function of the input bytes; it holds only characters of the URL-safe
/// alphabet (so trimming leaves it unchanged), and decoding it returns the
/// bytes that were encoded.
#[verifier::external_body]
pub(crate) fn b64url_encode(bytes: &[u8]) -> (r: String)
    ensures
        r@ == b64url_encode_spec(bytes@),
        b64url_decode_spec(trim_spec(r@)) == Some(bytes@),
{
    base64::Engine::encode(&base64::engine::general_purpose::URL_SAFE_NO_PAD, bytes)
}

/// Relies on base64's `URL_SAFE_NO_PAD` engine, through `Engine::decode`:
/// success and the decoded bytes are a pure function of the input text, and
/// decoding succeeds only when every character of the text is in the
/// URL-safe alphabet (padding characters included, `=` is rejected).
#[verifier::external_body]
pub(crate) fn b64url_decode(text: &str) -> (r: Option<Vec<u8>>)
    ensures
        r matches Some(v) ==> b64url_decode_spec(text@) == Some(v@),
        r is None ==> b64url_decode_spec(text@) is None,
        r is Some ==> forall|i: int| 0 <= i < text@.len() ==> is_b64url_char(#[trigger] text@[i]),
{
    base64::Engine::decode(&base64::engine::general_purpose::URL_SAFE_NO_PAD, text).ok()
}

/// Relies on `str::trim`: the result depends on the characters alone.
#[verifier::external_body]
pub(crate) fn trim_str(text: &str) -> (r: &str)
    ensures
        r@ == trim_spec(text@),
{
    text.trim()
}

} // verus!
