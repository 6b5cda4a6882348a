use vstd::prelude::*;

verus! {

/// The failures the signing core can report.
///
/// Verification mismatch is deliberately not an error: a signature that does
/// not match is a first-class `false` result of `verify`.
#[derive(Clone, Copy, Debug, PartialEq, Eq, Structural)]
pub enum TextError {
    /// Key material has the wrong byte length for the scheme, or does not
    /// decode to a valid key.
    KeyMaterial,
    /// The signature text is not valid URL-safe, unpadded base64.
    Encoding,
    /// The decoded signature has the wrong byte length for the scheme.
    SignatureLength,
    /// A format tag is neither of the supported algorithm names.
    InvalidFormat,
}

impl TextError {
    /// A short human-readable description, for callers that print errors.
    pub fn message(&self) -> (r: &'static str)
        ensures
            *self is KeyMaterial ==> r@ == "invalid key material"@,
            *self is Encoding ==> r@ == "invalid signature encoding"@,
            *self is SignatureLength ==> r@ == "invalid signature length"@,
            *self is InvalidFormat ==> r@ == "invalid format"@,
    {
        match self {
            TextError::KeyMaterial => "invalid key material",
            TextError::Encoding => "invalid signature encoding",
            TextError::SignatureLength => "invalid signature length",
            TextError::InvalidFormat => "invalid format",
        }
    }
}

} // verus!
