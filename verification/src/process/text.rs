use vstd::prelude::*;
use vstd::slice::{slice_subrange, slice_to_vec};

use crate::cli::text::TextSignFormat;
use crate::encoding::{
    b64url_decode, b64url_decode_spec, b64url_encode, b64url_encode_spec, is_b64url_char,
    trim_spec, trim_str,
};
use crate::errors::TextError;
use crate::genpass::{generate_password, has_all_classes, is_password_byte};
use crate::utils::{bytes32_of, bytes_eq};

verus! {

/// The 32-byte keyed blake3 digest of a message under a 32-byte key.
pub uninterp spec fn blake3_keyed_hash_spec(key: Seq<u8>, msg: Seq<u8>) -> Seq<u8>;

/// Relies on `blake3::keyed_hash` and `Hash::as_bytes`: the digest is a pure
/// function of key and message, and is exactly 32 bytes long.
#[verifier::external_body]
fn blake3_keyed_hash(key: &[u8], msg: &[u8]) -> (r: Vec<u8>)
    requires
        key@.len() == 32,
    ensures
        r@ == blake3_keyed_hash_spec(key@, msg@),
        r@.len() == 32,
{
    let key32: &[u8; 32] = key.try_into().unwrap();
    blake3::keyed_hash(key32, msg).as_bytes().to_vec()
}

/// Signer capability: consumes a full message, produces a fixed-length
/// signature. The trait contract also carries the round-trip law: a
/// signature just produced is one the scheme's own verifier accepts.
pub trait TextSign {
    /// The signature this signer assigns to a message.
    spec fn sign_spec(&self, msg: Seq<u8>) -> Seq<u8>;

    /// The scheme's fixed signature length in bytes.
    spec fn sign_len_spec(&self) -> int;

    /// The scheme's verifier accepts the fresh signature of `msg` under the
    /// key paired with this signer's key.
    spec fn sign_verifies_spec(&self, msg: Seq<u8>) -> bool;

    /// Sign the full message and return the raw signature bytes.
    fn sign(&self, msg: &[u8]) -> (r: Result<Vec<u8>, TextError>)
        ensures
            r matches Ok(sig) && sig@ == self.sign_spec(msg@) && sig@.len()
                == self.sign_len_spec(),
            self.sign_verifies_spec(msg@),
    ;
}

/// Verifier capability: consumes a full message and a signature, produces a
/// boolean match result. A mismatched signature is a `false` result, never
/// an error; a signature of the wrong byte length for the scheme is an
/// error, never a `false`.
pub trait TextVerify {
    /// The byte length of signatures this verifier accepts.
    spec fn sig_len_spec(&self) -> int;

    /// Whether the signature matches the message under this verifier's key.
    spec fn verify_spec(&self, msg: Seq<u8>, sig: Seq<u8>) -> bool;

    /// Check the signature bytes against the full message.
    fn verify(&self, msg: &[u8], sig: &[u8]) -> (r: Result<bool, TextError>)
        ensures
            sig@.len() == self.sig_len_spec() ==> (r matches Ok(b) && b == self.verify_spec(
                msg@,
                sig@,
            )),
            sig@.len() != self.sig_len_spec() ==> (r matches Err(e) && e
                == TextError::SignatureLength),
    ;
}

/// Key-loader capability: construct a signer/verifier from the raw bytes of
/// a key file. The view of the constructed value is the key material it
/// holds.
pub trait KeyLoader: Sized + View<V = Seq<u8>> {
    /// Whether raw key bytes of this shape are accepted by the scheme.
    spec fn load_ok_spec(key: Seq<u8>) -> bool;

    /// The key material the loaded value holds, as a function of the raw
    /// bytes.
    spec fn loaded_key_spec(key: Seq<u8>) -> Seq<u8>;

    /// Construct the concrete key type from raw key bytes.
    fn load(key: &[u8]) -> (r: Result<Self, TextError>)
        ensures
            Self::load_ok_spec(key@) ==> (r matches Ok(v) && v@ == Self::loaded_key_spec(key@)),
            !Self::load_ok_spec(key@) ==> (r matches Err(e) && e == TextError::KeyMaterial),
    ;
}

/// Key-generator capability: produce the ordered list of freshly generated
/// key byte-buffers (one buffer for a symmetric scheme; secret then public
/// for an asymmetric scheme).
pub trait KeyGenerator {
    /// What holds of every list of buffers this scheme generates.
    spec fn generated_ok_spec(keys: Seq<Seq<u8>>) -> bool;

    /// Generate the scheme's fresh key buffers.
    fn generate() -> (r: Result<Vec<Vec<u8>>, TextError>)
        ensures
            r matches Ok(keys) && Self::generated_ok_spec(keys.deep_view()),
    ;
}

/// The symmetric scheme: a keyed blake3 hash, whose 32-byte digest is the
/// signature. Holds the 32-byte secret key.
pub struct Blake3 {
    key: Vec<u8>,
}

impl Blake3 {
    /// The key is exactly 32 bytes.
    #[verifier::type_invariant]
    spec fn wf(self) -> bool {
        self.key@.len() == 32
    }

    /// Wrap a 32-byte secret as a signer/verifier.
    pub fn new(key: [u8; 32]) -> (r: Self)
        ensures
            r@ == key@,
    {
        Blake3 { key: slice_to_vec(key.as_slice()) }
    }

    /// Accept raw key bytes: at least 32 bytes are required, and only the
    /// first 32 are kept.
    pub fn try_new(key: &[u8]) -> (r: Result<Self, TextError>)
        ensures
            key@.len() >= 32 ==> (r matches Ok(v) && v@ == key@.take(32)),
            key@.len() < 32 ==> (r matches Err(e) && e == TextError::KeyMaterial),
    {
        if key.len() < 32 {
            Err(TextError::KeyMaterial)
        } else {
            let head = slice_subrange(key, 0, 32);
            proof {
                assert(head@ =~= key@.take(32));
            }
            Ok(Blake3::new(bytes32_of(head)))
        }
    }
}

impl View for Blake3 {
    type V = Seq<u8>;

    /// The 32-byte secret key this signer/verifier holds.
    closed spec fn view(&self) -> Seq<u8> {
        self.key@
    }
}

impl TextSign for Blake3 {
    open spec fn sign_spec(&self, msg: Seq<u8>) -> Seq<u8> {
        blake3_keyed_hash_spec(self@, msg)
    }

    open spec fn sign_len_spec(&self) -> int {
        32
    }

    open spec fn sign_verifies_spec(&self, msg: Seq<u8>) -> bool {
        self.verify_spec(msg, self.sign_spec(msg))
    }

    fn sign(&self, msg: &[u8]) -> (r: Result<Vec<u8>, TextError>) {
        proof {
            use_type_invariant(self);
        }
        Ok(blake3_keyed_hash(self.key.as_slice(), msg))
    }
}

impl TextVerify for Blake3 {
    open spec fn sig_len_spec(&self) -> int {
        32
    }

    open spec fn verify_spec(&self, msg: Seq<u8>, sig: Seq<u8>) -> bool {
        sig == blake3_keyed_hash_spec(self@, msg)
    }

    fn verify(&self, msg: &[u8], sig: &[u8]) -> (r: Result<bool, TextError>) {
        proof {
            use_type_invariant(self);
        }
        if sig.len() != 32 {
            return Err(TextError::SignatureLength);
        }
        let digest = blake3_keyed_hash(self.key.as_slice(), msg);
        Ok(bytes_eq(sig, digest.as_slice()))
    }
}

impl KeyLoader for Blake3 {
    open spec fn load_ok_spec(key: Seq<u8>) -> bool {
        key.len() >= 32
    }

    open spec fn loaded_key_spec(key: Seq<u8>) -> Seq<u8> {
        key.take(32)
    }

    fn load(key: &[u8]) -> (r: Result<Self, TextError>) {
        Blake3::try_new(key)
    }
}

impl KeyGenerator for Blake3 {
    open spec fn generated_ok_spec(keys: Seq<Seq<u8>>) -> bool {
        &&& keys.len() == 1
        &&& keys[0].len() == 32
        &&& forall|i: int| 0 <= i < keys[0].len() ==> is_password_byte(#[trigger] keys[0][i])
        &&& has_all_classes(keys[0])
    }

    /// The symmetric secret is derived from a fresh 32-character password
    /// drawn with all four character classes enabled; the password's raw
    /// bytes are the key material.
    fn generate() -> (r: Result<Vec<Vec<u8>>, TextError>) {
        let key = generate_password(32);
        let ghost key_view = key@;
        let mut keys: Vec<Vec<u8>> = Vec::new();
        keys.push(key);
        proof {
            assert(keys.deep_view().len() == 1);
            assert(keys.deep_view()[0] =~= key_view);
        }
        Ok(keys)
    }
}

/// The Ed25519 signature of a message under a 32-byte secret key; RFC 8032
/// signing is deterministic in key and message.
pub uninterp spec fn ed25519_sign_spec(sk: Seq<u8>, msg: Seq<u8>) -> Seq<u8>;

/// The 32-byte public key derived from an Ed25519 secret key.
pub uninterp spec fn ed25519_pubkey_spec(sk: Seq<u8>) -> Seq<u8>;

/// Whether 32 bytes decode to a valid Ed25519 public key (a compressed
/// curve point that decompresses).
pub uninterp spec fn ed25519_valid_pubkey(pk: Seq<u8>) -> bool;

/// Whether an Ed25519 signature is accepted for a message under a public
/// key.
pub uninterp spec fn ed25519_verify_spec(pk: Seq<u8>, msg: Seq<u8>, sig: Seq<u8>) -> bool;

/// Relies on `ed25519_dalek::SigningKey::from_bytes` and `Signer::sign`
/// (RFC 8032): signing is deterministic in key and message, the signature
/// is 64 bytes, and it is accepted by Ed25519 verification under the public
/// key derived from the same secret key.
#[verifier::external_body]
fn ed25519_sign(sk: &[u8], msg: &[u8]) -> (r: Vec<u8>)
    requires
        sk@.len() == 32,
    ensures
        r@ == ed25519_sign_spec(sk@, msg@),
        r@.len() == 64,
        ed25519_verify_spec(ed25519_pubkey_spec(sk@), msg@, r@),
{
    let key = ed25519_dalek::SigningKey::from_bytes(sk.try_into().unwrap());
    ed25519_dalek::Signer::sign(&key, msg).to_bytes().to_vec()
}

/// Relies on `ed25519_dalek::VerifyingKey::from_bytes`: whether the bytes
/// decode to a valid public key depends on the bytes alone.
#[verifier::external_body]
fn ed25519_check_pubkey(pk: &[u8]) -> (r: bool)
    requires
        pk@.len() == 32,
    ensures
        r == ed25519_valid_pubkey(pk@),
{
    ed25519_dalek::VerifyingKey::from_bytes(pk.try_into().unwrap()).is_ok()
}

/// Relies on `ed25519_dalek::VerifyingKey::{from_bytes, verify}` and
/// `ed25519::Signature::from_bytes`: acceptance of a signature is a pure
/// function of public key, message and signature bytes.
#[verifier::external_body]
fn ed25519_verify(pk: &[u8], msg: &[u8], sig: &[u8]) -> (r: bool)
    requires
        pk@.len() == 32,
        ed25519_valid_pubkey(pk@),
        sig@.len() == 64,
    ensures
        r == ed25519_verify_spec(pk@, msg@, sig@),
{
    let key = ed25519_dalek::VerifyingKey::from_bytes(pk.try_into().unwrap()).unwrap();
    let signature = ed25519_dalek::Signature::from_bytes(sig.try_into().unwrap());
    ed25519_dalek::Verifier::verify(&key, msg, &signature).is_ok()
}

/// Relies on `ed25519_dalek::SigningKey::generate` (drawing from rand's
/// `OsRng`), `verifying_key` and the `to_bytes` accessors: whatever key the
/// generator draws, both halves are 32 bytes, the public half is the one
/// derived from the secret half, and it round-trips through
/// `VerifyingKey::from_bytes`.
#[verifier::external_body]
fn ed25519_generate_keypair() -> (r: (Vec<u8>, Vec<u8>))
    ensures
        r.0@.len() == 32,
        r.1@.len() == 32,
        r.1@ == ed25519_pubkey_spec(r.0@),
        ed25519_valid_pubkey(r.1@),
{
    let mut csprng = rand::rngs::OsRng;
    let sk = ed25519_dalek::SigningKey::generate(&mut csprng);
    let pk = sk.verifying_key().to_bytes().to_vec();
    (sk.to_bytes().to_vec(), pk)
}

/// The asymmetric signer: holds a 32-byte Ed25519 secret key.
pub struct Ed25519Signer {
    key: Vec<u8>,
}

impl Ed25519Signer {
    /// The secret key is exactly 32 bytes.
    #[verifier::type_invariant]
    spec fn wf(self) -> bool {
        self.key@.len() == 32
    }

    /// Wrap a 32-byte secret key as a signer.
    pub fn new(key: [u8; 32]) -> (r: Self)
        ensures
            r@ == key@,
    {
        Ed25519Signer { key: slice_to_vec(key.as_slice()) }
    }

    /// Accept raw key bytes: exactly 32 bytes, never truncated.
    pub fn try_new(key: &[u8]) -> (r: Result<Self, TextError>)
        ensures
            key@.len() == 32 ==> (r matches Ok(v) && v@ == key@),
            key@.len() != 32 ==> (r matches Err(e) && e == TextError::KeyMaterial),
    {
        if key.len() != 32 {
            Err(TextError::KeyMaterial)
        } else {
            Ok(Ed25519Signer::new(bytes32_of(key)))
        }
    }
}

impl View for Ed25519Signer {
    type V = Seq<u8>;

    /// The 32-byte secret key this signer holds.
    closed spec fn view(&self) -> Seq<u8> {
        self.key@
    }
}

impl TextSign for Ed25519Signer {
    open spec fn sign_spec(&self, msg: Seq<u8>) -> Seq<u8> {
        ed25519_sign_spec(self@, msg)
    }

    open spec fn sign_len_spec(&self) -> int {
        64
    }

    open spec fn sign_verifies_spec(&self, msg: Seq<u8>) -> bool {
        ed25519_verify_spec(ed25519_pubkey_spec(self@), msg, self.sign_spec(msg))
    }

    fn sign(&self, msg: &[u8]) -> (r: Result<Vec<u8>, TextError>) {
        proof {
            use_type_invariant(self);
        }
        Ok(ed25519_sign(self.key.as_slice(), msg))
    }
}

impl KeyLoader for Ed25519Signer {
    open spec fn load_ok_spec(key: Seq<u8>) -> bool {
        key.len() == 32
    }

    open spec fn loaded_key_spec(key: Seq<u8>) -> Seq<u8> {
        key
    }

    fn load(key: &[u8]) -> (r: Result<Self, TextError>) {
        Ed25519Signer::try_new(key)
    }
}

impl KeyGenerator for Ed25519Signer {
    open spec fn generated_ok_spec(keys: Seq<Seq<u8>>) -> bool {
        &&& keys.len() == 2
        &&& keys[0].len() == 32
        &&& keys[1].len() == 32
        &&& keys[1] == ed25519_pubkey_spec(keys[0])
        &&& ed25519_valid_pubkey(keys[1])
    }

    /// A fresh pair from the operating system's secure random source: the
    /// secret key first, then the public key derived from it.
    fn generate() -> (r: Result<Vec<Vec<u8>>, TextError>) {
        let (sk, pk) = ed25519_generate_keypair();
        let ghost sk_view = sk@;
        let ghost pk_view = pk@;
        let mut keys: Vec<Vec<u8>> = Vec::new();
        keys.push(sk);
        keys.push(pk);
        proof {
            assert(keys.deep_view().len() == 2);
            assert(keys.deep_view()[0] =~= sk_view);
            assert(keys.deep_view()[1] =~= pk_view);
        }
        Ok(keys)
    }
}

/// The asymmetric verifier: holds a 32-byte Ed25519 public key, checked to
/// be a valid curve point when constructed.
pub struct Ed25519Verifier {
    key: Vec<u8>,
}

impl Ed25519Verifier {
    /// The public key is exactly 32 bytes and decodes to a curve point.
    #[verifier::type_invariant]
    spec fn wf(self) -> bool {
        self.key@.len() == 32 && ed25519_valid_pubkey(self.key@)
    }

    /// Wrap a 32-byte public key as a verifier; the bytes must decode to a
    /// valid public key, as `try_new` checks.
    pub fn new(key: [u8; 32]) -> (r: Self)
        requires
            ed25519_valid_pubkey(key@),
        ensures
            r@ == key@,
    {
        Ed25519Verifier { key: slice_to_vec(key.as_slice()) }
    }

    /// Accept raw key bytes: exactly 32 bytes that decode to a valid public
    /// key, never truncated.
    pub fn try_new(key: &[u8]) -> (r: Result<Self, TextError>)
        ensures
            key@.len() == 32 && ed25519_valid_pubkey(key@) ==> (r matches Ok(v) && v@ == key@),
            !(key@.len() == 32 && ed25519_valid_pubkey(key@)) ==> (r matches Err(e) && e
                == TextError::KeyMaterial),
    {
        if key.len() != 32 {
            Err(TextError::KeyMaterial)
        } else if !ed25519_check_pubkey(key) {
            Err(TextError::KeyMaterial)
        } else {
            Ok(Ed25519Verifier::new(bytes32_of(key)))
        }
    }
}

impl View for Ed25519Verifier {
    type V = Seq<u8>;

    /// The 32-byte public key this verifier holds.
    closed spec fn view(&self) -> Seq<u8> {
        self.key@
    }
}

impl TextVerify for Ed25519Verifier {
    open spec fn sig_len_spec(&self) -> int {
        64
    }

    open spec fn verify_spec(&self, msg: Seq<u8>, sig: Seq<u8>) -> bool {
        ed25519_verify_spec(self@, msg, sig)
    }

    fn verify(&self, msg: &[u8], sig: &[u8]) -> (r: Result<bool, TextError>) {
        proof {
            use_type_invariant(self);
        }
        if sig.len() != 64 {
            return Err(TextError::SignatureLength);
        }
        Ok(ed25519_verify(self.key.as_slice(), msg, sig))
    }
}

impl KeyLoader for Ed25519Verifier {
    open spec fn load_ok_spec(key: Seq<u8>) -> bool {
        key.len() == 32 && ed25519_valid_pubkey(key)
    }

    open spec fn loaded_key_spec(key: Seq<u8>) -> Seq<u8> {
        key
    }

    fn load(key: &[u8]) -> (r: Result<Self, TextError>) {
        Ed25519Verifier::try_new(key)
    }
}

/// The raw signature bytes a scheme assigns to a message for given raw
/// key-file bytes — what the sign model encodes and the verify model
/// compares.
pub open spec fn raw_signature_model(msg: Seq<u8>, key: Seq<u8>, format: TextSignFormat) -> Seq<
    u8,
> {
    match format {
        TextSignFormat::Blake3 => blake3_keyed_hash_spec(key.take(32), msg),
        TextSignFormat::Ed25519 => ed25519_sign_spec(key, msg),
    }
}

/// The fixed signature byte length of each scheme.
pub open spec fn signature_len_of(format: TextSignFormat) -> int {
    match format {
        TextSignFormat::Blake3 => 32,
        TextSignFormat::Ed25519 => 64,
    }
}

/// What signing a message returns for given raw key-file bytes and
/// algorithm tag: the URL-safe, unpadded base64 text of the scheme's
/// signature, or the error for malformed key material.
pub open spec fn text_sign_model(msg: Seq<u8>, key: Seq<u8>, format: TextSignFormat) -> Result<
    Seq<char>,
    TextError,
> {
    match format {
        TextSignFormat::Blake3 => if key.len() >= 32 {
            Ok(b64url_encode_spec(blake3_keyed_hash_spec(key.take(32), msg)))
        } else {
            Err(TextError::KeyMaterial)
        },
        TextSignFormat::Ed25519 => if key.len() == 32 {
            Ok(b64url_encode_spec(ed25519_sign_spec(key, msg)))
        } else {
            Err(TextError::KeyMaterial)
        },
    }
}

/// What verifying a signature text returns for given raw key-file bytes and
/// algorithm tag. The text is trimmed and base64-decoded first: a decode
/// failure is an encoding error, whatever the key; then bad key material,
/// then a wrong signature length, are errors; a mismatched signature is a
/// plain `false`.
pub open spec fn text_verify_model(
    msg: Seq<u8>,
    key: Seq<u8>,
    format: TextSignFormat,
    sig_text: Seq<char>,
) -> Result<bool, TextError> {
    match b64url_decode_spec(trim_spec(sig_text)) {
        Option::None => Err(TextError::Encoding),
        Option::Some(sig) => match format {
            TextSignFormat::Blake3 => if key.len() < 32 {
                Err(TextError::KeyMaterial)
            } else if sig.len() != 32 {
                Err(TextError::SignatureLength)
            } else {
                Ok(sig == blake3_keyed_hash_spec(key.take(32), msg))
            },
            TextSignFormat::Ed25519 => if !(key.len() == 32 && ed25519_valid_pubkey(key)) {
                Err(TextError::KeyMaterial)
            } else if sig.len() != 64 {
                Err(TextError::SignatureLength)
            } else {
                Ok(ed25519_verify_spec(key, msg, sig))
            },
        },
    }
}

/// Sign a full message with the key loaded from raw key-file bytes, and
/// return the signature as URL-safe, unpadded base64 text. The extra
/// clauses carry what a later verification of the returned text needs:
/// trimming and decoding the text gives back the scheme's raw signature, of
/// the scheme's fixed length, and for the asymmetric scheme that signature
/// is accepted under the public key derived from the secret key.
pub fn process_text_sign(msg: &[u8], key: &[u8], format: TextSignFormat) -> (r: Result<
    String,
    TextError,
>)
    ensures
        r matches Ok(s) ==> text_sign_model(msg@, key@, format) == Ok::<Seq<char>, TextError>(s@),
        r matches Err(e) ==> text_sign_model(msg@, key@, format) == Err::<Seq<char>, TextError>(e),
        r matches Ok(s) ==> b64url_decode_spec(trim_spec(s@)) == Some(
            raw_signature_model(msg@, key@, format),
        ),
        r is Ok ==> raw_signature_model(msg@, key@, format).len() == signature_len_of(format),
        r is Ok && format is Ed25519 ==> ed25519_verify_spec(
            ed25519_pubkey_spec(key@),
            msg@,
            raw_signature_model(msg@, key@, format),
        ),
{
    let signature = match format {
        TextSignFormat::Blake3 => {
            let signer = match Blake3::load(key) {
                Ok(signer) => signer,
                Err(e) => {
                    return Err(e);
                },
            };
            match signer.sign(msg) {
                Ok(sig) => sig,
                Err(e) => {
                    return Err(e);
                },
            }
        },
        TextSignFormat::Ed25519 => {
            let signer = match Ed25519Signer::load(key) {
                Ok(signer) => signer,
                Err(e) => {
                    return Err(e);
                },
            };
            match signer.sign(msg) {
                Ok(sig) => sig,
                Err(e) => {
                    return Err(e);
                },
            }
        },
    };
    Ok(b64url_encode(signature.as_slice()))
}

/// Verify a base64 signature text over a full message with the key loaded
/// from raw key-file bytes. A signature that does not match is a `false`
/// result, not an error; a trimmed text with any character outside the
/// URL-safe base64 alphabet is an encoding error, whatever the key.
pub fn process_text_verify(msg: &[u8], key: &[u8], format: TextSignFormat, sig: &str) -> (r: Result<
    bool,
    TextError,
>)
    ensures
        r == text_verify_model(msg@, key@, format, sig@),
        (exists|i: int|
            0 <= i < trim_spec(sig@).len() && !is_b64url_char(#[trigger] trim_spec(sig@)[i]))
            ==> r == Err::<bool, TextError>(TextError::Encoding),
{
    let trimmed = trim_str(sig);
    let decoded = match b64url_decode(trimmed) {
        Option::Some(d) => d,
        Option::None => {
            return Err(TextError::Encoding);
        },
    };
    match format {
        TextSignFormat::Blake3 => {
            match Blake3::load(key) {
                Ok(verifier) => verifier.verify(msg, decoded.as_slice()),
                Err(e) => Err(e),
            }
        },
        TextSignFormat::Ed25519 => {
            match Ed25519Verifier::load(key) {
                Ok(verifier) => verifier.verify(msg, decoded.as_slice()),
                Err(e) => Err(e),
            }
        },
    }
}

/// Generate fresh key material for the selected algorithm: one buffer (the
/// 32-byte secret) for the symmetric scheme, two buffers (secret key first,
/// then public key) for the asymmetric scheme.
pub fn process_text_generate(format: TextSignFormat) -> (r: Result<Vec<Vec<u8>>, TextError>)
    ensures
        format is Blake3 ==> (r matches Ok(keys) && <Blake3 as KeyGenerator>::generated_ok_spec(
            keys.deep_view(),
        )),
        format is Ed25519 ==> (r matches Ok(keys)
            && <Ed25519Signer as KeyGenerator>::generated_ok_spec(keys.deep_view())),
{
    match format {
        TextSignFormat::Blake3 => Blake3::generate(),
        TextSignFormat::Ed25519 => Ed25519Signer::generate(),
    }
}

/// Round-trip law at the orchestration level: a signature text just
/// produced for a message verifies as `true` under the matching key — the
/// same key file for the symmetric scheme, the derived public key for the
/// asymmetric one. The facts required of the text are exactly those the
/// sign function's contract supplies; the validity of the derived public
/// key is what the generator's contract supplies.
pub proof fn lemma_process_round_trip(
    msg: Seq<u8>,
    key: Seq<u8>,
    vkey: Seq<u8>,
    format: TextSignFormat,
    s: Seq<char>,
)
    requires
        text_sign_model(msg, key, format) == Ok::<Seq<char>, TextError>(s),
        b64url_decode_spec(trim_spec(s)) == Some(raw_signature_model(msg, key, format)),
        raw_signature_model(msg, key, format).len() == signature_len_of(format),
        format is Ed25519 ==> ed25519_verify_spec(
            ed25519_pubkey_spec(key),
            msg,
            raw_signature_model(msg, key, format),
        ),
        match format {
            TextSignFormat::Blake3 => vkey == key,
            TextSignFormat::Ed25519 => vkey == ed25519_pubkey_spec(key) && vkey.len() == 32
                && ed25519_valid_pubkey(vkey),
        },
    ensures
        text_verify_model(msg, vkey, format, s) == Ok::<bool, TextError>(true),
{
}

/// Round-trip law, symmetric scheme: the digest a blake3 signer produces
/// for a message is exactly what the same key's verifier accepts.
pub proof fn lemma_blake3_round_trip(b: Blake3, msg: Seq<u8>)
    ensures
        b.verify_spec(msg, b.sign_spec(msg)),
{
}

/// Round-trip law, asymmetric scheme: a fresh signature (which `sign`
/// guarantees satisfies the signing key's round-trip relation) satisfies
/// the verify relation of the verifier holding the paired public key.
pub proof fn lemma_ed25519_round_trip(
    signer: Ed25519Signer,
    verifier: Ed25519Verifier,
    msg: Seq<u8>,
    sig: Seq<u8>,
)
    requires
        sig == signer.sign_spec(msg),
        signer.sign_verifies_spec(msg),
        verifier@ == ed25519_pubkey_spec(signer@),
    ensures
        verifier.verify_spec(msg, sig),
{
}

/// Negative law, symmetric scheme: a signature of the right length that
/// differs from the true digest in any one position is rejected — a `false`
/// verdict, not an error.
pub proof fn lemma_blake3_reject_altered(b: Blake3, msg: Seq<u8>, sig: Seq<u8>, i: int)
    requires
        sig.len() == b.sign_spec(msg).len(),
        0 <= i < sig.len(),
        sig[i] != b.sign_spec(msg)[i],
    ensures
        !b.verify_spec(msg, sig),
{
}

} // verus!
