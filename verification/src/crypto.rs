//! The cryptographic and encoding primitives this library calls, with what each is trusted to do.
//!
//! Nothing here is proved: every item states what its crate's source shows, and the verified
//! modules prove their own contracts from these statements.

use vstd::prelude::*;

use base64ct::Encoding as _;
use hmac::Mac as _;
use sha2::Digest as _;

verus! {

// ---------------------------------------------------------------------------------------------
// Outside types carried through the verified code
// ---------------------------------------------------------------------------------------------
#[verifier::external_type_specification]
#[verifier::external_body]
pub struct ExBase64Error(base64ct::Error);

#[verifier::external_type_specification]
#[verifier::external_body]
pub struct ExVerifyingKey(ed25519_dalek::VerifyingKey);

#[verifier::external_type_specification]
#[verifier::external_body]
pub struct ExSignature(ed25519_dalek::Signature);

#[verifier::external_type_specification]
#[verifier::external_body]
pub struct ExSignatureError(ed25519_dalek::SignatureError);

#[verifier::external_type_specification]
#[verifier::external_body]
pub struct ExRandomError(getrandom::Error);

#[verifier::external_type_specification]
#[verifier::external_body]
pub struct ExMacError(hmac::digest::MacError);

#[verifier::external_type_specification]
#[verifier::external_body]
pub struct ExInvalidLength(hmac::digest::InvalidLength);

// ---------------------------------------------------------------------------------------------
// Names for what the outside functions compute
// ---------------------------------------------------------------------------------------------
/// The bytes that URL-safe unpadded Base64 text spells, when it spells any.
pub uninterp spec fn base64url_decode(text: Seq<char>) -> Option<Seq<u8>>;

/// The URL-safe unpadded Base64 text of a byte string.
pub uninterp spec fn base64url_encode(bytes: Seq<u8>) -> Seq<char>;

/// The SHA-256 digest of a byte string.
pub uninterp spec fn sha256(bytes: Seq<u8>) -> Seq<u8>;

/// HMAC-SHA-256 of a message under a key.
pub uninterp spec fn hmac_sha256(key: Seq<u8>, message: Seq<u8>) -> Seq<u8>;

/// Whether 32 bytes decompress to an Edwards point, which Ed25519 demands of a public key.
pub uninterp spec fn ed25519_point_valid(bytes: Seq<u8>) -> bool;

/// Whether strict Ed25519 verification accepts a signature over a message under a public key.
pub uninterp spec fn ed25519_accepts(public_key: Seq<u8>, message: Seq<u8>, signature: Seq<u8>) -> bool;

/// Length of unpadded Base64 for `n` input bytes.
pub open spec fn base64_unpadded_len(n: nat) -> nat {
    ((4 * n) / 3 + (if (4 * n) % 3 != 0 { 1nat } else { 0nat })) as nat
}

// ---------------------------------------------------------------------------------------------
// Base64
// ---------------------------------------------------------------------------------------------
/// Decode URL-safe unpadded Base64.
///
/// Trusted: `base64ct::Base64UrlUnpadded::decode_vec`. It returns the bytes the text spells, or
/// an error exactly when the text spells none; which texts spell which bytes is named, not stated.
#[verifier::external_body]
pub(crate) fn base64url_decode_vec(text: &str) -> (r: Result<Vec<u8>, base64ct::Error>)
    ensures
        match r {
            Ok(bytes) => base64url_decode(text@) == Some(bytes@),
            Err(_) => base64url_decode(text@) is None,
        },
{
    base64ct::Base64UrlUnpadded::decode_vec(text)
}

/// Encode bytes as URL-safe unpadded Base64.
///
/// Trusted: `base64ct::Base64UrlUnpadded::encode_string`, which panics when `4 * len` overflows
/// (hence the `requires`). Its output is ASCII of the unpadded length its source computes, and
/// decoding it gives back the input, as any RFC 4648 codec does.
#[verifier::external_body]
pub(crate) fn base64url_encode_string(bytes: &[u8]) -> (r: String)
    requires
        4 * bytes@.len() <= usize::MAX,
    ensures
        r@ == base64url_encode(bytes@),
        r@.len() == base64_unpadded_len(bytes@.len()),
        vstd::utf8::is_ascii_chars(r@),
        base64url_decode(r@) == Some(bytes@),
{
    base64ct::Base64UrlUnpadded::encode_string(bytes)
}

// ---------------------------------------------------------------------------------------------
// SHA-256 and HMAC-SHA-256
// ---------------------------------------------------------------------------------------------
/// SHA-256 of a byte string.
///
/// Trusted: `sha2::Sha256::digest`, whose output is the 32-byte digest of its input.
#[verifier::external_body]
pub(crate) fn sha256_digest(data: &[u8]) -> (r: [u8; 32])
    ensures
        r@ == sha256(data@),
{
    sha2::Sha256::digest(data).into()
}

/// A keyed HMAC-SHA-256 computation in progress.
///
/// Its state is opaque; what it stands for is the key it was made with and the bytes it has
/// absorbed since, named by `authenticator_key` and `authenticator_input`.
#[verifier::external_body]
pub struct Authenticator {
    inner: hmac::Hmac<sha2::Sha256>,
}

/// The key an authenticator was made with.
pub uninterp spec fn authenticator_key(mac: Authenticator) -> Seq<u8>;

/// Everything an authenticator has absorbed since it was made.
pub uninterp spec fn authenticator_input(mac: Authenticator) -> Seq<u8>;

/// Make an authenticator with the given key.
///
/// Trusted: `Mac::new_from_slice` for `Hmac<Sha256>`; HMAC accepts a key of any length, and
/// the source of `HmacCore::new_from_slice` never returns an error.
#[verifier::external_body]
pub(crate) fn authenticator_new(key: &[u8]) -> (r: Result<Authenticator, hmac::digest::InvalidLength>)
    ensures
        r is Ok,
        authenticator_key(r->Ok_0) == key@,
        authenticator_input(r->Ok_0) == Seq::<u8>::empty(),
{
    hmac::Hmac::<sha2::Sha256>::new_from_slice(key).map(|inner| Authenticator { inner })
}

/// A copy of an authenticator in the same state.
///
/// Trusted: `Clone` for `Hmac<Sha256>`, which copies the keyed state and absorbed input.
#[verifier::external_body]
pub(crate) fn authenticator_clone(mac: &Authenticator) -> (r: Authenticator)
    ensures
        authenticator_key(r) == authenticator_key(*mac),
        authenticator_input(r) == authenticator_input(*mac),
{
    Authenticator { inner: mac.inner.clone() }
}

/// Absorb more input.
///
/// Trusted: `Mac::update`, which appends `data` to the authenticated message.
#[verifier::external_body]
pub(crate) fn authenticator_update(mac: &mut Authenticator, data: &[u8])
    ensures
        authenticator_key(*final(mac)) == authenticator_key(*old(mac)),
        authenticator_input(*final(mac)) == authenticator_input(*old(mac)) + data@,
{
    mac.inner.update(data);
}

/// The 32-byte tag of everything absorbed.
///
/// Trusted: `Mac::finalize`, whose output is HMAC-SHA-256 of the absorbed message under the key.
#[verifier::external_body]
pub(crate) fn authenticator_finalize(mac: Authenticator) -> (r: [u8; 32])
    ensures
        r@ == hmac_sha256(authenticator_key(mac), authenticator_input(mac)),
{
    mac.inner.finalize().into_bytes().into()
}

/// Check a tag against everything absorbed.
///
/// Trusted: `Mac::verify_slice`, which accepts exactly the full 32-byte tag of the absorbed
/// message (a shorter or longer tag is refused by its length check).
#[verifier::external_body]
pub(crate) fn authenticator_verify_slice(mac: Authenticator, tag: &[u8]) -> (r: Result<
    (),
    hmac::digest::MacError,
>)
    ensures
        r is Ok <==> tag@ == hmac_sha256(authenticator_key(mac), authenticator_input(mac)),
{
    mac.inner.verify_slice(tag)
}

// ---------------------------------------------------------------------------------------------
// Ed25519
// ---------------------------------------------------------------------------------------------
/// An Ed25519 public key, with the 32 bytes it was read from.
pub struct Ed25519PublicKey {
    bytes: [u8; 32],
    key: ed25519_dalek::VerifyingKey,
}

impl View for Ed25519PublicKey {
    type V = Seq<u8>;

    closed spec fn view(&self) -> Seq<u8> {
        self.bytes@
    }
}

/// An Ed25519 signature, with the bytes it was read from.
pub struct Ed25519Signature {
    bytes: Vec<u8>,
    signature: ed25519_dalek::Signature,
}

impl View for Ed25519Signature {
    type V = Seq<u8>;

    closed spec fn view(&self) -> Seq<u8> {
        self.bytes@
    }
}

/// Read an Ed25519 public key.
///
/// Trusted: `ed25519_dalek::VerifyingKey::from_bytes`, which succeeds exactly when the bytes
/// decompress to a curve point; the key keeps the bytes it was read from.
#[verifier::external_body]
pub(crate) fn ed25519_verifying_key(bytes: &[u8; 32]) -> (r: Result<Ed25519PublicKey, ed25519_dalek::SignatureError>)
    ensures
        r is Ok <==> ed25519_point_valid(bytes@),
        r matches Ok(key) ==> key@ == bytes@,
{
    match ed25519_dalek::VerifyingKey::from_bytes(bytes) {
        Ok(key) => Ok(Ed25519PublicKey { bytes: *bytes, key }),
        Err(error) => Err(error),
    }
}

/// Read an Ed25519 signature.
///
/// Trusted: `ed25519_dalek::Signature::from_slice`, which refuses exactly the inputs that are
/// not 64 bytes long; the signature keeps the bytes it was read from.
#[verifier::external_body]
pub(crate) fn ed25519_signature(bytes: &[u8]) -> (r: Result<Ed25519Signature, ed25519_dalek::SignatureError>)
    ensures
        r is Ok <==> bytes@.len() == 64,
        r matches Ok(signature) ==> signature@ == bytes@,
{
    match ed25519_dalek::Signature::from_slice(bytes) {
        Ok(signature) => Ok(Ed25519Signature { bytes: bytes.to_vec(), signature }),
        Err(error) => Err(error),
    }
}

/// Strict Ed25519 verification of a message.
///
/// Trusted: `ed25519_dalek::VerifyingKey::verify_strict`, a function of the key's bytes, the
/// message and the signature's bytes alone; which triples it accepts is named, not stated.
#[verifier::external_body]
pub(crate) fn ed25519_verify_strict(
    key: &Ed25519PublicKey,
    message: &[u8],
    signature: &Ed25519Signature,
) -> (r: Result<(), ed25519_dalek::SignatureError>)
    ensures
        r is Ok <==> ed25519_accepts(key@, message@, signature@),
{
    key.key.verify_strict(message, &signature.signature)
}

// ---------------------------------------------------------------------------------------------
// Operating-system randomness
// ---------------------------------------------------------------------------------------------
/// Fill a buffer from the operating system's random source.
///
/// Trusted: `getrandom::fill`. The bytes depend on chance, so nothing is stated of them.
#[verifier::external_body]
pub(crate) fn random_fill<const N: usize>(dest: &mut [u8; N]) -> (r: Result<(), getrandom::Error>) {
    getrandom::fill(dest)
}

} // verus!
