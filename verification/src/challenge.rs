//! The random values that bind an authorization request to the exchange of
//! its code.

use vstd::prelude::*;
use vstd::utf8::encode_utf8;
use base64::Engine;
use rand::RngCore;
use sha2::Digest;

verus! {

/// The SHA-256 digest of `data`.
pub uninterp spec fn sha256_digest(data: Seq<u8>) -> Seq<u8>;

/// The text of `data` in base64 with the URL-safe alphabet and no padding.
pub uninterp spec fn base64url_text(data: Seq<u8>) -> Seq<char>;

/// Whether `base64` can encode `length` bytes: the length of the text must
/// fit the machine's word.
pub open spec fn encodable_length(length: nat) -> bool {
    length / 3 * 4 + 3 <= usize::MAX
}

/// Overwrites `dest` with random bytes: `fill_bytes` of `rand`'s thread-local
/// generator. Nothing is claimed of the bytes; the length stays as it was.
/// The generator seeds itself from the operating system and needs it to
/// have a source of randomness.
#[verifier::external_body]
fn fill_random(dest: &mut Vec<u8>)
    ensures
        final(dest).len() == old(dest).len(),
{
    rand::thread_rng().fill_bytes(dest.as_mut_slice());
}

/// `Sha256::digest` of `sha2`: the digest of `data`, which has 32 bytes.
#[verifier::external_body]
fn sha256_hash(data: &[u8]) -> (digest: Vec<u8>)
    ensures
        digest@ == sha256_digest(data@),
        digest.len() == 32,
{
    sha2::Sha256::digest(data).to_vec()
}

/// `encode` of `base64`'s engine `URL_SAFE_NO_PAD`: the text of `data`. The
/// engine refuses a length whose text would not fit the machine's word.
#[verifier::external_body]
fn base64_url_encode(data: &[u8]) -> (text: String)
    requires
        encodable_length(data@.len()),
    ensures
        text@ == base64url_text(data@),
{
    base64::engine::general_purpose::URL_SAFE_NO_PAD.encode(data)
}

/// The values of one exchange. They are made anew for each exchange and
/// never stored.
#[derive(Debug, Clone, PartialEq, Eq)]
pub struct ChallengeParameters {
    /// Random bytes, as text.
    pub verifier: String,
    /// The digest of the verifier's text, as text.
    pub challenge: String,
    /// More random bytes, as text.
    pub state: String,
}

/// Whether `parameters` are the ones made from the random bytes
/// `verifier_bytes` and `state_bytes`. The challenge is the digest of the
/// verifier as it is sent, that is of the bytes of its text, with no
/// transform in between.
pub open spec fn made_from(
    parameters: ChallengeParameters,
    verifier_bytes: Seq<u8>,
    state_bytes: Seq<u8>,
) -> bool {
    &&& parameters.verifier@ == base64url_text(verifier_bytes)
    &&& parameters.challenge@ == base64url_text(
        sha256_digest(encode_utf8(parameters.verifier@)),
    )
    &&& parameters.state@ == base64url_text(state_bytes)
}

/// The number of random bytes in a verifier.
pub const VERIFIER_BYTES: usize = 32;

/// The number of random bytes in a state.
pub const STATE_BYTES: usize = 42;

/// The text of `length` random bytes.
pub fn generate_random_string(length: usize) -> (text: String)
    requires
        encodable_length(length as nat),
    ensures
        exists|bytes: Seq<u8>| bytes.len() == length && text@ == #[trigger] base64url_text(bytes),
{
    let mut bytes: Vec<u8> = vec![0u8; length];
    fill_random(&mut bytes);
    base64_url_encode(bytes.as_slice())
}

/// The parameters made from the given random bytes.
pub fn parameters_from_entropy(verifier_bytes: &[u8], state_bytes: &[u8]) -> (parameters:
    ChallengeParameters)
    requires
        encodable_length(verifier_bytes@.len()),
        encodable_length(state_bytes@.len()),
    ensures
        made_from(parameters, verifier_bytes@, state_bytes@),
{
    let verifier = base64_url_encode(verifier_bytes);
    let digest = sha256_hash(verifier.as_str().as_bytes());
    let challenge = base64_url_encode(digest.as_slice());
    let state = base64_url_encode(state_bytes);
    ChallengeParameters { verifier, challenge, state }
}

/// Fresh parameters: a verifier of 32 random bytes, its challenge, and a
/// state of 42 random bytes.
pub fn generate_parameters() -> (parameters: ChallengeParameters)
    ensures
        exists|verifier_bytes: Seq<u8>, state_bytes: Seq<u8>|
            verifier_bytes.len() == VERIFIER_BYTES && state_bytes.len() == STATE_BYTES
                && #[trigger] made_from(parameters, verifier_bytes, state_bytes),
{
    let mut verifier_bytes: Vec<u8> = vec![0u8; VERIFIER_BYTES];
    fill_random(&mut verifier_bytes);
    let mut state_bytes: Vec<u8> = vec![0u8; STATE_BYTES];
    fill_random(&mut state_bytes);
    let parameters = parameters_from_entropy(verifier_bytes.as_slice(), state_bytes.as_slice());
    assert(made_from(parameters, verifier_bytes@, state_bytes@));
    parameters
}

} // verus!
