//! Proof Key for Code Exchange: the verifier and its challenge.
//!
//! The verifier is 32 random bytes in URL-safe base64 without padding. The
//! challenge is the SHA-256 digest of the verifier's text in the same
//! encoding. Hashing, encoding and the random source are those of the `sha2`,
//! `base64` and `rand` crates; what they return is named here, not redefined.

use vstd::prelude::*;

use base64::engine::general_purpose::URL_SAFE_NO_PAD;
use base64::Engine;
use sha2::{Digest, Sha256};
use vstd::utf8::encode_utf8;

verus! {

/// Number of random bytes behind a verifier.
pub const ENTROPY_BYTES: usize = 32;

/// The URL-safe base64 text, without padding, that `base64` gives for `bytes`.
pub uninterp spec fn base64url_nopad(bytes: Seq<u8>) -> Seq<char>;

/// The SHA-256 digest that `sha2` gives for `data`.
pub uninterp spec fn sha256(data: Seq<u8>) -> Seq<u8>;

/// Whether `c` belongs to the URL-safe base64 alphabet: a letter, a digit,
/// `-` or `_`.
pub open spec fn is_base64url_char(c: char) -> bool {
    let n = c as u32;
    ||| 0x41 <= n <= 0x5a
    ||| 0x61 <= n <= 0x7a
    ||| 0x30 <= n <= 0x39
    ||| n == 0x2d
    ||| n == 0x5f
}

/// Whether every character of `text` belongs to the URL-safe base64 alphabet.
pub open spec fn is_base64url_text(text: Seq<char>) -> bool {
    forall|i: int| 0 <= i < text.len() ==> is_base64url_char(#[trigger] text[i])
}

/// Length of the unpadded base64 text for `n` bytes: four characters for
/// every full group of three bytes, two for one byte left over, three for two.
pub open spec fn base64_nopad_len(n: nat) -> nat {
    (4 * n + 2) / 3
}

/// The challenge that belongs to `verifier`.
pub open spec fn challenge_of(verifier: Seq<char>) -> Seq<char> {
    base64url_nopad(sha256(encode_utf8(verifier)))
}

/// Whether a pair is one that generation can produce: its verifier encodes
/// some 32 bytes, and its challenge is the challenge of that verifier.
pub open spec fn is_generated_pair(pkce: PkceView) -> bool {
    &&& exists|entropy: Seq<u8>|
        entropy.len() == ENTROPY_BYTES && pkce.verifier == #[trigger] base64url_nopad(entropy)
    &&& pkce.challenge == challenge_of(pkce.verifier)
}

/// Calls `Engine::encode` on `base64`'s `URL_SAFE_NO_PAD` engine. The result
/// is a function of the bytes alone; it has the unpadded length and uses only
/// the URL-safe alphabet. The call panics when the encoded length overflows
/// or is more than a buffer can hold, which the precondition rules out.
#[verifier::external_body]
fn encode_base64url(bytes: &[u8]) -> (text: String)
    requires
        bytes@.len() <= isize::MAX / 4 * 3,
    ensures
        text@ == base64url_nopad(bytes@),
        text@.len() == base64_nopad_len(bytes@.len()),
        is_base64url_text(text@),
{
    URL_SAFE_NO_PAD.encode(bytes)
}

/// Calls `Digest::digest` of `sha2::Sha256`. The result is a function of the
/// data alone and is 32 bytes long.
#[verifier::external_body]
fn sha256_digest(data: &[u8]) -> (digest: [u8; 32])
    ensures
        digest@ == sha256(data@),
{
    Sha256::digest(data).into()
}

/// Calls `rand::random`, which draws from the thread-local cryptographically
/// secure generator. Every call may return other bytes, so nothing is claimed
/// of the result beyond its type. If the system's entropy source fails, the
/// generator panics: that failure is fatal and is not reported as an error.
#[verifier::external_body]
fn random_entropy() -> (entropy: [u8; 32]) {
    rand::random()
}

/// Mathematical value of a [`PkceChallenge`].
pub struct PkceView {
    pub verifier: Seq<char>,
    pub challenge: Seq<char>,
}

/// A verifier together with the challenge derived from it. The two are made
/// together and never change.
#[derive(Debug, PartialEq, Eq)]
pub struct PkceChallenge {
    verifier: String,
    challenge: String,
}

impl View for PkceChallenge {
    type V = PkceView;

    closed spec fn view(&self) -> PkceView {
        PkceView { verifier: self.verifier@, challenge: self.challenge@ }
    }
}

/// The challenge for `verifier`: the SHA-256 digest of its UTF-8 bytes in
/// URL-safe base64 without padding, 43 characters long.
pub fn challenge_for(verifier: &str) -> (challenge: String)
    ensures
        challenge@ == challenge_of(verifier@),
        challenge@.len() == 43,
        is_base64url_text(challenge@),
{
    let digest = sha256_digest(verifier.as_bytes());
    encode_base64url(digest.as_slice())
}

impl PkceChallenge {
    /// Every pair carries the challenge of its own verifier, which is 43
    /// characters of the URL-safe alphabet.
    #[verifier::type_invariant]
    closed spec fn bound(&self) -> bool {
        &&& self.challenge@ == challenge_of(self.verifier@)
        &&& self.challenge@.len() == 43
        &&& is_base64url_text(self.challenge@)
    }

    /// The pair for a given verifier.
    pub fn from_verifier(verifier: String) -> (pkce: PkceChallenge)
        ensures
            pkce@ == (PkceView { verifier: verifier@, challenge: challenge_of(verifier@) }),
            pkce@.challenge.len() == 43,
            is_base64url_text(pkce@.challenge),
    {
        let challenge = challenge_for(verifier.as_str());
        PkceChallenge { verifier, challenge }
    }

    /// The pair whose verifier encodes `entropy`.
    pub fn from_entropy(entropy: &[u8; 32]) -> (pkce: PkceChallenge)
        ensures
            pkce@.verifier == base64url_nopad(entropy@),
            pkce@.challenge == challenge_of(pkce@.verifier),
            pkce@.verifier.len() == 43,
            is_base64url_text(pkce@.verifier),
            pkce@.challenge.len() == 43,
            is_base64url_text(pkce@.challenge),
    {
        let verifier = encode_base64url(entropy.as_slice());
        PkceChallenge::from_verifier(verifier)
    }

    /// The secret kept by the client until the exchange.
    pub fn code_verifier(&self) -> (text: &str)
        ensures
            text@ == self@.verifier,
    {
        self.verifier.as_str()
    }

    /// The value sent with the authorization request. It is always the
    /// challenge of this pair's verifier, and can stand in a URL as it is.
    pub fn challenge(&self) -> (text: &str)
        ensures
            text@ == self@.challenge,
            text@ == challenge_of(self@.verifier),
            text@.len() == 43,
            is_base64url_text(text@),
    {
        proof {
            use_type_invariant(self);
        }
        self.challenge.as_str()
    }
}

/// Generates a fresh pair: 32 bytes from the secure random source become the
/// verifier, and the challenge is derived from it.
pub fn generate_pkce_challenge() -> (pkce: PkceChallenge)
    ensures
        is_generated_pair(pkce@),
        pkce@.verifier.len() == 43,
        is_base64url_text(pkce@.verifier),
        pkce@.challenge.len() == 43,
        is_base64url_text(pkce@.challenge),
{
    let entropy = random_entropy();
    PkceChallenge::from_entropy(&entropy)
}

/// Text of the URL-safe alphabet needs no escaping in a query string: it
/// holds none of the characters that end or split a parameter, start a
/// fragment, or introduce an escape.
pub proof fn lemma_base64url_text_is_query_safe(text: Seq<char>)
    requires
        is_base64url_text(text),
    ensures
        forall|i: int|
            0 <= i < text.len() ==> {
                let c = #[trigger] text[i];
                c != '&' && c != '=' && c != '#' && c != '%' && c != '+' && c != '?' && c != ' '
                    && c != '/'
            },
{
    assert forall|i: int| 0 <= i < text.len() implies {
        let c = #[trigger] text[i];
        c != '&' && c != '=' && c != '#' && c != '%' && c != '+' && c != '?' && c != ' ' && c != '/'
    } by {
        assert(is_base64url_char(text[i]));
    }
}

} // verus!
