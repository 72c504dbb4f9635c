//! The key pair that tokens are signed and checked with.
use vstd::prelude::*;
use vstd::string::*;

verus! {

/// Whether `c` is an ASCII letter or digit.
pub open spec fn is_alphanumeric(c: char) -> bool {
    ('a' <= c && c <= 'z') || ('A' <= c && c <= 'Z') || ('0' <= c && c <= '9')
}

/// Whether the byte `b` is an ASCII letter or digit.
pub open spec fn is_alphanumeric_byte(b: u8) -> bool {
    (97 <= b && b <= 122) || (65 <= b && b <= 90) || (48 <= b && b <= 57)
}

/// Whether `s` is a secret that `Key::generate` may draw: 60 ASCII letters
/// and digits.
pub open spec fn is_generated_secret(s: Seq<u8>) -> bool {
    s.len() == 60 && forall|i: int| 0 <= i < 60 ==> is_alphanumeric_byte(#[trigger] s[i])
}

/// The signing key `jsonwebtoken` makes of the secret `secret`.
pub uninterp spec fn encoding_key_of(secret: Seq<u8>) -> jsonwebtoken::EncodingKey;

/// The checking key `jsonwebtoken` makes of the secret `secret`.
pub uninterp spec fn decoding_key_of(secret: Seq<u8>) -> jsonwebtoken::DecodingKey;

/// Calls `EncodingKey::from_secret` of `jsonwebtoken`, which copies the
/// secret into the key: the key is the one named for these bytes.
#[verifier::external_body]
fn encoding_key_from_secret(secret: &[u8]) -> (r: jsonwebtoken::EncodingKey)
    ensures
        r == encoding_key_of(secret@),
{
    jsonwebtoken::EncodingKey::from_secret(secret)
}

/// Calls `DecodingKey::from_secret` of `jsonwebtoken`, which copies the
/// secret into the key: the key is the one named for these bytes.
#[verifier::external_body]
fn decoding_key_from_secret(secret: &[u8]) -> (r: jsonwebtoken::DecodingKey)
    ensures
        r == decoding_key_of(secret@),
{
    jsonwebtoken::DecodingKey::from_secret(secret)
}

/// Calls `SeedableRng::from_rng` of `rand` on the operating system's
/// generator `OsRng`, which fills the seed with `try_fill_bytes` and hands
/// back its error instead of panicking: `None` when the operating system
/// gave no random bytes. Nothing is claimed of which of the two happens, nor
/// of the seed.
#[verifier::external_body]
fn seeded_rng() -> (r: Option<rand::rngs::StdRng>) {
    <rand::rngs::StdRng as rand::SeedableRng>::from_rng(rand::rngs::OsRng).ok()
}

/// Draws `len` characters from `rng` with `rand`'s `Alphanumeric`
/// distribution. The contract claims what the source gives of every
/// outcome: `len` characters, each an ASCII letter or digit.
#[verifier::external_body]
fn sample_alphanumeric(rng: &mut rand::rngs::StdRng, len: usize) -> (r: String)
    ensures
        r@.len() == len,
        forall|i: int| 0 <= i < len ==> is_alphanumeric(#[trigger] r@[i]),
{
    rand::distributions::DistString::sample_string(&rand::distributions::Alphanumeric, rng, len)
}

/// The keys for one shared secret.
pub struct Key {
    pub encoding: jsonwebtoken::EncodingKey,
    pub decoding: jsonwebtoken::DecodingKey,
}

impl Key {
    /// The keys for the secret `secret`.
    pub fn new(secret: &[u8]) -> (r: Key)
        ensures
            r.encoding == encoding_key_of(secret@),
            r.decoding == decoding_key_of(secret@),
    {
        Key { encoding: encoding_key_from_secret(secret), decoding: decoding_key_from_secret(secret) }
    }

    /// A fresh random secret of 60 ASCII letters and digits, or `None` when
    /// the operating system gives no random bytes to seed the generator.
    pub fn random_secret() -> (r: Option<String>)
        ensures
            match r {
                Some(s) => s@.len() == 60 && forall|i: int|
                    0 <= i < 60 ==> is_alphanumeric(#[trigger] s@[i]),
                None => true,
            },
    {
        match seeded_rng() {
            Some(mut rng) => Some(sample_alphanumeric(&mut rng, 60)),
            None => None,
        }
    }

    /// The keys for a fresh random secret of 60 ASCII letters and digits,
    /// both made from that same secret; `None` when the operating system
    /// gives no random bytes.
    pub fn generate() -> (r: Option<Key>)
        ensures
            match r {
                Some(k) => exists|s: Seq<u8>|
                    is_generated_secret(s) && k.encoding == encoding_key_of(s) && k.decoding
                        == decoding_key_of(s),
                None => true,
            },
    {
        match Self::random_secret() {
            Some(secret) => {
                let text = secret.as_str();
                proof {
                    assert(is_ascii(text));
                    is_ascii_spec_bytes(text);
                }
                let bytes = text.as_bytes();
                let k = Self::new(bytes);
                assert(is_generated_secret(bytes@));
                Some(k)
            },
            None => None,
        }
    }
}

} // verus!
