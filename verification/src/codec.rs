//! The boundary to `base64`, `sha2` and `uuid`: the encodings and the entropy
//! behind login codes and configuration identities.
use base64::Engine;
use sha2::Digest;
use vstd::prelude::*;

verus! {

/// The URL-safe base64 text of some bytes, without padding.
pub uninterp spec fn base64url(bytes: Seq<u8>) -> Seq<char>;

/// The bytes of an unpadded URL-safe base64 text; `None` for any other text.
pub uninterp spec fn base64url_bytes(text: Seq<char>) -> Option<Seq<u8>>;

/// The SHA-256 digest of some bytes.
pub uninterp spec fn sha256_digest(bytes: Seq<u8>) -> Seq<u8>;

/// Whether a character may stand in a URL-safe base64 text.
pub open spec fn base64url_char(c: char) -> bool {
    'A' <= c <= 'Z' || 'a' <= c <= 'z' || '0' <= c <= '9' || c == '-' || c == '_'
}

/// `base64`'s `URL_SAFE_NO_PAD.encode`: the text that [`base64url`] names. It
/// has four characters for every three bytes, rounded up, all of the URL-safe
/// alphabet, and decoding it gives the bytes back.
#[verifier::external_body]
pub(crate) fn encode_base64url(bytes: &[u8]) -> (text: String)
    requires
        bytes@.len() <= 0x1000_0000,
    ensures
        text@ == base64url(bytes@),
        text@.len() == (4 * bytes@.len() + 2) / 3,
        forall|i: int| 0 <= i < text@.len() ==> #[trigger] base64url_char(text@[i]),
        base64url_bytes(text@) == Some(bytes@),
{
    base64::engine::general_purpose::URL_SAFE_NO_PAD.encode(bytes)
}

/// `base64`'s `URL_SAFE_NO_PAD.decode`: the bytes that [`base64url_bytes`]
/// names, and `None` where the text is no unpadded URL-safe base64.
#[verifier::external_body]
pub(crate) fn decode_base64url(text: &str) -> (decoded: Option<Vec<u8>>)
    ensures
        decoded is Some <==> base64url_bytes(text@) is Some,
        decoded matches Some(bytes) ==> base64url_bytes(text@) == Some(bytes@),
{
    base64::engine::general_purpose::URL_SAFE_NO_PAD.decode(text).ok()
}

/// `sha2::Sha256::digest`: the digest that [`sha256_digest`] names, 32 bytes.
#[verifier::external_body]
pub(crate) fn sha256(bytes: &[u8]) -> (digest: Vec<u8>)
    ensures
        digest@ == sha256_digest(bytes@),
        digest@.len() == 32,
{
    sha2::Sha256::digest(bytes).to_vec()
}

/// `uuid::Uuid::new_v4`: sixteen bytes of which six bits are those that mark a
/// random UUID. Nothing is claimed of the other bits: they are random.
#[verifier::external_body]
pub(crate) fn random_uuid() -> (bytes: [u8; 16])
    ensures
        bytes@[6] / 16 == 4,
        bytes@[8] / 64 == 2,
{
    uuid::Uuid::new_v4().into_bytes()
}

/// The URL-safe alphabet: letters of both cases, digits, the hyphen and the underscore.
pub proof fn the_url_safe_alphabet(c: char)
    ensures
        base64url_char(c)
            <==> "ABCDEFGHIJKLMNOPQRSTUVWXYZabcdefghijklmnopqrstuvwxyz0123456789-_"@.contains(c),
{
    reveal_strlit("ABCDEFGHIJKLMNOPQRSTUVWXYZabcdefghijklmnopqrstuvwxyz0123456789-_");
    let all = "ABCDEFGHIJKLMNOPQRSTUVWXYZabcdefghijklmnopqrstuvwxyz0123456789-_"@;
    assert(all.len() == 64);
    if 'A' <= c <= 'Z' {
        assert(all[c as int - 65] == c);
    } else if 'a' <= c <= 'z' {
        assert(all[c as int - 97 + 26] == c);
    } else if '0' <= c <= '9' {
        assert(all[c as int - 48 + 52] == c);
    } else if c == '-' {
        assert(all[62] == c);
    } else if c == '_' {
        assert(all[63] == c);
    }
}

} // verus!
