//! What the login flows share: endpoints on the login website, bounded
//! responses, and the credential that ends a login.
use crate::codec;
use crate::text;
use vstd::prelude::*;

verus! {

/// The most bytes that a login response may have.
pub const MAX_BODY: usize = 8192;

/// The most bytes that a connection key may have.
pub const MAX_KEY: usize = 4096;

/// An endpoint of the login website.
pub open spec fn endpoint_view(website: Seq<char>, path: Seq<char>) -> Seq<char> {
    text::without_trailing(website, '/') + path
}

/// An endpoint of the login website; slashes at its end do not matter.
pub fn endpoint(website: &str, path: &str) -> (url: String)
    ensures
        url@ == endpoint_view(website@, path@),
{
    let mut url = text::trim_end_matches(website, '/');
    url.append(path);
    url
}

/// Whether an HTTP status means success.
pub open spec fn success(status: u16) -> bool {
    200 <= status <= 299
}

/// Whether an HTTP status means success.
pub fn is_success(status: u16) -> (ok: bool)
    ensures
        ok == success(status),
{
    200 <= status && status <= 299
}

/// Whether a text can be a connection key: some bytes, but not too many.
pub open spec fn is_key(key: Seq<char>) -> bool {
    0 < key.len() && vstd::utf8::encode_utf8(key).len() <= MAX_KEY
}

/// Whether a text can be a connection key.
pub fn acceptable_key(key: &str) -> (ok: bool)
    ensures
        ok == is_key(key@),
{
    !key.is_empty() && key.as_bytes().len() <= MAX_KEY
}

/// The challenge for a secret: the digest of the secret, in base64.
pub open spec fn challenge_view(secret: Seq<char>) -> Seq<char> {
    codec::base64url(codec::sha256_digest(vstd::utf8::encode_utf8(secret)))
}

/// The challenge for a secret.
pub fn challenge(secret: &str) -> (challenge: String)
    ensures
        challenge@ == challenge_view(secret@),
        challenge@.len() == 43,
        forall|i: int| 0 <= i < 43 ==> #[trigger] codec::base64url_char(challenge@[i]),
{
    codec::encode_base64url(codec::sha256(secret.as_bytes()).as_slice())
}

/// A fresh secret: 32 bytes of two random UUIDs, with the bits that mark them, in
/// base64.
pub fn new_verifier() -> (secret: String)
    ensures
        secret@.len() == 43,
        forall|i: int| 0 <= i < 43 ==> #[trigger] codec::base64url_char(secret@[i]),
        codec::base64url_bytes(secret@) matches Some(bytes) && {
            &&& bytes.len() == 32
            &&& bytes[6] / 16 == 4
            &&& bytes[8] / 64 == 2
            &&& bytes[22] / 16 == 4
            &&& bytes[24] / 64 == 2
        },
{
    let first = codec::random_uuid();
    let second = codec::random_uuid();
    verifier_from(&first, &second)
}

/// The secret of two UUIDs.
pub fn verifier_from(first: &[u8; 16], second: &[u8; 16]) -> (secret: String)
    ensures
        secret@ == codec::base64url(first@ + second@),
        secret@.len() == 43,
        forall|i: int| 0 <= i < 43 ==> #[trigger] codec::base64url_char(secret@[i]),
        codec::base64url_bytes(secret@) == Some(first@ + second@),
{
    let mut bytes: Vec<u8> = Vec::new();
    bytes.extend_from_slice(first.as_slice());
    bytes.extend_from_slice(second.as_slice());
    assert(bytes@ =~= first@ + second@);
    codec::encode_base64url(bytes.as_slice())
}

/// Whether two byte strings are equal, in a time that does not depend on where
/// they differ.
pub fn constant_time_eq(a: &[u8], b: &[u8]) -> (equal: bool)
    ensures
        equal == (a@ == b@),
{
    if a.len() != b.len() {
        return false;
    }
    let mut difference: u8 = 0;
    let mut i: usize = 0;
    while i < a.len()
        invariant
            i <= a@.len(),
            a@.len() == b@.len(),
            difference == 0 <==> (forall|j: int| 0 <= j < i ==> a@[j] == b@[j]),
        decreases a@.len() - i,
    {
        let x = a[i];
        let y = b[i];
        assert((difference | (x ^ y)) == 0 <==> difference == 0 && x == y) by (bit_vector);
        difference = difference | (x ^ y);
        i += 1;
    }
    assert(difference == 0 <==> a@ =~= b@);
    difference == 0
}

/// A response that is read piece by piece, of at most [`MAX_BODY`] bytes.
pub struct BoundedBody {
    bytes: Vec<u8>,
}

impl View for BoundedBody {
    type V = Seq<u8>;

    closed spec fn view(&self) -> Seq<u8> {
        self.bytes@
    }
}

impl BoundedBody {
    /// No more bytes than allowed.
    pub open spec fn wf(self) -> bool {
        self@.len() <= MAX_BODY
    }

    /// Nothing has been read.
    pub fn new() -> (body: Self)
        ensures
            body@ == Seq::<u8>::empty(),
            body.wf(),
    {
        BoundedBody { bytes: Vec::new() }
    }

    /// Take in one piece, unless the response becomes too large.
    pub fn push(&mut self, chunk: &[u8]) -> (taken: Result<(), String>)
        requires
            old(self).wf(),
        ensures
            final(self).wf(),
            taken is Ok <==> old(self)@.len() + chunk@.len() <= MAX_BODY,
            taken is Ok ==> final(self)@ == old(self)@ + chunk@,
            taken is Err ==> final(self)@ == old(self)@,
            taken matches Err(message) ==> message@ == "Login response is too large"@,
    {
        if chunk.len() > MAX_BODY - self.bytes.len() {
            return Err("Login response is too large".to_owned());
        }
        let ghost before = self.bytes@;
        self.bytes.extend_from_slice(chunk);
        assert(self.bytes@ =~= before + chunk@);
        Ok(())
    }

    /// What has been read.
    pub fn bytes(&self) -> (bytes: &[u8])
        ensures
            bytes@ == self@,
    {
        self.bytes.as_slice()
    }
}

/// The bytes of several pieces.
pub open spec fn joined(chunks: Seq<Seq<u8>>) -> Seq<u8>
    decreases chunks.len(),
{
    if chunks.len() == 0 {
        Seq::empty()
    } else {
        joined(chunks.drop_last()) + chunks.last()
    }
}

/// Whether every piece is taken in when the pieces are read one after another.
pub open spec fn all_taken(chunks: Seq<Seq<u8>>) -> bool {
    forall|n: int| 0 < n <= chunks.len() ==> (#[trigger] joined(chunks.take(n))).len() <= MAX_BODY
}

/// How a response is cut into pieces does not matter: all of it is taken in
/// exactly where the whole is small enough.
pub proof fn chunking_does_not_matter(chunks: Seq<Seq<u8>>)
    requires
        chunks.len() > 0,
    ensures
        all_taken(chunks) <==> joined(chunks).len() <= MAX_BODY,
{
    assert(chunks.take(chunks.len() as int) =~= chunks);
    assert forall|n: int| 0 < n <= chunks.len() implies (#[trigger] joined(chunks.take(n))).len()
        <= joined(chunks).len() by {
        joined_grows(chunks, n);
    }
}

/// A part of the pieces has no more bytes than all of them.
proof fn joined_grows(chunks: Seq<Seq<u8>>, n: int)
    requires
        0 <= n <= chunks.len(),
    ensures
        joined(chunks.take(n)).len() <= joined(chunks).len(),
    decreases chunks.len(),
{
    if n == chunks.len() {
        assert(chunks.take(n) =~= chunks);
    } else {
        assert(chunks.drop_last().take(n) =~= chunks.take(n));
        joined_grows(chunks.drop_last(), n);
    }
}

/// A key is any text of one to 4096 bytes: nothing but its size counts.
pub proof fn keys_are_bounded(key: Seq<char>)
    ensures
        is_key(key) <==> 1 <= key.len() && vstd::utf8::encode_utf8(key).len() <= 4096,
        vstd::utf8::is_ascii_chars(key) ==> (is_key(key) <==> 1 <= key.len() <= 4096),
{
    if vstd::utf8::is_ascii_chars(key) {
        vstd::utf8::is_ascii_chars_encode_utf8(key);
    }
}

/// Success is the statuses from 200 on, before 300.
pub proof fn success_is_two_hundreds(status: u16)
    ensures
        success(status) <==> status / 100 == 2,
{
}

/// An endpoint is the website and the path: slashes at the end of the website do not
/// matter, and everything else of it stays.
pub proof fn endpoints_extend_the_website(website: Seq<char>, path: Seq<char>)
    ensures
        endpoint_view(website.push('/'), path) == endpoint_view(website, path),
        website.len() == 0 || website.last() != '/' ==> endpoint_view(website, path) == website
            + path,
        path.is_suffix_of(endpoint_view(website, path)),
{
    text::trailing_copies_are_taken_off(website, '/');
    let url = endpoint_view(website, path);
    assert(path =~= url.subrange(url.len() - path.len(), url.len() as int));
}

/// A call that takes in a piece appends all of it where the whole stays within 8192 bytes,
/// and else says that it is too large and keeps what was there.
pub proof fn pieces_are_taken_whole_or_not(
    body: &mut BoundedBody,
    chunk: &[u8],
    taken: Result<(), String>,
)
    requires
        call_ensures(BoundedBody::push, (body, chunk), taken),
    ensures
        old(body)@.len() + chunk@.len() <= 8192 ==> taken is Ok && final(body)@ == old(body)@
            + chunk@,
        old(body)@.len() + chunk@.len() > 8192 ==> taken is Err && final(body)@ == old(body)@,
        taken matches Err(message) ==> message@ == "Login response is too large"@,
{
}

/// The secret of two UUIDs decodes to both, the first one first.
pub proof fn secrets_hold_both_uuids(first: [u8; 16], second: [u8; 16], secret: String, i: int)
    requires
        call_ensures(verifier_from, (&first, &second), secret),
        0 <= i < 16,
    ensures
        codec::base64url_bytes(secret@) is Some,
        codec::base64url_bytes(secret@)->0.len() == 32,
        codec::base64url_bytes(secret@)->0[i] == first@[i],
        codec::base64url_bytes(secret@)->0[16 + i] == second@[i],
        secret@.len() == 43,
{
}

/// A challenge has the length of a digest in base64, and one secret has one challenge.
pub proof fn a_secret_has_one_challenge(one: &str, other: &str, a: String, b: String)
    requires
        call_ensures(challenge, (one,), a),
        call_ensures(challenge, (other,), b),
        codec::sha256_digest(vstd::utf8::encode_utf8(one@)) == codec::sha256_digest(
            vstd::utf8::encode_utf8(other@),
        ),
    ensures
        a@ == b@,
        a@.len() == 43,
        a@ == codec::base64url(codec::sha256_digest(vstd::utf8::encode_utf8(one@))),
{
}

/// The comparison in constant time says whether all bytes agree.
pub proof fn comparisons_are_equality(a: &[u8], b: &[u8], equal: bool, i: int)
    requires
        call_ensures(constant_time_eq, (a, b), equal),
    ensures
        equal ==> a@.len() == b@.len(),
        equal && 0 <= i < a@.len() ==> a@[i] == b@[i],
        a@ == b@ ==> equal,
{
}

/// The calls that judge statuses and keys accept the two hundreds, and one to 4096 bytes; the
/// one that makes endpoints extends the website.
pub proof fn judgements_are_by_range(
    status: u16,
    ok: bool,
    key: &str,
    acceptable: bool,
    website: &str,
    path: &str,
    url: String,
)
    requires
        call_ensures(is_success, (status,), ok),
        call_ensures(acceptable_key, (key,), acceptable),
        call_ensures(endpoint, (website, path), url),
    ensures
        ok <==> status / 100 == 2,
        acceptable <==> 1 <= key@.len() && vstd::utf8::encode_utf8(key@).len() <= 4096,
        website@.len() == 0 || website@.last() != '/' ==> url@ == website@ + path@,
{
    endpoints_extend_the_website(website@, path@);
}

} // verus!
