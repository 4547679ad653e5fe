//! MD5 and SHA-256 digests, computed by the `md5` and `sha2` crates.

use sha2::Digest;

use vstd::prelude::*;

verus! {

/// `md5::Context`, opaque; see [`md5_consumed`].
#[verifier::external_type_specification]
#[verifier::external_body]
pub struct ExMd5Context(md5::Context);

/// A `sha2::Sha256`, opaque; see [`sha256_consumed`]. The outside type is an
/// alias of a generic wrapper with trait bounds, which cannot be declared by
/// itself.
#[verifier::external_body]
pub struct Sha256Hasher {
    inner: sha2::Sha256,
}

/// The MD5 digest of some bytes.
pub uninterp spec fn md5_digest(bytes: Seq<u8>) -> Seq<u8>;

/// The SHA-256 digest of some bytes.
pub uninterp spec fn sha256_digest(bytes: Seq<u8>) -> Seq<u8>;

/// The bytes that an MD5 computation has taken in.
pub uninterp spec fn md5_consumed(context: md5::Context) -> Seq<u8>;

/// The bytes that a SHA-256 computation has taken in.
pub uninterp spec fn sha256_consumed(hasher: Sha256Hasher) -> Seq<u8>;

/// `md5::Context::new`: nothing taken in yet.
#[verifier::external_body]
pub(crate) fn md5_new() -> (context: md5::Context)
    ensures
        md5_consumed(context).len() == 0,
{
    md5::Context::new()
}

/// `md5::Context::consume`: takes in the bytes behind the earlier ones.
#[verifier::external_body]
pub(crate) fn md5_consume(context: &mut md5::Context, bytes: &[u8])
    ensures
        md5_consumed(*final(context)) == md5_consumed(*old(context)) + bytes@,
{
    context.consume(bytes);
}

/// `md5::Context::finalize`: the digest of everything taken in.
#[verifier::external_body]
pub(crate) fn md5_finalize(context: md5::Context) -> (digest: [u8; 16])
    ensures
        digest@ == md5_digest(md5_consumed(context)),
{
    context.finalize().0
}

/// `sha2::Sha256::new`: nothing taken in yet.
#[verifier::external_body]
pub(crate) fn sha256_new() -> (hasher: Sha256Hasher)
    ensures
        sha256_consumed(hasher).len() == 0,
{
    Sha256Hasher { inner: sha2::Sha256::new() }
}

/// `sha2::Sha256::update`: takes in the bytes behind the earlier ones.
#[verifier::external_body]
pub(crate) fn sha256_update(hasher: &mut Sha256Hasher, bytes: &[u8])
    ensures
        sha256_consumed(*final(hasher)) == sha256_consumed(*old(hasher)) + bytes@,
{
    hasher.inner.update(bytes);
}

/// `sha2::Sha256::finalize`: the digest of everything taken in.
#[verifier::external_body]
pub(crate) fn sha256_finalize(hasher: Sha256Hasher) -> (digest: [u8; 32])
    ensures
        digest@ == sha256_digest(sha256_consumed(hasher)),
{
    hasher.inner.finalize().into()
}

/// The lower-case hexadecimal digit of a number below sixteen.
pub open spec fn hex_digit(n: int) -> char {
    if n < 10 {
        (48 + n) as char
    } else {
        (87 + n) as char
    }
}

/// Two hexadecimal digits per byte.
pub open spec fn hex(bytes: Seq<u8>) -> Seq<char> {
    Seq::new(
        2 * bytes.len(),
        |i: int|
            if i % 2 == 0 {
                hex_digit(bytes[i / 2] as int / 16)
            } else {
                hex_digit(bytes[i / 2] as int % 16)
            },
    )
}

fn hex_char(n: u8) -> (c: char)
    requires
        n < 16,
    ensures
        c == hex_digit(n as int),
{
    if n < 10 {
        (48 + n) as char
    } else {
        (87 + n) as char
    }
}

/// Writes bytes in hexadecimal notation.
pub fn to_hex(bytes: &[u8]) -> (s: String)
    ensures
        s@ == hex(bytes@),
{
    let mut s = String::new();
    let mut i: usize = 0;
    assert(hex(bytes@.take(0)) =~= Seq::empty());
    while i < bytes.len()
        invariant
            i <= bytes@.len(),
            s@ == hex(bytes@.take(i as int)),
        decreases bytes@.len() - i,
    {
        s.push(hex_char(bytes[i] / 16));
        s.push(hex_char(bytes[i] % 16));
        i += 1;
        assert(s@ =~= hex(bytes@.take(i as int)));
    }
    assert(bytes@.take(bytes@.len() as int) =~= bytes@);
    s
}

/// The signature of an upload: the hexadecimal MD5 digest of its content.
pub open spec fn content_sign(content: Seq<u8>) -> Seq<char> {
    hex(md5_digest(content))
}

/// The signature of bytes in memory.
pub fn calculate_sign_bytes(bytes: &[u8]) -> (sign: String)
    ensures
        sign@ == content_sign(bytes@),
{
    let mut context = md5_new();
    let ghost before = md5_consumed(context);
    md5_consume(&mut context, bytes);
    assert(before + bytes@ =~= bytes@);
    let digest = md5_finalize(context);
    to_hex(digest.as_slice())
}

/// The signature of content that comes in pieces.
pub struct SignCalculator {
    context: md5::Context,
}

impl View for SignCalculator {
    type V = Seq<u8>;

    closed spec fn view(&self) -> Seq<u8> {
        md5_consumed(self.context)
    }
}

impl SignCalculator {
    /// No content yet.
    pub fn new() -> (calculator: SignCalculator)
        ensures
            calculator@ == Seq::<u8>::empty(),
    {
        let calculator = SignCalculator { context: md5_new() };
        assert(calculator@ =~= Seq::empty());
        calculator
    }

    /// The next piece.
    pub fn update(&mut self, bytes: &[u8])
        ensures
            final(self)@ == old(self)@ + bytes@,
    {
        md5_consume(&mut self.context, bytes);
    }

    /// The signature of all pieces together.
    pub fn finish(self) -> (sign: String)
        ensures
            sign@ == content_sign(self@),
    {
        let digest = md5_finalize(self.context);
        to_hex(digest.as_slice())
    }
}

/// The SHA-256 digest of bytes in memory.
pub fn sha256_bytes(bytes: &[u8]) -> (digest: [u8; 32])
    ensures
        digest@ == sha256_digest(bytes@),
{
    let mut hasher = sha256_new();
    let ghost before = sha256_consumed(hasher);
    sha256_update(&mut hasher, bytes);
    assert(before + bytes@ =~= bytes@);
    sha256_finalize(hasher)
}

/// Whether two digests are the same.
pub fn same_digest(a: &[u8; 32], b: &[u8; 32]) -> (same: bool)
    ensures
        same == (a@ == b@),
{
    let mut i: usize = 0;
    while i < 32
        invariant
            i <= 32,
            forall|j: int| 0 <= j < i ==> a@[j] == b@[j],
        decreases 32 - i,
    {
        if a[i] != b[i] {
            return false;
        }
        i += 1;
    }
    assert(a@ =~= b@);
    true
}

} // verus!
