//! SHA-512 checksums.
use vstd::prelude::*;

pub mod laws;

verus! {

broadcast use vstd::string::group_string_axioms;

/// The SHA-512 hasher of the `sha2` crate.
#[verifier::external_type_specification]
#[verifier::external_body]
pub struct ExSha512(sha2::Sha512);

/// The bytes that a hasher has been given.
pub uninterp spec fn absorbed(hasher: sha2::Sha512) -> Seq<u8>;

/// The SHA-512 digest of some bytes.
pub uninterp spec fn sha512_of(data: Seq<u8>) -> Seq<u8>;

/// `<sha2::Sha512 as sha2::Digest>::new` makes a hasher that has been given nothing.
#[verifier::external_body]
fn hasher() -> (hasher: sha2::Sha512)
    ensures
        absorbed(hasher) == Seq::<u8>::empty(),
{
    <sha2::Sha512 as sha2::Digest>::new()
}

/// `sha2::Digest::update` gives a hasher more bytes, after those it has.
#[verifier::external_body]
fn absorb(hasher: &mut sha2::Sha512, data: &[u8])
    ensures
        absorbed(*final(hasher)) == absorbed(*old(hasher)) + data@,
{
    sha2::Digest::update(hasher, data)
}

/// `sha2::Digest::finalize` makes the digest of what a hasher has been given. It has 64 bytes and
/// depends on nothing else; how it is computed is not stated.
#[verifier::external_body]
fn digest(hasher: sha2::Sha512) -> (digest: Vec<u8>)
    ensures
        digest@ == sha512_of(absorbed(hasher)),
        digest@.len() == 64,
{
    sha2::Digest::finalize(hasher).to_vec()
}

/// The lower-case hexadecimal digit for `n`.
pub open spec fn hex_digit(n: u8) -> char {
    if n < 10 {
        (48 + n) as char
    } else {
        (87 + n) as char
    }
}

/// `bytes` in lower-case hexadecimal, two digits each.
pub open spec fn hex(bytes: Seq<u8>) -> Seq<char> {
    Seq::new(
        2 * bytes.len(),
        |i: int|
            hex_digit(
                if i % 2 == 0 {
                    bytes[i / 2] / 16
                } else {
                    bytes[i / 2] % 16
                },
            ),
    )
}

fn to_hex_digit(n: u8) -> (c: char)
    requires
        n < 16,
    ensures
        c == hex_digit(n),
{
    if n < 10 {
        (48 + n) as char
    } else {
        (87 + n) as char
    }
}

/// `bytes` in lower-case hexadecimal, two digits each.
pub fn to_hex(bytes: &Vec<u8>) -> (text: String)
    ensures
        text@ == hex(bytes@),
{
    let mut text = String::new();
    let mut i: usize = 0;
    assert(text@ =~= hex(bytes@.take(0)));
    while i < bytes.len()
        invariant
            i <= bytes.len(),
            text@ == hex(bytes@.take(i as int)),
        decreases bytes.len() - i,
    {
        text.push(to_hex_digit(bytes[i] / 16));
        text.push(to_hex_digit(bytes[i] % 16));
        i += 1;
        assert(text@ =~= hex(bytes@.take(i as int))) by {
            assert forall|k: int| 0 <= k < text@.len() implies text@[k] == hex(
                bytes@.take(i as int),
            )[k] by {
                if k < 2 * (i - 1) {
                    assert(text@[k] == hex(bytes@.take(i - 1))[k]);
                    assert(k / 2 < i - 1);
                } else {
                    assert(k / 2 == i - 1);
                }
            }
        }
    }
    assert(bytes@.take(i as int) =~= bytes@);
    text
}

/// A checksum in the making.
pub struct Checksum {
    hasher: sha2::Sha512,
}

impl View for Checksum {
    type V = Seq<u8>;

    /// The bytes it is the checksum of.
    closed spec fn view(&self) -> Seq<u8> {
        absorbed(self.hasher)
    }
}

impl Checksum {
    /// The checksum of no bytes.
    pub fn new() -> (checksum: Checksum)
        ensures
            checksum@ == Seq::<u8>::empty(),
    {
        Checksum { hasher: hasher() }
    }

    /// Goes on with more bytes.
    pub fn update(&mut self, data: &[u8])
        ensures
            final(self)@ == old(self)@ + data@,
    {
        absorb(&mut self.hasher, data);
    }

    /// The checksum as it is written in a checksum file.
    pub fn sha512(self) -> (text: String)
        ensures
            text@ == hex(sha512_of(self@)),
            text@.len() == 128,
    {
        to_hex(&digest(self.hasher))
    }
}

}
