//! SHA-256 access and hex encoding.
//!
//! The digest itself is computed by the `sha2` crate; its value is only
//! named here, never re-stated, and every contract downstream speaks of
//! that name.

use sha2::Digest;
use vstd::prelude::*;

verus! {

/// The SHA-256 digest of a byte sequence; the value is determined by the
/// input bytes alone.
pub uninterp spec fn sha256_of(bytes: Seq<u8>) -> Seq<u8>;

/// Relies on sha2's `Sha256` (via the `Digest` trait): the digest is a
/// function of the input bytes alone and is 32 bytes long.
#[verifier::external_body]
pub fn sha256(bytes: &[u8]) -> (digest: Vec<u8>)
    ensures
        digest@ == sha256_of(bytes@),
        digest@.len() == 32,
{
    sha2::Sha256::digest(bytes).to_vec()
}

/// Relies on `String::push`: appends exactly the given character.
#[verifier::external_body]
pub fn string_push(s: &mut String, c: char)
    ensures
        final(s)@ == old(s)@ + seq![c],
{
    s.push(c);
}

pub open spec fn hex_digits() -> Seq<char> {
    seq!['0', '1', '2', '3', '4', '5', '6', '7', '8', '9', 'a', 'b', 'c', 'd', 'e', 'f']
}

/// Lowercase hex encoding of a byte sequence, two digits per byte.
pub open spec fn hex_of(bytes: Seq<u8>) -> Seq<char>
    decreases bytes.len(),
{
    if bytes.len() == 0 {
        Seq::<char>::empty()
    } else {
        seq![
            hex_digits()[bytes.first() as int / 16],
            hex_digits()[bytes.first() as int % 16],
        ] + hex_of(bytes.drop_first())
    }
}

/// Lowercase hex encoding, as produced for dm-verity root hashes.
pub fn to_hex(bytes: &Vec<u8>) -> (hex: String)
    ensures
        hex@ == hex_of(bytes@),
{
    let mut hex = String::new();
    let n = bytes.len();
    assert(bytes@.skip(0) == bytes@);
    for i in 0..n
        invariant
            n == bytes@.len(),
            hex_of(bytes@) =~= hex@ + hex_of(bytes@.skip(i as int)),
    {
        let b = bytes[i];
        let hi = b / 16;
        let lo = b % 16;
        string_push(&mut hex, hex_char(hi));
        string_push(&mut hex, hex_char(lo));
        assert(bytes@.skip(i as int).drop_first() == bytes@.skip(i + 1));
    }
    hex
}

/// The hex digit for a nibble.
fn hex_char(nibble: u8) -> (c: char)
    requires
        nibble < 16,
    ensures
        c == hex_digits()[nibble as int],
{
    match nibble {
        0 => '0',
        1 => '1',
        2 => '2',
        3 => '3',
        4 => '4',
        5 => '5',
        6 => '6',
        7 => '7',
        8 => '8',
        9 => '9',
        10 => 'a',
        11 => 'b',
        12 => 'c',
        13 => 'd',
        14 => 'e',
        _ => 'f',
    }
}

} // verus!
