//! Big-endian 16-bit fields, read and written through byteorder.
use byteorder::{ByteOrder, NetworkEndian};
use vstd::prelude::*;

verus! {

/// Value of a big-endian 16-bit field whose bytes are `hi` then `lo`.
pub open spec fn be16(hi: u8, lo: u8) -> int {
    hi as int * 256 + lo as int
}

/// The two bytes of `n`, most significant first.
pub open spec fn be16_bytes(n: u16) -> Seq<u8> {
    seq![(n / 256) as u8, (n % 256) as u8]
}

/// Relies on byteorder's `NetworkEndian::read_u16`: the two bytes at `at`,
/// most significant first (it panics on fewer than two bytes).
#[verifier::external_body]
pub(crate) fn read_be16(b: &[u8], at: usize) -> (r: u16)
    requires
        at + 2 <= b@.len(),
    ensures
        r as int == be16(b@[at as int], b@[at + 1]),
{
    NetworkEndian::read_u16(&b[at..])
}

/// Relies on byteorder's `NetworkEndian::write_u16`: `n` as two bytes, most
/// significant first.
#[verifier::external_body]
pub(crate) fn write_be16(n: u16) -> (r: [u8; 2])
    ensures
        r@ == be16_bytes(n),
{
    let mut buf = [0u8; 2];
    NetworkEndian::write_u16(&mut buf, n);
    buf
}

} // verus!
