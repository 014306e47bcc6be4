//! A stable fingerprint of bytes: the 64-bit FNV-1a hash.
use crate::number::{hex, hex_text};
use crate::text::cat2;
use vstd::prelude::*;

verus! {

pub const FNV_OFFSET_BASIS: u64 = 0xcbf2_9ce4_8422_2325;

pub const FNV_PRIME: u64 = 0x0000_0100_0000_01b3;

/// The FNV-1a hash: each byte is put in with exclusive or, then multiplied in.
pub open spec fn fnv1a(bytes: Seq<u8>) -> u64
    decreases bytes.len(),
{
    if bytes.len() == 0 {
        FNV_OFFSET_BASIS
    } else {
        (fnv1a(bytes.drop_last()) ^ (bytes.last() as u64)).wrapping_mul(FNV_PRIME)
    }
}

/// The FNV-1a hash of `bytes`.
pub fn fnv_hash(bytes: &[u8]) -> (r: u64)
    ensures
        r == fnv1a(bytes@),
{
    let mut hash: u64 = FNV_OFFSET_BASIS;
    let mut i: usize = 0;
    while i < bytes.len()
        invariant
            i <= bytes.len(),
            hash == fnv1a(bytes@.take(i as int)),
        decreases bytes.len() - i,
    {
        assert(bytes@.take(i + 1).drop_last() =~= bytes@.take(i as int));
        hash = (hash ^ (bytes[i] as u64)).wrapping_mul(FNV_PRIME);
        i = i + 1;
    }
    assert(bytes@.take(i as int) =~= bytes@);
    hash
}

/// The fingerprint as it is stored.
pub open spec fn fingerprint(bytes: Seq<u8>) -> Seq<char> {
    "fnv1a64:"@ + hex(fnv1a(bytes) as nat, 16)
}

/// The fingerprint of `bytes`.
pub fn stable_content_fingerprint(bytes: &[u8]) -> (r: String)
    ensures
        r@ == fingerprint(bytes@),
{
    cat2("fnv1a64:", hex_text(fnv_hash(bytes), 16).as_str())
}

/// A fingerprint takes in byte after byte: each is mixed into what came before by exclusive
/// or, which is then multiplied by the prime of the function; it begins with its offset.
pub proof fn law_fingerprints_take_in_byte_after_byte(bytes: Seq<u8>, next: u8)
    ensures
        fnv1a(Seq::empty()) == 0xcbf2_9ce4_8422_2325u64,
        fnv1a(bytes.push(next)) == (fnv1a(bytes) ^ (next as u64)).wrapping_mul(0x100_0000_01b3u64),
        fingerprint(bytes) == "fnv1a64:"@ + hex(fnv1a(bytes) as nat, 16),
{
    assert(bytes.push(next).drop_last() =~= bytes);
}

}
