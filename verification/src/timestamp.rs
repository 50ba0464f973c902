//! A deterministic stand-in for a wall clock: the pseudo-timestamp is the
//! FNV-1a hash of a fixed tag, so every call returns the same value. Real
//! time, where the hosting layer wants it, is read there and handed to this
//! library as a plain value.

use vstd::prelude::*;

verus! {

/// FNV-1a 64-bit offset basis.
pub const FNV_OFFSET: u64 = 14_695_981_039_346_656_037;

/// FNV-1a 64-bit prime.
pub const FNV_PRIME: u64 = 1_099_511_628_211;

/// One FNV-1a round: fold a byte into the running hash with xor, then
/// multiply by the prime, wrapping modulo 2^64.
pub open spec fn fnv1a_step(h: u64, b: u8) -> u64 {
    (((h ^ (b as u64)) as nat * FNV_PRIME as nat) % 0x1_0000_0000_0000_0000) as u64
}

/// FNV-1a 64-bit hash of a byte sequence.
pub open spec fn fnv1a(bytes: Seq<u8>) -> u64
    decreases bytes.len(),
{
    if bytes.len() == 0 {
        FNV_OFFSET
    } else {
        fnv1a_step(fnv1a(bytes.drop_last()), bytes.last())
    }
}

/// The ASCII bytes of the fixed tag `timestamp`.
pub open spec fn timestamp_tag() -> Seq<u8> {
    seq![116u8, 105u8, 109u8, 101u8, 115u8, 116u8, 97u8, 109u8, 112u8]
}

/// The simulated timestamp: the FNV-1a hash of the fixed tag. Deterministic
/// across calls, processes and machines.
pub fn get_current_timestamp() -> (r: u64)
    ensures
        r == fnv1a(timestamp_tag()),
{
    let tag: Vec<u8> = vec![116u8, 105u8, 109u8, 101u8, 115u8, 116u8, 97u8, 109u8, 112u8];
    proof {
        assert(tag@ =~= timestamp_tag());
    }
    let mut h: u64 = FNV_OFFSET;
    let mut i: usize = 0;
    while i < tag.len()
        invariant
            i <= tag@.len(),
            tag@ =~= timestamp_tag(),
            h == fnv1a(tag@.take(i as int)),
        decreases tag@.len() - i,
    {
        let b = tag[i];
        h = (h ^ (b as u64)).wrapping_mul(FNV_PRIME);
        proof {
            assert(tag@.take(i + 1).drop_last() =~= tag@.take(i as int));
            assert(tag@.take(i + 1).last() == tag@[i as int]);
        }
        i = i + 1;
    }
    proof {
        assert(tag@.take(tag@.len() as int) =~= tag@);
    }
    h
}

} // verus!
