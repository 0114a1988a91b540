use vstd::prelude::*;
use vstd::utf8::encode_utf8;

use crate::item::{Item, Path};

verus! {

/// The modulus of the identity hash, the prime 2^61 - 1.
pub const HASH_MODULUS: u64 = 2305843009213693951;

/// The value that the hash of every path starts from.
pub const TYPE_SEED: u64 = 1469598103934665603;

/// One step of the polynomial hash: `h * 257 + x` reduced by the modulus.
pub open spec fn mix(h: nat, x: nat) -> nat {
    (h * 257 + x) % (HASH_MODULUS as nat)
}

/// The hash `h` extended by each byte of `b` in turn (a byte counts as its value plus one).
pub open spec fn bytes_hash(h: nat, b: Seq<u8>) -> nat
    decreases b.len(),
{
    if b.len() == 0 {
        h
    } else {
        mix(bytes_hash(h, b.drop_last()), b.last() as nat + 1)
    }
}

/// The identity value of a path: the UTF-8 bytes of each segment in turn, each segment closed
/// by a zero that no byte can produce. It depends on the path alone.
pub open spec fn path_hash(p: Path) -> nat
    decreases p.len(),
{
    if p.len() == 0 {
        TYPE_SEED as nat
    } else {
        mix(bytes_hash(path_hash(p.drop_last()), encode_utf8(p.last())), 0)
    }
}

proof fn lemma_mix_bound(h: nat, x: nat)
    ensures
        mix(h, x) < HASH_MODULUS,
{
}

fn mix_exec(h: u64, x: u64) -> (r: u64)
    requires
        h < HASH_MODULUS,
        x <= 256,
    ensures
        r as nat == mix(h as nat, x as nat),
        r < HASH_MODULUS,
{
    assert((h as u128) * 257 <= (HASH_MODULUS as u128) * 257) by (nonlinear_arith)
        requires
            h < HASH_MODULUS,
    ;
    let v: u128 = (h as u128) * 257 + (x as u128);
    let r: u128 = v % (HASH_MODULUS as u128);
    proof {
        lemma_mix_bound(h as nat, x as nat);
    }
    r as u64
}

/// The identity value ("type hash") of an item, computed from its path alone.
pub fn type_hash(item: &Item) -> (r: u64)
    ensures
        r as nat == path_hash(item@),
{
    let segments = item.segments();
    let mut h: u64 = TYPE_SEED;
    let mut i: usize = 0;
    while i < segments.len()
        invariant
            i <= segments@.len(),
            item@ == crate::item::path_of(segments@),
            h < HASH_MODULUS,
            h as nat == path_hash(item@.subrange(0, i as int)),
        decreases segments@.len() - i,
    {
        let bytes = segments[i].as_str().as_bytes();
        let ghost start = h as nat;
        let mut j: usize = 0;
        while j < bytes.len()
            invariant
                j <= bytes@.len(),
                h < HASH_MODULUS,
                h as nat == bytes_hash(start, bytes@.subrange(0, j as int)),
            decreases bytes@.len() - j,
        {
            let ghost prefix = bytes@.subrange(0, j as int);
            h = mix_exec(h, bytes[j] as u64 + 1);
            j = j + 1;
            assert(bytes@.subrange(0, j as int).drop_last() =~= prefix);
        }
        assert(bytes@.subrange(0, j as int) =~= bytes@);
        h = mix_exec(h, 0);
        i = i + 1;
        assert(item@.subrange(0, i as int).drop_last() =~= item@.subrange(0, i as int - 1));
        assert(item@.subrange(0, i as int).last() == segments@[i as int - 1]@);
    }
    assert(item@.subrange(0, i as int) =~= item@);
    h
}

} // verus!
