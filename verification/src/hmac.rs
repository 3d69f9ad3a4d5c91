//! HMAC with SHA-256 as its hash.

use crate::sha256::{digest, sha256};
use vstd::prelude::*;

verus! {

/// The key as one 64-byte hash block: a key longer than a block is replaced
/// by its digest, and the rest of the block is zero.
pub open spec fn block_key(key: Seq<u8>) -> Seq<u8> {
    let short = if key.len() > 64 {
        sha256(key)
    } else {
        key
    };
    short + Seq::new((64 - short.len()) as nat, |i: int| 0u8)
}

/// Every byte of the 64-byte block `block` xor-ed with `pad`.
pub open spec fn masked(block: Seq<u8>, pad: u8) -> Seq<u8> {
    Seq::new(64, |i: int| block[i] ^ pad)
}

/// The HMAC-SHA256 tag of `msg` under `key`.
pub open spec fn hmac_sha256(key: Seq<u8>, msg: Seq<u8>) -> Seq<u8> {
    let k = block_key(key);
    sha256(masked(k, 0x5c) + sha256(masked(k, 0x36) + msg))
}

/// A tag is 32 bytes long.
pub proof fn hmac_sha256_len(key: Seq<u8>, msg: Seq<u8>)
    ensures
        hmac_sha256(key, msg).len() == 32,
{
    let k = block_key(key);
    crate::sha256::sha256_len(masked(k, 0x5c) + sha256(masked(k, 0x36) + msg));
}

fn key_block(key: &[u8]) -> (r: Vec<u8>)
    ensures
        r@ == block_key(key@),
        r@.len() == 64,
{
    let mut block: Vec<u8> = if key.len() > 64 {
        digest(key)
    } else {
        let mut copy: Vec<u8> = Vec::new();
        copy.extend_from_slice(key);
        copy
    };
    let ghost short = block@;
    let fill: usize = 64 - block.len();
    let mut z: usize = 0;
    while z < fill
        invariant
            z <= fill,
            fill == 64 - short.len(),
            block@ == short + Seq::new(z as nat, |i: int| 0u8),
        decreases fill - z,
    {
        block.push(0u8);
        z += 1;
        assert(block@ =~= short + Seq::new(z as nat, |i: int| 0u8));
    }
    block
}

/// `block` xor-ed with `pad`, followed by `rest`.
fn masked_then(block: &Vec<u8>, pad: u8, rest: &[u8]) -> (r: Vec<u8>)
    requires
        block@.len() == 64,
    ensures
        r@ == masked(block@, pad) + rest@,
{
    let mut out: Vec<u8> = Vec::new();
    let mut i: usize = 0;
    while i < 64
        invariant
            i <= 64,
            block@.len() == 64,
            out@.len() == i,
            forall|j: int| 0 <= j < i ==> out@[j] == block@[j] ^ pad,
        decreases 64 - i,
    {
        out.push(block[i] ^ pad);
        i += 1;
    }
    assert(out@ =~= masked(block@, pad));
    out.extend_from_slice(rest);
    out
}

/// The HMAC-SHA256 tag of `msg` under `key`.
pub fn tag(key: &[u8], msg: &[u8]) -> (r: Vec<u8>)
    ensures
        r@ == hmac_sha256(key@, msg@),
        r@.len() == 32,
{
    let block = key_block(key);
    let inner = masked_then(&block, 0x36u8, msg);
    let inner_digest = digest(inner.as_slice());
    let outer = masked_then(&block, 0x5cu8, inner_digest.as_slice());
    digest(outer.as_slice())
}

/// Whether two byte strings are equal. The running time depends on the
/// lengths alone, not on where the strings first differ.
pub fn bytes_equal(a: &[u8], b: &[u8]) -> (r: bool)
    ensures
        r == (a@ == b@),
{
    if a.len() != b.len() {
        return false;
    }
    let mut diff: u8 = 0;
    let mut i: usize = 0;
    while i < a.len()
        invariant
            i <= a.len(),
            a.len() == b.len(),
            (diff == 0) == (forall|j: int| 0 <= j < i ==> a@[j] == b@[j]),
        decreases a.len() - i,
    {
        let x = a[i];
        let y = b[i];
        let ghost before = diff;
        diff = diff | (x ^ y);
        assert((diff == 0) == (before == 0 && x == y)) by (bit_vector)
            requires
                diff == before | (x ^ y),
        ;
        i += 1;
    }
    assert((diff == 0) == (a@ =~= b@));
    diff == 0
}

} // verus!
