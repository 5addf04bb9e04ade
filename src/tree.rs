use vstd::prelude::*;

use crate::hexcodec::{decode_hex, encode_hex, hex_decoded, hex_lower, is_hex};

verus! {

/// Leaf version of a Bitcoin tapscript leaf.
pub const TAPSCRIPT_LEAF_VERSION: u8 = 0xc0;

/// Leaf version of an Elements (Liquid) tapscript leaf.
pub const ELEMENTS_LEAF_VERSION: u8 = 0xc4;

/// One spending condition of a swap output: a script, as hex, and its leaf
/// version.
#[derive(Debug)]
pub struct Leaf {
    pub output: String,
    pub version: u8,
}

impl Leaf {
    pub fn new(output: String, version: u8) -> (r: Self)
        ensures
            r.output == output,
            r.version == version,
    {
        Leaf { output, version }
    }

    /// The script bytes that the leaf's hex spells.
    pub open spec fn script(&self) -> Seq<u8> {
        hex_decoded(self.output@)
    }
}

impl Clone for Leaf {
    fn clone(&self) -> (r: Self)
        ensures
            r == *self,
    {
        Leaf { output: self.output.clone(), version: self.version }
    }
}

/// The two spending conditions of a swap output.
#[derive(Debug)]
pub struct SwapTree {
    pub claim_leaf: Leaf,
    pub refund_leaf: Leaf,
}

impl SwapTree {
    pub fn new(claim_leaf: Leaf, refund_leaf: Leaf) -> (r: Self)
        ensures
            r.claim_leaf == claim_leaf,
            r.refund_leaf == refund_leaf,
    {
        SwapTree { claim_leaf, refund_leaf }
    }
}

impl Clone for SwapTree {
    fn clone(&self) -> (r: Self)
        ensures
            r == *self,
    {
        SwapTree { claim_leaf: self.claim_leaf.clone(), refund_leaf: self.refund_leaf.clone() }
    }
}

/// Reads a leaf's script bytes if its hex is canonical and its version is the
/// expected one.
pub(crate) fn read_leaf(l: &Leaf, version: u8) -> (r: Option<Vec<u8>>)
    ensures
        r is Some <==> is_canonical_hex(l.output@) && l.version == version,
        r matches Some(b) ==> b@ == hex_decoded(l.output@),
{
    if l.version != version {
        return None;
    }
    let bytes = match decode_hex(l.output.as_str()) {
        Some(b) => b,
        None => return None,
    };
    let back = encode_hex(bytes.as_slice());
    if back.eq(&l.output) {
        Some(bytes)
    } else {
        None
    }
}

/// Hex of a script in canonical form: lower-case, so that it is exactly the
/// encoding of the bytes it spells.
pub open spec fn is_canonical_hex(s: Seq<char>) -> bool {
    is_hex(s) && hex_lower(hex_decoded(s)) == s
}

/// Byte `k` (little-endian) of a 32-bit number.
pub open spec fn le_byte(n: u32, k: nat) -> u8 {
    if k == 0 {
        (n % 256) as u8
    } else if k == 1 {
        ((n / 256) % 256) as u8
    } else if k == 2 {
        ((n / 65536) % 256) as u8
    } else {
        (n / 16777216) as u8
    }
}

/// The minimal script push of a non-negative number, as a lock-time operand:
/// OP_0, OP_1 to OP_16, or a data push of its little-endian bytes with room
/// for the sign bit.
pub open spec fn locktime_push(n: u32) -> Seq<u8> {
    if n == 0 {
        seq![0x00u8]
    } else if n <= 16 {
        seq![(0x50 + n) as u8]
    } else if n < 0x80 {
        seq![1u8, le_byte(n, 0)]
    } else if n < 0x8000 {
        seq![2u8, le_byte(n, 0), le_byte(n, 1)]
    } else if n < 0x80_0000 {
        seq![3u8, le_byte(n, 0), le_byte(n, 1), le_byte(n, 2)]
    } else if n < 0x8000_0000 {
        seq![4u8, le_byte(n, 0), le_byte(n, 1), le_byte(n, 2), le_byte(n, 3)]
    } else {
        seq![5u8, le_byte(n, 0), le_byte(n, 1), le_byte(n, 2), le_byte(n, 3), 0u8]
    }
}

/// Claim leaf of a submarine swap:
/// OP_HASH160 <hashlock> OP_EQUALVERIFY <claim key> OP_CHECKSIG.
pub open spec fn submarine_claim_script(hashlock: Seq<u8>, claim_key: Seq<u8>) -> Seq<u8> {
    seq![0xa9u8, 0x14u8] + hashlock + seq![0x88u8, 0x20u8] + claim_key + seq![0xacu8]
}

/// Claim leaf of a reverse swap: the submarine claim leaf preceded by a check
/// that the preimage is 32 bytes (OP_SIZE 32 OP_EQUALVERIFY).
pub open spec fn reverse_claim_script(hashlock: Seq<u8>, claim_key: Seq<u8>) -> Seq<u8> {
    seq![0x82u8, 0x01u8, 0x20u8, 0x88u8] + submarine_claim_script(hashlock, claim_key)
}

/// Refund leaf of either direction:
/// <refund key> OP_CHECKSIGVERIFY <timeout> OP_CHECKLOCKTIMEVERIFY.
pub open spec fn refund_script(refund_key: Seq<u8>, locktime: u32) -> Seq<u8> {
    seq![0x20u8] + refund_key + seq![0xadu8] + locktime_push(locktime) + seq![0xb1u8]
}

/// Appends all of `s` to `v`.
pub(crate) fn push_all(v: &mut Vec<u8>, s: &[u8])
    ensures
        final(v)@ == old(v)@ + s@,
{
    let mut i: usize = 0;
    while i < s.len()
        invariant
            i <= s@.len(),
            v@ == old(v)@ + s@.subrange(0, i as int),
        decreases s@.len() - i,
    {
        v.push(s[i]);
        i = i + 1;
        assert(s@.subrange(0, i as int) == s@.subrange(0, i - 1 as int).push(s@[i - 1]));
    }
    assert(s@.subrange(0, s@.len() as int) == s@);
}

/// The lock-time operand bytes of a number.
pub fn encode_locktime(n: u32) -> (r: Vec<u8>)
    ensures
        r@ == locktime_push(n),
{
    let b0 = (n % 256) as u8;
    let b1 = ((n / 256) % 256) as u8;
    let b2 = ((n / 65536) % 256) as u8;
    let b3 = (n / 16777216) as u8;
    let r = if n == 0 {
        vec![0x00u8]
    } else if n <= 16 {
        vec![(0x50 + n) as u8]
    } else if n < 0x80 {
        vec![1u8, b0]
    } else if n < 0x8000 {
        vec![2u8, b0, b1]
    } else if n < 0x80_0000 {
        vec![3u8, b0, b1, b2]
    } else if n < 0x8000_0000 {
        vec![4u8, b0, b1, b2, b3]
    } else {
        vec![5u8, b0, b1, b2, b3, 0u8]
    };
    assert(r@ =~= locktime_push(n));
    r
}

/// The bytes of a submarine claim leaf.
pub fn build_submarine_claim_script(hashlock: &[u8], claim_key: &[u8]) -> (r: Vec<u8>)
    ensures
        r@ == submarine_claim_script(hashlock@, claim_key@),
{
    let mut r: Vec<u8> = vec![0xa9u8, 0x14u8];
    push_all(&mut r, hashlock);
    r.push(0x88u8);
    r.push(0x20u8);
    push_all(&mut r, claim_key);
    r.push(0xacu8);
    assert(r@ =~= submarine_claim_script(hashlock@, claim_key@));
    r
}

/// The bytes of a reverse-swap claim leaf.
pub fn build_reverse_claim_script(hashlock: &[u8], claim_key: &[u8]) -> (r: Vec<u8>)
    ensures
        r@ == reverse_claim_script(hashlock@, claim_key@),
{
    let mut r: Vec<u8> = vec![0x82u8, 0x01u8, 0x20u8, 0x88u8];
    let tail = build_submarine_claim_script(hashlock, claim_key);
    push_all(&mut r, tail.as_slice());
    assert(r@ =~= reverse_claim_script(hashlock@, claim_key@));
    r
}

/// The bytes of a refund leaf.
pub fn build_refund_script(refund_key: &[u8], locktime: u32) -> (r: Vec<u8>)
    ensures
        r@ == refund_script(refund_key@, locktime),
{
    let mut r: Vec<u8> = vec![0x20u8];
    push_all(&mut r, refund_key);
    r.push(0xadu8);
    let lock = encode_locktime(locktime);
    push_all(&mut r, lock.as_slice());
    r.push(0xb1u8);
    assert(r@ =~= refund_script(refund_key@, locktime));
    r
}

} // verus!
