use vstd::prelude::*;

use crate::crypto::{
    hash160_of, key_shape, keypair_public_key, public_key_accepted, public_key_of_secret,
    public_key_parses, ripemd160, secret_key_accepted, sha256, sha256_of,
};
use crate::error::SwapError;
use crate::text::is_tag;

verus! {

/// The compressed (33-byte) form of a public key encoding: an uncompressed
/// one keeps its x coordinate under the prefix 2 or 3 of its y's parity.
pub open spec fn compressed(encoding: Seq<u8>) -> Seq<u8> {
    if encoding.len() == 65 {
        seq![(2 + encoding[64] % 2) as u8] + encoding.subrange(1, 33)
    } else {
        encoding
    }
}

/// The 32-byte x-only form of a public key encoding: its x coordinate.
pub open spec fn x_only(encoding: Seq<u8>) -> Seq<u8> {
    encoding.subrange(1, 33)
}

/// Copies `b[from..to]` into a new vector.
pub(crate) fn copy_range(b: &[u8], from: usize, to: usize) -> (r: Vec<u8>)
    requires
        from <= to <= b@.len(),
    ensures
        r@ == b@.subrange(from as int, to as int),
        from == 0 && to == b@.len() ==> r@ == b@,
{
    let mut r: Vec<u8> = Vec::new();
    let mut i: usize = from;
    while i < to
        invariant
            from <= i <= to,
            to <= b@.len(),
            r@ == b@.subrange(from as int, i as int),
        decreases to - i,
    {
        r.push(b[i]);
        i = i + 1;
    }
    assert(from == 0 && to == b@.len() ==> b@.subrange(from as int, to as int) =~= b@);
    r
}

/// Whether two byte strings are equal.
pub(crate) fn bytes_equal(a: &[u8], b: &[u8]) -> (r: bool)
    ensures
        r == (a@ == b@),
{
    if a.len() != b.len() {
        return false;
    }
    let mut i: usize = 0;
    while i < a.len()
        invariant
            a@.len() == b@.len(),
            i <= a@.len(),
            forall|j: int| 0 <= j < i ==> a@[j] == b@[j],
        decreases a@.len() - i,
    {
        if a[i] != b[i] {
            return false;
        }
        i = i + 1;
    }
    assert(a@ =~= b@);
    true
}

/// A parsed elliptic-curve public key, kept in the encoding it was read from.
#[derive(Debug)]
pub struct PublicKey {
    bytes: Vec<u8>,
}

impl Clone for PublicKey {
    fn clone(&self) -> (r: Self)
        ensures
            r@ == self@,
    {
        proof {
            use_type_invariant(self);
        }
        PublicKey { bytes: copy_range(self.bytes.as_slice(), 0, self.bytes.len()) }
    }
}

impl View for PublicKey {
    type V = Seq<u8>;

    closed spec fn view(&self) -> Seq<u8> {
        self.bytes@
    }
}

impl PublicKey {
    #[verifier::type_invariant]
    closed spec fn inv(&self) -> bool {
        public_key_accepted(self.bytes@) && key_shape(self.bytes@)
    }

    /// The encoding this key was parsed from.
    pub fn to_bytes(&self) -> (r: Vec<u8>)
        ensures
            r@ == self@,
            public_key_accepted(self@),
            key_shape(self@),
    {
        proof {
            use_type_invariant(self);
        }
        copy_range(self.bytes.as_slice(), 0, self.bytes.len())
    }

    /// The compressed encoding of this key.
    pub fn compressed(&self) -> (r: Vec<u8>)
        ensures
            r@ == compressed(self@),
            r@.len() == 33,
    {
        proof {
            use_type_invariant(self);
        }
        if self.bytes.len() == 65 {
            let mut r: Vec<u8> = vec![2u8 + self.bytes[64] % 2];
            let x = copy_range(self.bytes.as_slice(), 1, 33);
            crate::tree::push_all(&mut r, x.as_slice());
            assert(r@ =~= compressed(self@));
            r
        } else {
            copy_range(self.bytes.as_slice(), 0, self.bytes.len())
        }
    }

    /// The x-only form of this key, as a taproot script pushes it.
    pub fn x_only(&self) -> (r: Vec<u8>)
        ensures
            r@ == x_only(self@),
            r@.len() == 32,
            public_key_accepted(self@),
            key_shape(self@),
    {
        proof {
            use_type_invariant(self);
        }
        copy_range(self.bytes.as_slice(), 1, 33)
    }
}

/// Parses a public key from its compressed (33-byte) or uncompressed (65-byte)
/// encoding.
pub fn parse_public_key(public_key: Vec<u8>) -> (r: Result<PublicKey, SwapError>)
    ensures
        r is Ok <==> public_key_accepted(public_key@),
        r matches Ok(k) ==> k@ == public_key@,
        r matches Err(e) ==> e == SwapError::InvalidKey,
{
    if public_key_parses(public_key.as_slice()) {
        Ok(PublicKey { bytes: public_key })
    } else {
        Err(SwapError::InvalidKey)
    }
}

/// The key pair of a secret key: the secret itself and the compressed
/// encoding of its public key. The secret is drawn by the caller from a
/// secure source of randomness.
pub fn keypair_from_secret(secret: Vec<u8>) -> (r: Result<(Vec<u8>, Vec<u8>), SwapError>)
    ensures
        r is Ok <==> secret_key_accepted(secret@),
        r matches Ok(pair) ==> pair.0@ == secret@ && pair.1@ == public_key_of_secret(secret@)
            && pair.1@.len() == 33,
        r matches Ok(pair) ==> public_key_accepted(pair.1@) && pair.0@.len() == 32,
        r matches Err(e) ==> e == SwapError::InvalidKey,
{
    match keypair_public_key(secret.as_slice()) {
        Some(public) => Ok((secret, public)),
        None => Err(SwapError::InvalidKey),
    }
}

/// A 32-byte swap secret together with its SHA-256 and HASH160 digests.
#[derive(Debug)]
pub struct Preimage {
    bytes: Vec<u8>,
    sha256: Vec<u8>,
    hash160: Vec<u8>,
}

impl View for Preimage {
    type V = Seq<u8>;

    closed spec fn view(&self) -> Seq<u8> {
        self.bytes@
    }
}

impl Preimage {
    #[verifier::type_invariant]
    closed spec fn inv(&self) -> bool {
        &&& self.bytes@.len() == 32
        &&& self.sha256@ == sha256_of(self.bytes@)
        &&& self.hash160@ == hash160_of(self.bytes@)
        &&& self.hash160@.len() == 20
    }

    /// The secret itself.
    pub fn to_bytes(&self) -> (r: Vec<u8>)
        ensures
            r@ == self@,
            r@.len() == 32,
    {
        proof {
            use_type_invariant(self);
        }
        copy_range(self.bytes.as_slice(), 0, self.bytes.len())
    }

    /// SHA-256 of the secret: the payment hash.
    pub fn sha256(&self) -> (r: &[u8])
        ensures
            r@ == sha256_of(self@),
    {
        proof {
            use_type_invariant(self);
        }
        self.sha256.as_slice()
    }

    /// HASH160 of the secret: the hash a swap script locks to.
    pub fn hash160(&self) -> (r: &[u8])
        ensures
            r@ == hash160_of(self@),
            r@.len() == 20,
    {
        proof {
            use_type_invariant(self);
        }
        self.hash160.as_slice()
    }
}

/// Parses a swap secret: exactly 32 bytes, whose digests are computed once.
pub fn parse_preimage(preimage: Vec<u8>) -> (r: Result<Preimage, SwapError>)
    ensures
        r is Ok <==> preimage@.len() == 32,
        r matches Ok(p) ==> p@ == preimage@,
        r matches Err(e) ==> e == SwapError::InvalidPreimage,
{
    if preimage.len() != 32 {
        return Err(SwapError::InvalidPreimage);
    }
    let digest = sha256(preimage.as_slice());
    let short = ripemd160(digest.as_slice());
    Ok(Preimage { bytes: preimage, sha256: digest, hash160: short })
}

/// A 32-byte hash of a swap secret.
#[derive(Debug)]
pub struct PreimageHash {
    bytes: Vec<u8>,
}

impl View for PreimageHash {
    type V = Seq<u8>;

    closed spec fn view(&self) -> Seq<u8> {
        self.bytes@
    }
}

impl PreimageHash {
    #[verifier::type_invariant]
    closed spec fn inv(&self) -> bool {
        self.bytes@.len() == 32
    }

    /// The hash bytes.
    pub fn to_bytes(&self) -> (r: Vec<u8>)
        ensures
            r@ == self@,
            r@.len() == 32,
    {
        proof {
            use_type_invariant(self);
        }
        copy_range(self.bytes.as_slice(), 0, self.bytes.len())
    }
}

/// Parses a preimage hash: any input of exactly 32 bytes.
pub fn parse_preimage_hash(hash: Vec<u8>) -> (r: Result<PreimageHash, SwapError>)
    ensures
        r is Ok <==> hash@.len() == 32,
        r matches Ok(h) ==> h@ == hash@,
        r matches Err(e) ==> e == SwapError::InvalidLength,
{
    if hash.len() == 32 {
        Ok(PreimageHash { bytes: hash })
    } else {
        Err(SwapError::InvalidLength)
    }
}

/// The chains a swap can lock funds on.
#[derive(Debug, Clone, Copy, PartialEq, Eq, Structural)]
pub enum Chain {
    Bitcoin,
    Liquid,
}

/// The chain a tag names, if any.
pub open spec fn chain_of(tag: Seq<char>) -> Option<Chain> {
    if tag == "BTC"@ {
        Some(Chain::Bitcoin)
    } else if tag == "L-BTC"@ {
        Some(Chain::Liquid)
    } else {
        None
    }
}

/// Maps "BTC" to Bitcoin and "L-BTC" to Liquid.
pub fn parse_chain(chain: String) -> (r: Result<Chain, SwapError>)
    ensures
        chain_of(chain@) matches Some(c) ==> r == Ok::<Chain, SwapError>(c),
        chain_of(chain@) is None ==> r == Err::<Chain, SwapError>(SwapError::UnknownChain),
{
    if is_tag(&chain, "BTC") {
        Ok(Chain::Bitcoin)
    } else if is_tag(&chain, "L-BTC") {
        Ok(Chain::Liquid)
    } else {
        Err(SwapError::UnknownChain)
    }
}

} // verus!
