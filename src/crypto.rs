use vstd::prelude::*;
use bitcoin::hashes::{ripemd160, sha256};

verus! {

/// The SHA-256 digest of a byte string.
pub uninterp spec fn sha256_of(data: Seq<u8>) -> Seq<u8>;

/// The RIPEMD-160 digest of a byte string.
pub uninterp spec fn ripemd160_of(data: Seq<u8>) -> Seq<u8>;

/// Whether a byte string encodes a point of secp256k1 in a form that
/// bitcoin's public-key parser accepts.
pub uninterp spec fn public_key_accepted(encoding: Seq<u8>) -> bool;

/// The big-endian value of a byte string.
pub open spec fn be_value(b: Seq<u8>) -> nat
    decreases b.len(),
{
    if b.len() == 0 {
        0
    } else {
        be_value(b.drop_last()) * 256 + b.last() as nat
    }
}

/// The order of the secp256k1 group.
pub open spec fn curve_order() -> nat {
    0xFFFFFFFFFFFFFFFFFFFFFFFFFFFFFFFEu128 as nat * 0x1_0000_0000_0000_0000u128 as nat
        * 0x1_0000_0000_0000_0000u128 as nat + 0xBAAEDCE6AF48A03BBFD25E8CD0364141u128 as nat
}

/// A secret key: 32 bytes whose big-endian value is a nonzero scalar below
/// the group order.
pub open spec fn secret_key_accepted(secret: Seq<u8>) -> bool {
    secret.len() == 32 && 0 < be_value(secret) < curve_order()
}

/// The compressed encoding of the public key of a secret key.
pub uninterp spec fn public_key_of_secret(secret: Seq<u8>) -> Seq<u8>;

/// The only shapes a public-key encoding can have: 33 bytes with prefix 2 or 3
/// (compressed), or 65 bytes with prefix 4 (uncompressed).
pub open spec fn key_shape(b: Seq<u8>) -> bool {
    ||| (b.len() == 33 && (b[0] == 2 || b[0] == 3))
    ||| (b.len() == 65 && b[0] == 4)
}

/// The HASH160 of Bitcoin script: RIPEMD-160 over SHA-256.
pub open spec fn hash160_of(data: Seq<u8>) -> Seq<u8> {
    ripemd160_of(sha256_of(data))
}

/// Relies on bitcoin's sha256::Hash::hash: a 32-byte digest that depends on
/// the input bytes alone.
#[verifier::external_body]
pub(crate) fn sha256(data: &[u8]) -> (r: Vec<u8>)
    ensures
        r@ == sha256_of(data@),
        r@.len() == 32,
{
    let h = <sha256::Hash as bitcoin::hashes::Hash>::hash(data);
    bitcoin::hashes::Hash::to_byte_array(h).to_vec()
}

/// Relies on bitcoin's ripemd160::Hash::hash: a 20-byte digest that depends
/// on the input bytes alone.
#[verifier::external_body]
pub(crate) fn ripemd160(data: &[u8]) -> (r: Vec<u8>)
    ensures
        r@ == ripemd160_of(data@),
        r@.len() == 20,
{
    let h = <ripemd160::Hash as bitcoin::hashes::Hash>::hash(data);
    bitcoin::hashes::Hash::to_byte_array(h).to_vec()
}

/// Relies on bitcoin::PublicKey::from_slice: it rejects every length but 33
/// and 65, a 65-byte input whose prefix is not 4, and (through secp256k1) a
/// 33-byte input whose prefix is not 2 or 3 or any input that is not a point.
#[verifier::external_body]
pub(crate) fn public_key_parses(data: &[u8]) -> (r: bool)
    ensures
        r == public_key_accepted(data@),
        r ==> key_shape(data@),
{
    bitcoin::PublicKey::from_slice(data).is_ok()
}

/// Relies on secp256k1's `Keypair::from_seckey_slice`, which accepts exactly
/// 32 bytes whose big-endian value is nonzero and below the group order
/// (`secp256k1_keypair_create` through `secp256k1_scalar_set_b32_seckey`), and on `Keypair::public_key`, whose
/// compressed serialization is 33 bytes with prefix 2 or 3 and, being a
/// point on the curve, is accepted by the public-key parser.
#[verifier::external_body]
pub(crate) fn keypair_public_key(secret: &[u8]) -> (r: Option<Vec<u8>>)
    ensures
        r is Some <==> secret_key_accepted(secret@),
        r is Some ==> secret@.len() == 32,
        r matches Some(p) ==> p@ == public_key_of_secret(secret@) && p@.len() == 33 && (p@[0]
            == 2 || p@[0] == 3),
        r matches Some(p) ==> public_key_accepted(p@),
{
    let secp = bitcoin::secp256k1::Secp256k1::signing_only();
    match bitcoin::secp256k1::Keypair::from_seckey_slice(&secp, secret) {
        Ok(k) => Some(k.public_key().serialize().to_vec()),
        Err(_) => None,
    }
}

} // verus!
