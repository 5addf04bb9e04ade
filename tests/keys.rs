use boltz_swaps::{
    parse_chain, parse_preimage, parse_preimage_hash, parse_public_key, Chain, ErrorKind,
    SwapError,
};

const G_COMPRESSED: &str = "0279be667ef9dcbbac55a06295ce870b07029bfcdb2dce28d959f2815b16f81798";
const G_UNCOMPRESSED: &str = "0479be667ef9dcbbac55a06295ce870b07029bfcdb2dce28d959f2815b16f81798483ada7726a3c4655da4fbfc0e1108a8fd17b448a68554199c47d08ffb10d4b8";

fn sha256(data: &[u8]) -> Vec<u8> {
    let h = <bitcoin::hashes::sha256::Hash as bitcoin::hashes::Hash>::hash(data);
    bitcoin::hashes::Hash::to_byte_array(h).to_vec()
}

fn hash160(data: &[u8]) -> Vec<u8> {
    let h = <bitcoin::hashes::hash160::Hash as bitcoin::hashes::Hash>::hash(data);
    bitcoin::hashes::Hash::to_byte_array(h).to_vec()
}

#[test]
fn preimage_hash_accepts_exactly_32_bytes() {
    assert!(parse_preimage_hash(vec![7u8; 32]).is_ok());
    assert_eq!(parse_preimage_hash(vec![7u8; 32]).unwrap().to_bytes(), vec![7u8; 32]);
    assert_eq!(parse_preimage_hash(vec![7u8; 31]).unwrap_err(), SwapError::InvalidLength);
    assert_eq!(parse_preimage_hash(vec![7u8; 33]).unwrap_err(), SwapError::InvalidLength);
    assert_eq!(parse_preimage_hash(vec![]).unwrap_err(), SwapError::InvalidLength);
}

#[test]
fn preimage_parses_only_32_bytes_and_carries_its_digests() {
    let mut bytes = vec![0u8; 32];
    bytes[31] = 1;
    let p = parse_preimage(bytes.clone()).unwrap();
    assert_eq!(p.to_bytes(), bytes);
    assert_eq!(p.sha256().to_vec(), sha256(&bytes));
    assert_eq!(p.hash160().to_vec(), hash160(&bytes));
    assert_ne!(p.sha256().to_vec(), bytes);
    assert_eq!(parse_preimage(vec![1u8; 31]).unwrap_err(), SwapError::InvalidPreimage);
    assert_eq!(parse_preimage(vec![1u8; 33]).unwrap_err(), SwapError::InvalidPreimage);
}

#[test]
fn sha256_of_empty_preimage_hash_is_known() {
    // digest of 32 zero bytes
    let p = parse_preimage(vec![0u8; 32]).unwrap();
    assert_eq!(
        hex::encode(p.sha256()),
        "66687aadf862bd776c8fc18b8e9f8e20089714856ee233b3902a591d0d5f2925"
    );
}

#[test]
fn public_key_parses_both_encodings() {
    let c = hex::decode(G_COMPRESSED).unwrap();
    let k = parse_public_key(c.clone()).unwrap();
    assert_eq!(k.to_bytes(), c);
    assert_eq!(k.x_only(), c[1..33].to_vec());
    let u = hex::decode(G_UNCOMPRESSED).unwrap();
    let k = parse_public_key(u.clone()).unwrap();
    assert_eq!(k.to_bytes(), u);
    assert_eq!(k.x_only(), c[1..33].to_vec());
}

#[test]
fn public_key_rejects_malformed_input() {
    let mut bad_prefix = hex::decode(G_COMPRESSED).unwrap();
    bad_prefix[0] = 5;
    assert_eq!(parse_public_key(bad_prefix).unwrap_err(), SwapError::InvalidKey);
    assert_eq!(parse_public_key(vec![2u8; 32]).unwrap_err(), SwapError::InvalidKey);
    assert_eq!(parse_public_key(vec![]).unwrap_err(), SwapError::InvalidKey);
    let mut off_curve = vec![0xffu8; 33];
    off_curve[0] = 2;
    assert_eq!(parse_public_key(off_curve).unwrap_err(), SwapError::InvalidKey);
}

#[test]
fn chain_tags_map_to_chains() {
    assert_eq!(parse_chain("BTC".to_string()), Ok(Chain::Bitcoin));
    assert_eq!(parse_chain("L-BTC".to_string()), Ok(Chain::Liquid));
    assert_eq!(parse_chain("btc".to_string()), Err(SwapError::UnknownChain));
    assert_eq!(parse_chain("".to_string()), Err(SwapError::UnknownChain));
}

#[test]
fn error_kinds_follow_the_taxonomy() {
    assert_eq!(SwapError::InvalidKey.kind(), ErrorKind::Input);
    assert_eq!(SwapError::InvalidAddress.kind(), ErrorKind::Input);
    assert_eq!(SwapError::ScriptMismatch.kind(), ErrorKind::Validation);
    assert_eq!(SwapError::PreimageMismatch.kind(), ErrorKind::Validation);
    assert_eq!(SwapError::TimeoutInvalid.kind(), ErrorKind::Validation);
    assert_eq!(SwapError::KeyMismatch.kind(), ErrorKind::Signing);
    assert_eq!(SwapError::WrongSwapType.kind(), ErrorKind::Signing);
}

#[test]
fn keypair_of_secret_one_is_the_generator() {
    let mut one = vec![0u8; 32];
    one[31] = 1;
    let (s, p) = boltz_swaps::keys::keypair_from_secret(one.clone()).unwrap();
    assert_eq!(s, one);
    assert_eq!(hex::encode(p), G_COMPRESSED);
    assert_eq!(
        boltz_swaps::keys::keypair_from_secret(vec![0u8; 32]).unwrap_err(),
        SwapError::InvalidKey
    );
    assert_eq!(
        boltz_swaps::keys::keypair_from_secret(vec![1u8; 31]).unwrap_err(),
        SwapError::InvalidKey
    );
}

#[test]
fn generated_public_key_parses() {
    let mut secret = vec![0u8; 32];
    secret[0] = 0x5a;
    secret[31] = 0x17;
    let (_, public) = boltz_swaps::keys::keypair_from_secret(secret).unwrap();
    assert_eq!(public.len(), 33);
    assert!(parse_public_key(public).is_ok());
}

#[test]
fn secret_keys_at_and_beyond_the_group_order_are_refused() {
    let order = hex::decode("fffffffffffffffffffffffffffffffebaaedce6af48a03bbfd25e8cd0364141").unwrap();
    assert_eq!(
        boltz_swaps::keys::keypair_from_secret(order).unwrap_err(),
        SwapError::InvalidKey
    );
    assert_eq!(
        boltz_swaps::keys::keypair_from_secret(vec![0xffu8; 32]).unwrap_err(),
        SwapError::InvalidKey
    );
    let below = hex::decode("fffffffffffffffffffffffffffffffebaaedce6af48a03bbfd25e8cd0364140").unwrap();
    let (s, p) = boltz_swaps::keys::keypair_from_secret(below.clone()).unwrap();
    assert_eq!(s, below);
    assert_eq!(
        hex::encode(p),
        "0379be667ef9dcbbac55a06295ce870b07029bfcdb2dce28d959f2815b16f81798"
    );
}
