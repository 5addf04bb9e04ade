use boltz_swaps::{CreateReverseResponse, Leaf, SwapError, SwapTree};

const K_HEX: &str = "0279be667ef9dcbbac55a06295ce870b07029bfcdb2dce28d959f2815b16f81798";
const R_HEX: &str = "02c6047f9441ed7d6d3045406e95c07cd85c778e4b8cef3ca7abac09b95c709ee5";

fn hash160(data: &[u8]) -> Vec<u8> {
    let h = <bitcoin::hashes::hash160::Hash as bitcoin::hashes::Hash>::hash(data);
    bitcoin::hashes::Hash::to_byte_array(h).to_vec()
}

fn preimage_one() -> Vec<u8> {
    let mut p = vec![0u8; 32];
    p[31] = 1;
    p
}

fn response(version: u8, timeout_push: &str, timeout: u32) -> CreateReverseResponse {
    let h = hex::encode(hash160(&preimage_one()));
    let claim = format!("82012088a914{}8820{}ac", h, &K_HEX[2..]);
    let refund = format!("20{}ad{}b1", &R_HEX[2..], timeout_push);
    CreateReverseResponse::new(
        "id".to_string(),
        "lnbc".to_string(),
        SwapTree::new(Leaf::new(claim, version), Leaf::new(refund, version)),
        "bc1qlockup".to_string(),
        hex::decode(R_HEX).unwrap(),
        timeout,
        10_000,
        None,
    )
}

fn k() -> Vec<u8> {
    hex::decode(K_HEX).unwrap()
}

#[test]
fn validate_accepts_before_timeout_and_refuses_after() {
    let resp = response(0xc0, "0164", 100);
    assert_eq!(resp.validate(preimage_one(), k(), "BTC".to_string(), 50), Ok(()));
    assert_eq!(
        resp.validate(preimage_one(), k(), "BTC".to_string(), 150),
        Err(SwapError::TimeoutInvalid)
    );
    assert_eq!(
        resp.validate(preimage_one(), k(), "BTC".to_string(), 100),
        Err(SwapError::TimeoutInvalid)
    );
    assert_eq!(resp.validate(preimage_one(), k(), "BTC".to_string(), 99), Ok(()));
}

#[test]
fn validate_refuses_every_single_byte_change_of_the_preimage() {
    let resp = response(0xc0, "0164", 100);
    for i in 0..32 {
        let mut p = preimage_one();
        p[i] ^= 0x80;
        assert_eq!(
            resp.validate(p, k(), "BTC".to_string(), 50),
            Err(SwapError::PreimageMismatch)
        );
    }
}

#[test]
fn validate_refuses_another_claim_key() {
    let resp = response(0xc0, "0164", 100);
    assert_eq!(
        resp.validate(preimage_one(), hex::decode(R_HEX).unwrap(), "BTC".to_string(), 50),
        Err(SwapError::KeyMismatch)
    );
}

#[test]
fn validate_reports_malformed_input() {
    let resp = response(0xc0, "0164", 100);
    assert_eq!(
        resp.validate(vec![1u8; 31], k(), "BTC".to_string(), 50),
        Err(SwapError::InvalidPreimage)
    );
    assert_eq!(
        resp.validate(preimage_one(), vec![4u8; 33], "BTC".to_string(), 50),
        Err(SwapError::InvalidKey)
    );
    assert_eq!(
        resp.validate(preimage_one(), k(), "ETH".to_string(), 50),
        Err(SwapError::UnknownChain)
    );
}

#[test]
fn validate_uses_the_chain_leaf_version() {
    let btc = response(0xc0, "0164", 100);
    assert_eq!(
        btc.validate(preimage_one(), k(), "L-BTC".to_string(), 50),
        Err(SwapError::ScriptMismatch)
    );
    let liquid = response(0xc4, "0164", 100);
    assert_eq!(liquid.validate(preimage_one(), k(), "L-BTC".to_string(), 50), Ok(()));
    assert_eq!(
        liquid.validate(preimage_one(), k(), "BTC".to_string(), 50),
        Err(SwapError::ScriptMismatch)
    );
}

#[test]
fn validate_refuses_a_refund_leaf_with_another_timeout() {
    // the leaf says 101 while the response says 100
    let resp = response(0xc0, "0165", 100);
    assert_eq!(
        resp.validate(preimage_one(), k(), "BTC".to_string(), 50),
        Err(SwapError::ScriptMismatch)
    );
}

#[test]
fn validate_reports_a_malformed_refund_key_before_the_tree() {
    let mut resp = response(0xc0, "0164", 100);
    resp.refund_public_key = vec![9u8; 33];
    resp.swap_tree.claim_leaf.output = "00".to_string();
    assert_eq!(
        resp.validate(preimage_one(), k(), "BTC".to_string(), 50),
        Err(SwapError::InvalidKey)
    );
    let mut resp = response(0xc0, "0164", 100);
    resp.refund_public_key = vec![9u8; 33];
    assert_eq!(
        resp.validate(vec![7u8; 32], k(), "BTC".to_string(), 50),
        Err(SwapError::InvalidKey)
    );
}
