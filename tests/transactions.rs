use boltz_swaps::tx::spend_mode;
use boltz_swaps::{
    BtcSwapScript, BtcSwapTx, CreateReverseResponse, CreateSubmarineResponse, Leaf, SpendMode,
    SwapError, SwapTree, SwapTxKind,
};

const K_HEX: &str = "0279be667ef9dcbbac55a06295ce870b07029bfcdb2dce28d959f2815b16f81798";
const R_HEX: &str = "02c6047f9441ed7d6d3045406e95c07cd85c778e4b8cef3ca7abac09b95c709ee5";

fn hash160(data: &[u8]) -> Vec<u8> {
    let h = <bitcoin::hashes::hash160::Hash as bitcoin::hashes::Hash>::hash(data);
    bitcoin::hashes::Hash::to_byte_array(h).to_vec()
}

fn secret(n: u8) -> Vec<u8> {
    let mut s = vec![0u8; 32];
    s[31] = n;
    s
}

fn preimage() -> Vec<u8> {
    vec![0x42u8; 32]
}

fn reverse_script() -> BtcSwapScript {
    let h = hex::encode(hash160(&preimage()));
    let claim = format!("82012088a914{}8820{}ac", h, &K_HEX[2..]);
    let refund = format!("20{}ad{}b1", &R_HEX[2..], "0164");
    let resp = CreateReverseResponse::new(
        "id".to_string(),
        "lnbc".to_string(),
        SwapTree::new(Leaf::new(claim, 0xc0), Leaf::new(refund, 0xc0)),
        "bc1qlockup".to_string(),
        hex::decode(R_HEX).unwrap(),
        100,
        10_000,
        None,
    );
    BtcSwapScript::from_reverse_response(resp, hex::decode(K_HEX).unwrap(), "bc1qlockup").unwrap()
}

fn submarine_script(zero_conf: bool) -> BtcSwapScript {
    let h = hex::encode(hash160(&preimage()));
    let claim = format!("a914{}8820{}ac", h, &R_HEX[2..]);
    let refund = format!("20{}ad{}b1", &K_HEX[2..], "0164");
    let resp = CreateSubmarineResponse::new(
        zero_conf,
        "bc1qfunding".to_string(),
        "bitcoin:bc1qfunding".to_string(),
        hex::decode(R_HEX).unwrap(),
        20_000,
        "id".to_string(),
        SwapTree::new(Leaf::new(claim, 0xc0), Leaf::new(refund, 0xc0)),
        100,
        None,
        None,
    );
    BtcSwapScript::from_submarine_response(resp, hex::decode(K_HEX).unwrap(), "bc1qfunding").unwrap()
}

fn utxo() -> (String, u64) {
    ("ab".repeat(32), 1)
}

#[test]
fn claim_descriptor_keeps_script_and_output() {
    let base = BtcSwapTx::new(SwapTxKind::Refund, reverse_script(), "x".to_string(), utxo());
    let claim = base.new_claim("bc1qdest".to_string()).unwrap();
    assert_eq!(claim.kind, SwapTxKind::Claim);
    assert_eq!(claim.output_address, "bc1qdest");
    assert_eq!(claim.utxo, utxo());
    assert!(claim.swap_script.is_reverse());
}

#[test]
fn claim_of_a_submarine_swap_needs_zero_conf() {
    let no = BtcSwapTx::new(SwapTxKind::Claim, submarine_script(false), "x".to_string(), utxo());
    assert_eq!(no.new_claim("bc1qdest".to_string()).unwrap_err(), SwapError::WrongSwapType);
    let yes = BtcSwapTx::new(SwapTxKind::Claim, submarine_script(true), "x".to_string(), utxo());
    assert!(yes.new_claim("bc1qdest".to_string()).is_ok());
}

#[test]
fn refund_waits_for_the_timeout() {
    let base = BtcSwapTx::new(SwapTxKind::Claim, submarine_script(false), "x".to_string(), utxo());
    assert_eq!(
        base.new_refund("bc1qback".to_string(), 99).unwrap_err(),
        SwapError::TimeoutNotReached
    );
    let refund = base.new_refund("bc1qback".to_string(), 100).unwrap();
    assert_eq!(refund.kind, SwapTxKind::Refund);
    assert_eq!(refund.output_address, "bc1qback");
    assert_eq!(refund.utxo, utxo());
}

#[test]
fn refund_of_a_reverse_swap_is_refused() {
    let base = BtcSwapTx::new(SwapTxKind::Claim, reverse_script(), "x".to_string(), utxo());
    assert_eq!(
        base.new_refund("bc1qback".to_string(), 1_000).unwrap_err(),
        SwapError::WrongSwapType
    );
}

#[test]
fn claim_plan_checks_preimage_and_key() {
    let tx = BtcSwapTx::new(SwapTxKind::Claim, reverse_script(), "bc1qdest".to_string(), utxo());
    let plan = tx.prepare_claim(secret(1), preimage(), Some(true)).unwrap();
    assert_eq!(plan.kind, SwapTxKind::Claim);
    assert_eq!(plan.mode, SpendMode::Cooperative);
    assert_eq!(plan.secret_key, secret(1));
    assert_eq!(plan.preimage.unwrap().to_bytes(), preimage());
    let plan = tx.prepare_claim(secret(1), preimage(), None).unwrap();
    assert_eq!(plan.mode, SpendMode::ScriptPath);
    assert_eq!(
        tx.prepare_claim(secret(1), vec![0x43u8; 32], Some(true)).unwrap_err(),
        SwapError::InvalidPreimage
    );
    assert_eq!(
        tx.prepare_claim(secret(1), vec![0x42u8; 31], Some(true)).unwrap_err(),
        SwapError::InvalidPreimage
    );
    assert_eq!(
        tx.prepare_claim(secret(2), preimage(), Some(true)).unwrap_err(),
        SwapError::KeyMismatch
    );
    assert_eq!(
        tx.prepare_claim(vec![0u8; 32], preimage(), Some(true)).unwrap_err(),
        SwapError::InvalidKey
    );
}

#[test]
fn refund_plan_checks_the_refund_key() {
    let tx = BtcSwapTx::new(SwapTxKind::Refund, submarine_script(false), "bc1qback".to_string(), utxo());
    let plan = tx.prepare_refund(secret(1), Some(false)).unwrap();
    assert_eq!(plan.kind, SwapTxKind::Refund);
    assert_eq!(plan.mode, SpendMode::ScriptPath);
    assert!(plan.preimage.is_none());
    assert_eq!(tx.prepare_refund(secret(2), None).unwrap_err(), SwapError::KeyMismatch);
    assert_eq!(
        tx.prepare_claim(secret(1), preimage(), None).unwrap_err(),
        SwapError::WrongSwapType
    );
}

#[test]
fn signer_is_the_key_of_the_spent_leaf() {
    let claim = BtcSwapTx::new(SwapTxKind::Claim, reverse_script(), "a".to_string(), utxo());
    assert_eq!(claim.check_signer(&secret(1)), Ok(()));
    assert_eq!(claim.check_signer(&secret(2)), Err(SwapError::KeyMismatch));
    let refund = BtcSwapTx::new(SwapTxKind::Refund, reverse_script(), "a".to_string(), utxo());
    assert_eq!(refund.check_signer(&secret(2)), Ok(()));
    assert_eq!(refund.check_signer(&secret(1)), Err(SwapError::KeyMismatch));
    assert_eq!(refund.check_signer(&[1u8; 31]), Err(SwapError::InvalidKey));
}

#[test]
fn spend_mode_defaults_to_the_script_path() {
    assert_eq!(spend_mode(Some(true)), SpendMode::Cooperative);
    assert_eq!(spend_mode(Some(false)), SpendMode::ScriptPath);
    assert_eq!(spend_mode(None), SpendMode::ScriptPath);
}

#[test]
fn size_of_a_reverse_claim() {
    let tx = BtcSwapTx::new(SwapTxKind::Claim, reverse_script(), "bc1qdest".to_string(), utxo());
    assert_eq!(tx.size(secret(1), preimage()), Ok(152));
}

#[test]
fn size_of_a_submarine_refund() {
    let tx = BtcSwapTx::new(SwapTxKind::Refund, submarine_script(false), "bc1qback".to_string(), utxo());
    assert_eq!(tx.size(secret(1), preimage()), Ok(137));
}

#[test]
fn size_is_the_same_for_the_same_inputs() {
    let a = BtcSwapTx::new(SwapTxKind::Claim, reverse_script(), "bc1qa".to_string(), utxo());
    let b = BtcSwapTx::new(SwapTxKind::Claim, reverse_script(), "bc1qb".to_string(), ("cd".repeat(32), 7));
    let first = a.size(secret(3), preimage());
    assert_eq!(first, a.size(secret(3), preimage()));
    assert_eq!(first, b.size(secret(3), preimage()));
}

#[test]
fn size_refuses_unparsable_material() {
    let tx = BtcSwapTx::new(SwapTxKind::Claim, reverse_script(), "bc1qdest".to_string(), utxo());
    assert_eq!(tx.size(vec![0u8; 32], preimage()), Err(SwapError::InvalidKey));
    assert_eq!(tx.size(secret(1), vec![1u8; 33]), Err(SwapError::InvalidPreimage));
}

#[test]
fn negated_key_is_not_the_signer() {
    // n - 1 has the public key -G: the same x coordinate as G, the other parity
    let neg_one = hex::decode("fffffffffffffffffffffffffffffffebaaedce6af48a03bbfd25e8cd0364140").unwrap();
    let claim = BtcSwapTx::new(SwapTxKind::Claim, reverse_script(), "a".to_string(), utxo());
    assert_eq!(claim.check_signer(&neg_one), Err(SwapError::KeyMismatch));
    assert_eq!(claim.check_signer(&secret(1)), Ok(()));
}
