use boltz_swaps::{validate_address, SwapError};

#[test]
fn mainnet_address_is_not_a_testnet_address() {
    let r = validate_address(
        "BTC".to_string(),
        "testnet".to_string(),
        "bc1qw508d6qejxtdg4y5r3zarvary0c5xw7kv8f3t4".to_string(),
    );
    assert_eq!(r, Ok(false));
}

#[test]
fn mainnet_address_is_a_mainnet_address() {
    let r = validate_address(
        "BTC".to_string(),
        "main".to_string(),
        "bc1qw508d6qejxtdg4y5r3zarvary0c5xw7kv8f3t4".to_string(),
    );
    assert_eq!(r, Ok(true));
}

#[test]
fn testnet_address_is_a_testnet_address() {
    let r = validate_address(
        "BTC".to_string(),
        "testnet".to_string(),
        "tb1qw508d6qejxtdg4y5r3zarvary0c5xw7kxpjzsx".to_string(),
    );
    assert_eq!(r, Ok(true));
}

#[test]
fn unparsable_address_is_invalid() {
    let r = validate_address("BTC".to_string(), "testnet".to_string(), "not-an-address".to_string());
    assert_eq!(r, Err(SwapError::InvalidAddress));
    let r = validate_address("L-BTC".to_string(), "main".to_string(), "not-an-address".to_string());
    assert_eq!(r, Err(SwapError::InvalidAddress));
}

#[test]
fn unknown_tags_are_refused() {
    let a = "bc1qw508d6qejxtdg4y5r3zarvary0c5xw7kv8f3t4".to_string();
    assert_eq!(
        validate_address("DOGE".to_string(), "main".to_string(), a.clone()),
        Err(SwapError::InvalidChain)
    );
    assert_eq!(
        validate_address("BTC".to_string(), "mainnet".to_string(), a),
        Err(SwapError::InvalidNetwork)
    );
}

#[test]
fn liquid_addresses_match_their_network_parameters() {
    let liquid = "ex1q7gkeyjut0mrxc3j0kjlt7rmcnvsh0gt45d3fud".to_string();
    assert_eq!(
        validate_address("L-BTC".to_string(), "main".to_string(), liquid.clone()),
        Ok(true)
    );
    assert_eq!(
        validate_address("L-BTC".to_string(), "regtest".to_string(), liquid),
        Ok(false)
    );
    let elements = "ert1qwhh2n5qypypm0eufahm2pvj8raj9zq5c27cysu".to_string();
    assert_eq!(
        validate_address("L-BTC".to_string(), "regtest".to_string(), elements),
        Ok(true)
    );
}
