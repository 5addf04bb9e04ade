use vstd::prelude::*;
use std::str::FromStr;

use crate::error::SwapError;
use crate::keys::{chain_of, Chain};
use crate::text::is_tag;

verus! {

/// Whether a string parses as a Bitcoin address of any network.
pub uninterp spec fn btc_address_parses(s: Seq<char>) -> bool;

/// Whether a string parses as a Liquid or Elements address.
pub uninterp spec fn liquid_address_parses(s: Seq<char>) -> bool;

/// Whether a parsable Bitcoin address belongs to the Bitcoin network that
/// corresponds to the tag (main: Bitcoin, testnet: Testnet, regtest: Regtest).
pub uninterp spec fn btc_address_on_network(s: Seq<char>, network: AddressNetwork) -> bool;

/// Whether a parsable Liquid address was read with the parameters of the
/// network that corresponds to the tag (main: Liquid, testnet: Liquid
/// testnet, regtest: Elements).
pub uninterp spec fn liquid_address_on_network(s: Seq<char>, network: AddressNetwork) -> bool;

/// The networks an address can be checked against.
#[derive(Debug, Clone, Copy, PartialEq, Eq, Structural)]
pub enum AddressNetwork {
    Main,
    Testnet,
    Regtest,
}

/// The network a tag names, if any.
pub open spec fn network_of(tag: Seq<char>) -> Option<AddressNetwork> {
    if tag == "main"@ {
        Some(AddressNetwork::Main)
    } else if tag == "testnet"@ {
        Some(AddressNetwork::Testnet)
    } else if tag == "regtest"@ {
        Some(AddressNetwork::Regtest)
    } else {
        None
    }
}

/// Maps "main", "testnet" and "regtest" to their networks.
pub fn parse_network(network: &String) -> (r: Option<AddressNetwork>)
    ensures
        r == network_of(network@),
{
    if is_tag(network, "main") {
        Some(AddressNetwork::Main)
    } else if is_tag(network, "testnet") {
        Some(AddressNetwork::Testnet)
    } else if is_tag(network, "regtest") {
        Some(AddressNetwork::Regtest)
    } else {
        None
    }
}

/// Relies on bitcoin's `FromStr` for `Address<NetworkUnchecked>`, whose
/// acceptance of a string depends on the string alone, and on
/// `Address::is_valid_for_network`, asked for the Bitcoin network that
/// corresponds to the tag. (The parsed address stays inside: its type is
/// bounded by a sealed trait that cannot be declared here.)
#[verifier::external_body]
fn btc_address_on(s: &str, network: AddressNetwork) -> (r: Option<bool>)
    ensures
        r is Some <==> btc_address_parses(s@),
        r matches Some(b) ==> b == btc_address_on_network(s@, network),
{
    let n = match network {
        AddressNetwork::Main => bitcoin::Network::Bitcoin,
        AddressNetwork::Testnet => bitcoin::Network::Testnet,
        AddressNetwork::Regtest => bitcoin::Network::Regtest,
    };
    match bitcoin::Address::from_str(s) {
        Ok(a) => Some(a.is_valid_for_network(n)),
        Err(_) => None,
    }
}

/// Relies on elements' `FromStr` for `Address`, whose acceptance of a
/// string depends on the string alone, and on the derived equality of
/// `AddressParams`, compared with the parameters of the network that
/// corresponds to the tag.
#[verifier::external_body]
fn liquid_address_on(s: &str, network: AddressNetwork) -> (r: Option<bool>)
    ensures
        r is Some <==> liquid_address_parses(s@),
        r matches Some(b) ==> b == liquid_address_on_network(s@, network),
{
    let params = match network {
        AddressNetwork::Main => &elements::AddressParams::LIQUID,
        AddressNetwork::Testnet => &elements::AddressParams::LIQUID_TESTNET,
        AddressNetwork::Regtest => &elements::AddressParams::ELEMENTS,
    };
    match elements::Address::from_str(s) {
        Ok(a) => Some(a.params == params),
        Err(_) => None,
    }
}

/// Whether a parsable address of the chain belongs to the network.
pub open spec fn address_on_network(chain: Chain, network: AddressNetwork, address: Seq<char>) -> bool {
    match chain {
        Chain::Bitcoin => btc_address_on_network(address, network),
        Chain::Liquid => liquid_address_on_network(address, network),
    }
}

/// The outcome of checking an address against a chain tag and a network tag.
pub open spec fn address_check(chain: Seq<char>, network: Seq<char>, address: Seq<char>) -> Result<
    bool,
    SwapError,
> {
    match chain_of(chain) {
        None => Err(SwapError::InvalidChain),
        Some(c) => {
            let parses = match c {
                Chain::Bitcoin => btc_address_parses(address),
                Chain::Liquid => liquid_address_parses(address),
            };
            match network_of(network) {
                None => Err(SwapError::InvalidNetwork),
                Some(n) => if !parses {
                    Err(SwapError::InvalidAddress)
                } else {
                    Ok(address_on_network(c, n, address))
                },
            }
        },
    }
}

/// Checks that `address` is a valid address of the chain `chain` ("BTC" or
/// "L-BTC"), then returns whether it belongs to the network `network`
/// ("main", "testnet" or "regtest"). `false` never means a malformed address.
pub fn validate_address(chain: String, network: String, address: String) -> (r: Result<bool, SwapError>)
    ensures
        r == address_check(chain@, network@, address@),
{
    let c = if is_tag(&chain, "BTC") {
        Chain::Bitcoin
    } else if is_tag(&chain, "L-BTC") {
        Chain::Liquid
    } else {
        return Err(SwapError::InvalidChain);
    };
    let n = match parse_network(&network) {
        Some(n) => n,
        None => return Err(SwapError::InvalidNetwork),
    };
    let checked = match c {
        Chain::Bitcoin => btc_address_on(address.as_str(), n),
        Chain::Liquid => liquid_address_on(address.as_str(), n),
    };
    match checked {
        Some(b) => Ok(b),
        None => Err(SwapError::InvalidAddress),
    }
}

} // verus!
