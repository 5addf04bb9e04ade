//! Client-side logic for on-chain atomic swaps: parsing of untrusted key and
//! hash material, the two-leaf swap tree, derivation of the swap script from a
//! coordinator response, validation of reverse-swap responses, and the
//! descriptors of claim and refund transactions.

mod text;

pub mod address;
pub mod crypto;
pub mod error;
pub mod hexcodec;
pub mod keys;
pub mod pairs;
pub mod reverse;
pub mod script;
pub mod submarine;
pub mod tree;
pub mod tx;

pub use address::{validate_address, AddressNetwork};
pub use error::{ErrorKind, SwapError};
pub use keys::{
    parse_chain, parse_preimage, parse_preimage_hash, parse_public_key, Chain, Preimage,
    PreimageHash, PublicKey,
};
pub use pairs::{HeightResponse, PairLimits, PairMinerFees, ReverseLimits};
pub use reverse::CreateReverseResponse;
pub use script::{BtcSwapScript, SwapType};
pub use submarine::CreateSubmarineResponse;
pub use tree::{Leaf, SwapTree};
pub use tx::{BtcSwapTx, SpendMode, SpendPlan, SwapTxKind};
