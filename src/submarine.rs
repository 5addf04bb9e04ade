use vstd::prelude::*;

use crate::tree::SwapTree;

verus! {

/// The coordinator's answer to a submarine swap request: where the client
/// locks its funds, and the swap tree those funds are locked to.
#[derive(Debug)]
pub struct CreateSubmarineResponse {
    pub accept_zero_conf: bool,
    pub address: String,
    pub bip21: String,
    pub claim_public_key: Vec<u8>,
    pub expected_amount: u64,
    pub id: String,
    pub swap_tree: SwapTree,
    pub timeout_block_height: u64,
    pub referral_id: Option<String>,
    pub blinding_key: Option<String>,
}

impl CreateSubmarineResponse {
    pub fn new(
        accept_zero_conf: bool,
        address: String,
        bip21: String,
        claim_public_key: Vec<u8>,
        expected_amount: u64,
        id: String,
        swap_tree: SwapTree,
        timeout_block_height: u64,
        referral_id: Option<String>,
        blinding_key: Option<String>,
    ) -> (r: Self)
        ensures
            r.accept_zero_conf == accept_zero_conf,
            r.address == address,
            r.bip21 == bip21,
            r.claim_public_key == claim_public_key,
            r.expected_amount == expected_amount,
            r.id == id,
            r.swap_tree == swap_tree,
            r.timeout_block_height == timeout_block_height,
            r.referral_id == referral_id,
            r.blinding_key == blinding_key,
    {
        CreateSubmarineResponse {
            accept_zero_conf,
            address,
            bip21,
            claim_public_key,
            expected_amount,
            id,
            swap_tree,
            timeout_block_height,
            referral_id,
            blinding_key,
        }
    }
}

} // verus!
