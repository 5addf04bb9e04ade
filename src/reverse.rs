use vstd::prelude::*;

use crate::crypto::{hash160_of, public_key_accepted};
use crate::error::SwapError;
use crate::hexcodec::hex_decoded;
use crate::keys::{bytes_equal, chain_of, parse_chain, parse_preimage, parse_public_key, x_only, Chain};
use crate::tree::{
    build_refund_script, build_reverse_claim_script, is_canonical_hex, read_leaf, refund_script,
    reverse_claim_script, SwapTree, ELEMENTS_LEAF_VERSION, TAPSCRIPT_LEAF_VERSION,
};

verus! {

/// The leaf version of tapscript leaves on a chain.
pub open spec fn leaf_version_of(chain: Chain) -> u8 {
    match chain {
        Chain::Bitcoin => TAPSCRIPT_LEAF_VERSION,
        Chain::Liquid => ELEMENTS_LEAF_VERSION,
    }
}

fn leaf_version(chain: Chain) -> (r: u8)
    ensures
        r == leaf_version_of(chain),
{
    match chain {
        Chain::Bitcoin => TAPSCRIPT_LEAF_VERSION,
        Chain::Liquid => ELEMENTS_LEAF_VERSION,
    }
}

/// The claim leaf script of a reverse response.
pub open spec fn claim_script_of(resp: CreateReverseResponse) -> Seq<u8> {
    hex_decoded(resp.swap_tree.claim_leaf.output@)
}

/// The hash that a reverse response's claim leaf locks to.
pub open spec fn embedded_hashlock(resp: CreateReverseResponse) -> Seq<u8> {
    claim_script_of(resp).subrange(6, 26)
}

/// The x-only key that a reverse response's claim leaf pays to.
pub open spec fn embedded_claim_key(resp: CreateReverseResponse) -> Seq<u8> {
    claim_script_of(resp).subrange(28, 60)
}

/// The claim leaf is a reverse-swap claim leaf under the chain's leaf version.
pub open spec fn claim_leaf_readable(resp: CreateReverseResponse, chain: Chain) -> bool {
    &&& is_canonical_hex(resp.swap_tree.claim_leaf.output@)
    &&& resp.swap_tree.claim_leaf.version == leaf_version_of(chain)
    &&& claim_script_of(resp).len() == 61
    &&& claim_script_of(resp) == reverse_claim_script(
        embedded_hashlock(resp),
        embedded_claim_key(resp),
    )
}

/// The refund leaf pays the response's refund key from its timeout height on.
pub open spec fn refund_leaf_matches(resp: CreateReverseResponse, chain: Chain) -> bool {
    &&& is_canonical_hex(resp.swap_tree.refund_leaf.output@)
    &&& resp.swap_tree.refund_leaf.version == leaf_version_of(chain)
    &&& hex_decoded(resp.swap_tree.refund_leaf.output@) == refund_script(
        x_only(resp.refund_public_key@),
        resp.timeout_block_height,
    )
}

/// The outcome of validating a reverse response against a preimage, the
/// client's claim key, a chain tag and the current chain height.
pub open spec fn validation_outcome(
    resp: CreateReverseResponse,
    preimage: Seq<u8>,
    our_key: Seq<u8>,
    chain: Seq<char>,
    height: u32,
) -> Result<(), SwapError> {
    if preimage.len() != 32 {
        Err(SwapError::InvalidPreimage)
    } else if !public_key_accepted(our_key) {
        Err(SwapError::InvalidKey)
    } else if chain_of(chain) is None {
        Err(SwapError::UnknownChain)
    } else if !public_key_accepted(resp.refund_public_key@) {
        Err(SwapError::InvalidKey)
    } else if !claim_leaf_readable(resp, chain_of(chain)->Some_0) {
        Err(SwapError::ScriptMismatch)
    } else if embedded_hashlock(resp) != hash160_of(preimage) {
        Err(SwapError::PreimageMismatch)
    } else if embedded_claim_key(resp) != x_only(our_key) {
        Err(SwapError::KeyMismatch)
    } else if !refund_leaf_matches(resp, chain_of(chain)->Some_0) {
        Err(SwapError::ScriptMismatch)
    } else if resp.timeout_block_height <= height {
        Err(SwapError::TimeoutInvalid)
    } else {
        Ok(())
    }
}

/// Everything that validation checks, but the preimage.
pub open spec fn response_consistent(
    resp: CreateReverseResponse,
    our_key: Seq<u8>,
    chain: Seq<char>,
    height: u32,
) -> bool {
    &&& public_key_accepted(our_key)
    &&& chain_of(chain) is Some
    &&& claim_leaf_readable(resp, chain_of(chain)->Some_0)
    &&& embedded_claim_key(resp) == x_only(our_key)
    &&& public_key_accepted(resp.refund_public_key@)
    &&& refund_leaf_matches(resp, chain_of(chain)->Some_0)
    &&& resp.timeout_block_height > height
}

/// The coordinator's answer to a reverse swap request: the invoice the client
/// pays, and the swap tree of the output the coordinator locks funds to.
#[derive(Debug)]
pub struct CreateReverseResponse {
    pub id: String,
    pub invoice: String,
    pub swap_tree: SwapTree,
    pub lockup_address: String,
    pub refund_public_key: Vec<u8>,
    pub timeout_block_height: u32,
    pub onchain_amount: u32,
    pub blinding_key: Option<String>,
}

impl CreateReverseResponse {
    pub fn new(
        id: String,
        invoice: String,
        swap_tree: SwapTree,
        lockup_address: String,
        refund_public_key: Vec<u8>,
        timeout_block_height: u32,
        onchain_amount: u32,
        blinding_key: Option<String>,
    ) -> (r: Self)
        ensures
            r.id == id,
            r.invoice == invoice,
            r.swap_tree == swap_tree,
            r.lockup_address == lockup_address,
            r.refund_public_key == refund_public_key,
            r.timeout_block_height == timeout_block_height,
            r.onchain_amount == onchain_amount,
            r.blinding_key == blinding_key,
    {
        CreateReverseResponse {
            id,
            invoice,
            swap_tree,
            lockup_address,
            refund_public_key,
            timeout_block_height,
            onchain_amount,
            blinding_key,
        }
    }

    /// Checks, before any funds move, that this response locks its output to
    /// the hash of `preimage` and to the client's claim key, that its refund
    /// leaf pays the response's refund key, and that its timeout lies after
    /// the chain height `current_height`.
    pub fn validate(
        &self,
        preimage: Vec<u8>,
        our_pubkey: Vec<u8>,
        chain: String,
        current_height: u32,
    ) -> (r: Result<(), SwapError>)
        ensures
            r == validation_outcome(*self, preimage@, our_pubkey@, chain@, current_height),
    {
        let preimage = match parse_preimage(preimage) {
            Ok(p) => p,
            Err(e) => return Err(e),
        };
        let our_key = match parse_public_key(our_pubkey) {
            Ok(k) => k,
            Err(e) => return Err(e),
        };
        let chain = match parse_chain(chain) {
            Ok(c) => c,
            Err(e) => return Err(e),
        };
        let refund_key = match parse_public_key(self.refund_public_key.clone()) {
            Ok(k) => k,
            Err(e) => return Err(e),
        };
        let version = leaf_version(chain);
        let claim = match read_leaf(&self.swap_tree.claim_leaf, version) {
            Some(b) => b,
            None => return Err(SwapError::ScriptMismatch),
        };
        if claim.len() != 61 {
            return Err(SwapError::ScriptMismatch);
        }
        let hashlock = crate::keys::copy_range(claim.as_slice(), 6, 26);
        let claim_x = crate::keys::copy_range(claim.as_slice(), 28, 60);
        let expected = build_reverse_claim_script(hashlock.as_slice(), claim_x.as_slice());
        if !bytes_equal(claim.as_slice(), expected.as_slice()) {
            return Err(SwapError::ScriptMismatch);
        }
        if !bytes_equal(hashlock.as_slice(), preimage.hash160()) {
            return Err(SwapError::PreimageMismatch);
        }
        let our_x = our_key.x_only();
        if !bytes_equal(claim_x.as_slice(), our_x.as_slice()) {
            return Err(SwapError::KeyMismatch);
        }
        let refund_x = refund_key.x_only();
        let expected_refund = build_refund_script(refund_x.as_slice(), self.timeout_block_height);
        let refund_ok = match read_leaf(&self.swap_tree.refund_leaf, version) {
            Some(b) => bytes_equal(b.as_slice(), expected_refund.as_slice()),
            None => false,
        };
        if !refund_ok {
            return Err(SwapError::ScriptMismatch);
        }
        if self.timeout_block_height <= current_height {
            return Err(SwapError::TimeoutInvalid);
        }
        Ok(())
    }
}

/// Validation succeeds only for a preimage whose HASH160 is the hash that the
/// claim leaf locks to. For a response whose every other check passes, it
/// succeeds exactly for those preimages; a 32-byte preimage with another hash
/// is refused with `PreimageMismatch` whenever the inputs parse and the
/// claim leaf can be read.
pub proof fn lemma_validate_preimage(
    resp: CreateReverseResponse,
    preimage: Seq<u8>,
    our_key: Seq<u8>,
    chain: Seq<char>,
    height: u32,
)
    requires
        preimage.len() == 32,
    ensures
        validation_outcome(resp, preimage, our_key, chain, height) is Ok ==> embedded_hashlock(resp)
            == hash160_of(preimage),
        response_consistent(resp, our_key, chain, height) ==> (validation_outcome(
            resp,
            preimage,
            our_key,
            chain,
            height,
        ) is Ok <==> embedded_hashlock(resp) == hash160_of(preimage)),
        ({
            &&& public_key_accepted(our_key)
            &&& chain_of(chain) is Some
            &&& public_key_accepted(resp.refund_public_key@)
            &&& claim_leaf_readable(resp, chain_of(chain)->Some_0)
            &&& embedded_hashlock(resp) != hash160_of(preimage)
        }) ==> validation_outcome(resp, preimage, our_key, chain, height) == Err::<(), SwapError>(
            SwapError::PreimageMismatch,
        ),
{
}

} // verus!
