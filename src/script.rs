use vstd::prelude::*;

use crate::crypto::public_key_accepted;
use crate::error::SwapError;
use crate::hexcodec::{encode_hex, hex_decoded, hex_lower};
use crate::keys::{bytes_equal, copy_range, parse_public_key, x_only, PublicKey};
use crate::reverse::CreateReverseResponse;
use crate::submarine::CreateSubmarineResponse;
use crate::text::is_tag;
use crate::tree::{
    build_refund_script, build_reverse_claim_script, build_submarine_claim_script,
    is_canonical_hex, read_leaf, refund_script, reverse_claim_script, submarine_claim_script, Leaf,
    SwapTree, TAPSCRIPT_LEAF_VERSION,
};

verus! {

/// The direction of a swap.
#[derive(Debug, Clone, Copy, PartialEq, Eq, Structural)]
pub enum SwapType {
    /// The client locks on-chain funds; the coordinator claims them.
    Submarine,
    /// The coordinator locks on-chain funds; the client claims them.
    ReverseSubmarine,
}

/// What a derived swap script consists of.
pub struct ScriptView {
    pub swap_type: SwapType,
    /// HASH160 of the swap secret.
    pub hashlock: Seq<u8>,
    /// Encoding of the key that spends along the claim leaf.
    pub receiver_pubkey: Seq<u8>,
    /// Encoding of the key that spends along the refund leaf.
    pub sender_pubkey: Seq<u8>,
    /// Block height from which the refund leaf can be spent.
    pub locktime: u32,
    /// Address the swap's funds are locked to.
    pub funding_address: Seq<char>,
    /// Whether the coordinator accepts an unconfirmed lockup.
    pub accept_zero_conf: bool,
    /// Blinding key of a confidential lockup, if any.
    pub blinding_key: Option<Seq<char>>,
}

/// The text of an optional string.
pub open spec fn opt_text(o: Option<String>) -> Option<Seq<char>> {
    match o {
        Some(t) => Some(t@),
        None => None,
    }
}

/// Copies an optional string.
fn clone_opt_text(o: &Option<String>) -> (r: Option<String>)
    ensures
        opt_text(r) == opt_text(*o),
{
    match o {
        Some(t) => Some(t.clone()),
        None => None,
    }
}

/// The script bytes of the claim leaf of a derived script.
pub open spec fn claim_leaf_script(s: ScriptView) -> Seq<u8> {
    if s.swap_type == SwapType::Submarine {
        submarine_claim_script(s.hashlock, x_only(s.receiver_pubkey))
    } else {
        reverse_claim_script(s.hashlock, x_only(s.receiver_pubkey))
    }
}

/// The script bytes of the refund leaf of a derived script.
pub open spec fn refund_leaf_script(s: ScriptView) -> Seq<u8> {
    refund_script(x_only(s.sender_pubkey), s.locktime)
}

/// A leaf holds the given script as canonical (lower-case) hex, under the
/// tapscript leaf version.
pub open spec fn leaf_holds(l: Leaf, script: Seq<u8>) -> bool {
    &&& is_canonical_hex(l.output@)
    &&& l.version == TAPSCRIPT_LEAF_VERSION
    &&& hex_decoded(l.output@) == script
}

/// The hashlock of a submarine response's claim leaf, read at its fixed
/// offset.
pub open spec fn submarine_hashlock(resp: CreateSubmarineResponse) -> Seq<u8> {
    hex_decoded(resp.swap_tree.claim_leaf.output@).subrange(2, 22)
}

/// The swap tree of a submarine response is the one that the response's claim
/// key, the client's refund key and the response's timeout give.
pub open spec fn submarine_tree_matches(resp: CreateSubmarineResponse, our_key: Seq<u8>) -> bool {
    let claim = hex_decoded(resp.swap_tree.claim_leaf.output@);
    &&& claim.len() == 57
    &&& leaf_holds(
        resp.swap_tree.claim_leaf,
        submarine_claim_script(claim.subrange(2, 22), x_only(resp.claim_public_key@)),
    )
    &&& resp.timeout_block_height <= u32::MAX
    &&& leaf_holds(
        resp.swap_tree.refund_leaf,
        refund_script(x_only(our_key), resp.timeout_block_height as u32),
    )
}

/// The outcome of deriving the script of a submarine swap, given the address
/// that the swap's taproot output key has (computed by the caller from the
/// two keys and the tree).
pub open spec fn submarine_derivation(
    resp: CreateSubmarineResponse,
    our_key: Seq<u8>,
    expected_address: Seq<char>,
) -> Result<ScriptView, SwapError> {
    if !public_key_accepted(our_key) || !public_key_accepted(resp.claim_public_key@) {
        Err(SwapError::InvalidKey)
    } else if !submarine_tree_matches(resp, our_key) || resp.address@ != expected_address {
        Err(SwapError::ScriptMismatch)
    } else {
        Ok(
            ScriptView {
                swap_type: SwapType::Submarine,
                hashlock: submarine_hashlock(resp),
                receiver_pubkey: resp.claim_public_key@,
                sender_pubkey: our_key,
                locktime: resp.timeout_block_height as u32,
                funding_address: resp.address@,
                accept_zero_conf: resp.accept_zero_conf,
                blinding_key: opt_text(resp.blinding_key),
            },
        )
    }
}

/// The hashlock of a reverse response's claim leaf, read at its fixed offset.
pub open spec fn reverse_hashlock(resp: CreateReverseResponse) -> Seq<u8> {
    hex_decoded(resp.swap_tree.claim_leaf.output@).subrange(6, 26)
}

/// The swap tree of a reverse response is the one that the client's claim key,
/// the response's refund key and the response's timeout give.
pub open spec fn reverse_tree_matches(resp: CreateReverseResponse, our_key: Seq<u8>) -> bool {
    let claim = hex_decoded(resp.swap_tree.claim_leaf.output@);
    &&& claim.len() == 61
    &&& leaf_holds(
        resp.swap_tree.claim_leaf,
        reverse_claim_script(claim.subrange(6, 26), x_only(our_key)),
    )
    &&& leaf_holds(
        resp.swap_tree.refund_leaf,
        refund_script(x_only(resp.refund_public_key@), resp.timeout_block_height),
    )
}

/// The outcome of deriving the script of a reverse swap, given the address
/// that the swap's taproot output key has (computed by the caller from the
/// two keys and the tree).
pub open spec fn reverse_derivation(
    resp: CreateReverseResponse,
    our_key: Seq<u8>,
    expected_address: Seq<char>,
) -> Result<ScriptView, SwapError> {
    if !public_key_accepted(our_key) || !public_key_accepted(resp.refund_public_key@) {
        Err(SwapError::InvalidKey)
    } else if !reverse_tree_matches(resp, our_key) || resp.lockup_address@ != expected_address {
        Err(SwapError::ScriptMismatch)
    } else {
        Ok(
            ScriptView {
                swap_type: SwapType::ReverseSubmarine,
                hashlock: reverse_hashlock(resp),
                receiver_pubkey: our_key,
                sender_pubkey: resp.refund_public_key@,
                locktime: resp.timeout_block_height,
                funding_address: resp.lockup_address@,
                accept_zero_conf: false,
                blinding_key: opt_text(resp.blinding_key),
            },
        )
    }
}

/// Whether a leaf holds exactly the given script.
fn leaf_is(l: &Leaf, script: &[u8]) -> (r: bool)
    ensures
        r == leaf_holds(*l, script@),
{
    match read_leaf(l, TAPSCRIPT_LEAF_VERSION) {
        Some(b) => bytes_equal(b.as_slice(), script),
        None => false,
    }
}

/// A swap script rebuilt from a coordinator response and checked against the
/// client's own key and against the address its taproot output has. It is
/// only made by derivation, so every value of it has passed those checks.
#[derive(Debug)]
pub struct BtcSwapScript {
    swap_type: SwapType,
    hashlock: Vec<u8>,
    receiver_pubkey: PublicKey,
    sender_pubkey: PublicKey,
    locktime: u32,
    funding_address: String,
    accept_zero_conf: bool,
    blinding_key: Option<String>,
}

impl Clone for BtcSwapScript {
    fn clone(&self) -> (r: Self)
        ensures
            r@ == self@,
    {
        proof {
            use_type_invariant(self);
        }
        BtcSwapScript {
            swap_type: self.swap_type,
            hashlock: copy_range(self.hashlock.as_slice(), 0, self.hashlock.len()),
            receiver_pubkey: self.receiver_pubkey.clone(),
            sender_pubkey: self.sender_pubkey.clone(),
            locktime: self.locktime,
            funding_address: self.funding_address.clone(),
            accept_zero_conf: self.accept_zero_conf,
            blinding_key: clone_opt_text(&self.blinding_key),
        }
    }
}

impl View for BtcSwapScript {
    type V = ScriptView;

    closed spec fn view(&self) -> ScriptView {
        ScriptView {
            swap_type: self.swap_type,
            hashlock: self.hashlock@,
            receiver_pubkey: self.receiver_pubkey@,
            sender_pubkey: self.sender_pubkey@,
            locktime: self.locktime,
            funding_address: self.funding_address@,
            accept_zero_conf: self.accept_zero_conf,
            blinding_key: opt_text(self.blinding_key),
        }
    }
}

impl BtcSwapScript {
    #[verifier::type_invariant]
    closed spec fn inv(&self) -> bool {
        self.hashlock@.len() == 20
    }

    /// Derives the script of a submarine swap from the coordinator's response
    /// and the client's refund key, and checks that the response's swap tree
    /// is exactly the one those give and that the response's address is
    /// `expected_address`, the address of the taproot output that the two
    /// keys and the tree make. On success the rebuilt tree is the response's.
    pub fn from_submarine_response(
        created_response: CreateSubmarineResponse,
        our_pubkey: Vec<u8>,
        expected_address: &str,
    ) -> (r: Result<Self, SwapError>)
        ensures
            match r {
                Ok(s) => submarine_derivation(created_response, our_pubkey@, expected_address@)
                    == Ok::<ScriptView, SwapError>(s@),
                Err(e) => submarine_derivation(created_response, our_pubkey@, expected_address@)
                    == Err::<ScriptView, SwapError>(e),
            },
            r matches Ok(s) ==> hex_lower(claim_leaf_script(s@))
                == created_response.swap_tree.claim_leaf.output@ && hex_lower(
                refund_leaf_script(s@),
            ) == created_response.swap_tree.refund_leaf.output@,
    {
        let ghost resp = created_response;
        let ghost our = our_pubkey@;
        let our_key = match parse_public_key(our_pubkey) {
            Ok(k) => k,
            Err(e) => return Err(e),
        };
        let claim_key = match parse_public_key(created_response.claim_public_key) {
            Ok(k) => k,
            Err(e) => return Err(e),
        };
        let tree = created_response.swap_tree;
        let claim = match read_leaf(&tree.claim_leaf, TAPSCRIPT_LEAF_VERSION) {
            Some(b) => b,
            None => return Err(SwapError::ScriptMismatch),
        };
        if claim.len() != 57 {
            return Err(SwapError::ScriptMismatch);
        }
        let hashlock = copy_range(claim.as_slice(), 2, 22);
        let claim_x = claim_key.x_only();
        let expected_claim = build_submarine_claim_script(hashlock.as_slice(), claim_x.as_slice());
        if !bytes_equal(claim.as_slice(), expected_claim.as_slice()) {
            return Err(SwapError::ScriptMismatch);
        }
        if created_response.timeout_block_height > u32::MAX as u64 {
            return Err(SwapError::ScriptMismatch);
        }
        let locktime = created_response.timeout_block_height as u32;
        let our_x = our_key.x_only();
        let expected_refund = build_refund_script(our_x.as_slice(), locktime);
        if !leaf_is(&tree.refund_leaf, expected_refund.as_slice()) {
            return Err(SwapError::ScriptMismatch);
        }
        if !is_tag(&created_response.address, expected_address) {
            return Err(SwapError::ScriptMismatch);
        }
        let s = BtcSwapScript {
            swap_type: SwapType::Submarine,
            hashlock,
            receiver_pubkey: claim_key,
            sender_pubkey: our_key,
            locktime,
            funding_address: created_response.address,
            accept_zero_conf: created_response.accept_zero_conf,
            blinding_key: created_response.blinding_key,
        };
        assert(submarine_tree_matches(resp, our));
        Ok(s)
    }

    /// Derives the script of a reverse swap from the coordinator's response and
    /// the client's claim key, and checks that the response's swap tree is
    /// exactly the one those give and that the response's lockup address is
    /// `expected_address`, the address of the taproot output that the two
    /// keys and the tree make. On success the rebuilt tree is the response's.
    pub fn from_reverse_response(
        created_response: CreateReverseResponse,
        claim_public_key: Vec<u8>,
        expected_address: &str,
    ) -> (r: Result<Self, SwapError>)
        ensures
            match r {
                Ok(s) => reverse_derivation(created_response, claim_public_key@, expected_address@)
                    == Ok::<ScriptView, SwapError>(s@),
                Err(e) => reverse_derivation(created_response, claim_public_key@, expected_address@)
                    == Err::<ScriptView, SwapError>(e),
            },
            r matches Ok(s) ==> hex_lower(claim_leaf_script(s@))
                == created_response.swap_tree.claim_leaf.output@ && hex_lower(
                refund_leaf_script(s@),
            ) == created_response.swap_tree.refund_leaf.output@,
    {
        let ghost resp = created_response;
        let ghost our = claim_public_key@;
        let our_key = match parse_public_key(claim_public_key) {
            Ok(k) => k,
            Err(e) => return Err(e),
        };
        let refund_key = match parse_public_key(created_response.refund_public_key) {
            Ok(k) => k,
            Err(e) => return Err(e),
        };
        let tree = created_response.swap_tree;
        let claim = match read_leaf(&tree.claim_leaf, TAPSCRIPT_LEAF_VERSION) {
            Some(b) => b,
            None => return Err(SwapError::ScriptMismatch),
        };
        if claim.len() != 61 {
            return Err(SwapError::ScriptMismatch);
        }
        let hashlock = copy_range(claim.as_slice(), 6, 26);
        let our_x = our_key.x_only();
        let expected_claim = build_reverse_claim_script(hashlock.as_slice(), our_x.as_slice());
        if !bytes_equal(claim.as_slice(), expected_claim.as_slice()) {
            return Err(SwapError::ScriptMismatch);
        }
        let locktime = created_response.timeout_block_height;
        let refund_x = refund_key.x_only();
        let expected_refund = build_refund_script(refund_x.as_slice(), locktime);
        if !leaf_is(&tree.refund_leaf, expected_refund.as_slice()) {
            return Err(SwapError::ScriptMismatch);
        }
        if !is_tag(&created_response.lockup_address, expected_address) {
            return Err(SwapError::ScriptMismatch);
        }
        let s = BtcSwapScript {
            swap_type: SwapType::ReverseSubmarine,
            hashlock,
            receiver_pubkey: our_key,
            sender_pubkey: refund_key,
            locktime,
            funding_address: created_response.lockup_address,
            accept_zero_conf: false,
            blinding_key: created_response.blinding_key,
        };
        assert(reverse_tree_matches(resp, our));
        Ok(s)
    }

    pub fn is_submarine(&self) -> (r: bool)
        ensures
            r == (self@.swap_type == SwapType::Submarine),
    {
        self.swap_type == SwapType::Submarine
    }

    pub fn is_reverse(&self) -> (r: bool)
        ensures
            r == (self@.swap_type == SwapType::ReverseSubmarine),
    {
        self.swap_type == SwapType::ReverseSubmarine
    }

    /// The bytes of the claim leaf.
    pub fn claim_script(&self) -> (r: Vec<u8>)
        ensures
            r@ == claim_leaf_script(self@),
            r@.len() <= 61,
    {
        proof {
            use_type_invariant(self);
        }
        let receiver_x = self.receiver_pubkey.x_only();
        match self.swap_type {
            SwapType::Submarine => build_submarine_claim_script(
                self.hashlock.as_slice(),
                receiver_x.as_slice(),
            ),
            SwapType::ReverseSubmarine => build_reverse_claim_script(
                self.hashlock.as_slice(),
                receiver_x.as_slice(),
            ),
        }
    }

    /// The bytes of the refund leaf.
    pub fn refund_script(&self) -> (r: Vec<u8>)
        ensures
            r@ == refund_leaf_script(self@),
            r@.len() <= 41,
    {
        let sender_x = self.sender_pubkey.x_only();
        build_refund_script(sender_x.as_slice(), self.locktime)
    }

    /// The swap tree this script spends from, rebuilt from its parts.
    pub fn swap_tree(&self) -> (t: SwapTree)
        ensures
            t.claim_leaf.output@ == hex_lower(claim_leaf_script(self@)),
            t.claim_leaf.version == TAPSCRIPT_LEAF_VERSION,
            t.refund_leaf.output@ == hex_lower(refund_leaf_script(self@)),
            t.refund_leaf.version == TAPSCRIPT_LEAF_VERSION,
    {
        let claim = self.claim_script();
        let refund = self.refund_script();
        SwapTree {
            claim_leaf: Leaf {
                output: encode_hex(claim.as_slice()),
                version: TAPSCRIPT_LEAF_VERSION,
            },
            refund_leaf: Leaf {
                output: encode_hex(refund.as_slice()),
                version: TAPSCRIPT_LEAF_VERSION,
            },
        }
    }

    pub fn swap_type(&self) -> (r: SwapType)
        ensures
            r == self@.swap_type,
    {
        self.swap_type
    }

    /// HASH160 of the swap secret that the claim leaf locks to.
    pub fn hashlock(&self) -> (r: &[u8])
        ensures
            r@ == self@.hashlock,
            r@.len() == 20,
    {
        proof {
            use_type_invariant(self);
        }
        self.hashlock.as_slice()
    }

    /// The key that spends along the claim leaf.
    pub fn receiver_pubkey(&self) -> (r: &PublicKey)
        ensures
            r@ == self@.receiver_pubkey,
    {
        &self.receiver_pubkey
    }

    /// The key that spends along the refund leaf.
    pub fn sender_pubkey(&self) -> (r: &PublicKey)
        ensures
            r@ == self@.sender_pubkey,
    {
        &self.sender_pubkey
    }

    /// The height from which the refund leaf can be spent.
    pub fn locktime(&self) -> (r: u32)
        ensures
            r == self@.locktime,
    {
        self.locktime
    }

    pub fn funding_address(&self) -> (r: &String)
        ensures
            r@ == self@.funding_address,
    {
        &self.funding_address
    }

    pub fn accept_zero_conf(&self) -> (r: bool)
        ensures
            r == self@.accept_zero_conf,
    {
        self.accept_zero_conf
    }

    pub fn blinding_key(&self) -> (r: &Option<String>)
        ensures
            opt_text(*r) == self@.blinding_key,
    {
        &self.blinding_key
    }
}

/// Deriving a submarine script and rebuilding its swap tree gives back the
/// response's own tree: the same leaf scripts, in the same (canonical) hex,
/// under the same leaf versions.
pub proof fn lemma_submarine_tree_round_trip(
    resp: CreateSubmarineResponse,
    our_key: Seq<u8>,
    expected_address: Seq<char>,
)
    requires
        submarine_derivation(resp, our_key, expected_address) is Ok,
    ensures
        ({
            let s = submarine_derivation(resp, our_key, expected_address)->Ok_0;
            &&& hex_lower(claim_leaf_script(s)) == resp.swap_tree.claim_leaf.output@
            &&& hex_lower(refund_leaf_script(s)) == resp.swap_tree.refund_leaf.output@
            &&& resp.swap_tree.claim_leaf.version == TAPSCRIPT_LEAF_VERSION
            &&& resp.swap_tree.refund_leaf.version == TAPSCRIPT_LEAF_VERSION
        }),
{
}

/// Deriving a reverse script and rebuilding its swap tree gives back the
/// response's own tree: the same leaf scripts, in the same (canonical) hex,
/// under the same leaf versions.
pub proof fn lemma_reverse_tree_round_trip(
    resp: CreateReverseResponse,
    our_key: Seq<u8>,
    expected_address: Seq<char>,
)
    requires
        reverse_derivation(resp, our_key, expected_address) is Ok,
    ensures
        ({
            let s = reverse_derivation(resp, our_key, expected_address)->Ok_0;
            &&& hex_lower(claim_leaf_script(s)) == resp.swap_tree.claim_leaf.output@
            &&& hex_lower(refund_leaf_script(s)) == resp.swap_tree.refund_leaf.output@
            &&& resp.swap_tree.claim_leaf.version == TAPSCRIPT_LEAF_VERSION
            &&& resp.swap_tree.refund_leaf.version == TAPSCRIPT_LEAF_VERSION
        }),
{
}

} // verus!
