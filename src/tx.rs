use vstd::prelude::*;

use crate::crypto::{hash160_of, keypair_public_key, public_key_of_secret, secret_key_accepted};
use crate::error::SwapError;
use crate::keys::{bytes_equal, compressed, parse_preimage, Preimage};
use crate::script::{claim_leaf_script, refund_leaf_script, BtcSwapScript, ScriptView, SwapType};

verus! {

/// Which leaf of the swap a transaction spends.
#[derive(Debug, Clone, Copy, PartialEq, Eq, Structural)]
pub enum SwapTxKind {
    Claim,
    Refund,
}

/// How a transaction spends the swap output.
#[derive(Debug, Clone, Copy, PartialEq, Eq, Structural)]
pub enum SpendMode {
    /// Key path: a signature aggregated with the coordinator, which reveals
    /// no script on chain.
    Cooperative,
    /// Script path: reveals the leaf (and, for a claim, the preimage).
    ScriptPath,
}

/// The spend mode that a caller's optional flag selects. With no flag there
/// is no counterparty signing session to rely on, so the script path, which
/// is always available, is taken.
pub open spec fn mode_of(is_cooperative: Option<bool>) -> SpendMode {
    match is_cooperative {
        Some(true) => SpendMode::Cooperative,
        _ => SpendMode::ScriptPath,
    }
}

pub fn spend_mode(is_cooperative: Option<bool>) -> (r: SpendMode)
    ensures
        r == mode_of(is_cooperative),
{
    match is_cooperative {
        Some(true) => SpendMode::Cooperative,
        _ => SpendMode::ScriptPath,
    }
}

/// A claim can be built for a reverse swap, or for a submarine swap whose
/// coordinator accepts an unconfirmed lockup.
pub open spec fn claim_allowed(s: ScriptView) -> bool {
    s.swap_type == SwapType::ReverseSubmarine || (s.swap_type == SwapType::Submarine
        && s.accept_zero_conf)
}

/// The encoding of the key that must sign a spend of the given kind.
pub open spec fn signer_of(s: ScriptView, kind: SwapTxKind) -> Seq<u8> {
    match kind {
        SwapTxKind::Claim => s.receiver_pubkey,
        SwapTxKind::Refund => s.sender_pubkey,
    }
}

/// Why a secret key cannot sign a spend of the given kind, if it cannot.
pub open spec fn signer_error(s: ScriptView, kind: SwapTxKind, secret: Seq<u8>) -> Option<SwapError> {
    if !secret_key_accepted(secret) {
        Some(SwapError::InvalidKey)
    } else if public_key_of_secret(secret) != compressed(signer_of(s, kind)) {
        Some(SwapError::KeyMismatch)
    } else {
        None
    }
}

/// Why a claim cannot be signed with the given key and preimage, if it cannot.
pub open spec fn claim_error(tx: BtcSwapTx, secret: Seq<u8>, preimage: Seq<u8>) -> Option<SwapError> {
    if tx.kind != SwapTxKind::Claim {
        Some(SwapError::WrongSwapType)
    } else if preimage.len() != 32 || hash160_of(preimage) != tx.swap_script@.hashlock {
        Some(SwapError::InvalidPreimage)
    } else {
        signer_error(tx.swap_script@, SwapTxKind::Claim, secret)
    }
}

/// Why a refund cannot be signed with the given key, if it cannot.
pub open spec fn refund_error(tx: BtcSwapTx, secret: Seq<u8>) -> Option<SwapError> {
    if tx.kind != SwapTxKind::Refund {
        Some(SwapError::WrongSwapType)
    } else {
        signer_error(tx.swap_script@, SwapTxKind::Refund, secret)
    }
}

/// Bytes of a transaction with one input and one output, outside the
/// witness: version 4, input count 1, input 41 (outpoint 36, empty script 1,
/// sequence 4), output count 1, output value 8 and script length 1, lock
/// time 4.
pub const BASE_BYTES_WITHOUT_OUTPUT_SCRIPT: u64 = 60;

/// The longest standard output script (pay to taproot or to witness script
/// hash), which makes the estimate an upper bound for any destination.
pub const MAX_OUTPUT_SCRIPT_BYTES: u64 = 34;

/// Bytes of the witness of a script-path spend: item count, a 64-byte
/// Schnorr signature, for a claim the 32-byte preimage, the leaf script, and
/// the control block of a two-leaf tree (33 + 32 bytes); each item but the
/// count carries a one-byte length.
pub open spec fn witness_bytes(s: ScriptView, kind: SwapTxKind) -> int {
    match kind {
        SwapTxKind::Claim => 1 + (1 + 64) + (1 + 32) + (1 + claim_leaf_script(s).len() as int) + (1 + 65),
        SwapTxKind::Refund => 1 + (1 + 64) + (1 + refund_leaf_script(s).len() as int) + (1 + 65),
    }
}

/// Virtual size of the script-path spend: weight (four units per base byte,
/// one per witness byte, two for the segwit marker and flag) over four,
/// rounded up.
pub open spec fn spend_vsize(s: ScriptView, kind: SwapTxKind) -> int {
    (4 * (BASE_BYTES_WITHOUT_OUTPUT_SCRIPT + MAX_OUTPUT_SCRIPT_BYTES) as int + 2 + witness_bytes(s, kind)
        + 3) / 4
}

/// The outcome of estimating the size of a spend with the given key and
/// preimage.
pub open spec fn size_outcome(
    s: ScriptView,
    kind: SwapTxKind,
    secret: Seq<u8>,
    preimage: Seq<u8>,
) -> Result<usize, SwapError> {
    if !secret_key_accepted(secret) {
        Err(SwapError::InvalidKey)
    } else if preimage.len() != 32 {
        Err(SwapError::InvalidPreimage)
    } else {
        Ok(spend_vsize(s, kind) as usize)
    }
}

/// The checked material of one spend, ready for signing.
#[derive(Debug)]
pub struct SpendPlan {
    pub kind: SwapTxKind,
    pub mode: SpendMode,
    pub secret_key: Vec<u8>,
    pub preimage: Option<Preimage>,
}

/// A claim or refund transaction of one swap, spending one funding output
/// (`utxo`: transaction id and output index) to `output_address`.
#[derive(Debug)]
pub struct BtcSwapTx {
    pub kind: SwapTxKind,
    pub swap_script: BtcSwapScript,
    pub output_address: String,
    pub utxo: (String, u64),
}

impl BtcSwapTx {
    pub fn new(
        kind: SwapTxKind,
        swap_script: BtcSwapScript,
        output_address: String,
        utxo: (String, u64),
    ) -> (r: Self)
        ensures
            r.kind == kind,
            r.swap_script == swap_script,
            r.output_address == output_address,
            r.utxo == utxo,
    {
        BtcSwapTx { kind, swap_script, output_address, utxo }
    }

    /// A claim of the same funding output, paying to `claim_address`.
    pub fn new_claim(&self, claim_address: String) -> (r: Result<BtcSwapTx, SwapError>)
        ensures
            r is Ok <==> claim_allowed(self.swap_script@),
            r matches Ok(t) ==> {
                &&& t.kind == SwapTxKind::Claim
                &&& t.swap_script@ == self.swap_script@
                &&& t.output_address == claim_address
                &&& t.utxo@ == self.utxo@
            },
            r matches Err(e) ==> e == SwapError::WrongSwapType,
    {
        let allowed = self.swap_script.is_reverse() || (self.swap_script.is_submarine()
            && self.swap_script.accept_zero_conf());
        if !allowed {
            return Err(SwapError::WrongSwapType);
        }
        Ok(
            BtcSwapTx {
                kind: SwapTxKind::Claim,
                swap_script: self.swap_script.clone(),
                output_address: claim_address,
                utxo: (self.utxo.0.clone(), self.utxo.1),
            },
        )
    }

    /// A refund of the same funding output, paying to `refund_address`; only
    /// the submarine side refunds, and only once the chain height
    /// `current_height` has reached the script's timeout.
    pub fn new_refund(&self, refund_address: String, current_height: u32) -> (r: Result<BtcSwapTx, SwapError>)
        ensures
            self.swap_script@.swap_type != SwapType::Submarine ==> r == Err::<BtcSwapTx, SwapError>(
                SwapError::WrongSwapType,
            ),
            self.swap_script@.swap_type == SwapType::Submarine && current_height
                < self.swap_script@.locktime ==> r == Err::<BtcSwapTx, SwapError>(
                SwapError::TimeoutNotReached,
            ),
            self.swap_script@.swap_type == SwapType::Submarine && current_height
                >= self.swap_script@.locktime ==> r is Ok,
            r matches Ok(t) ==> {
                &&& t.kind == SwapTxKind::Refund
                &&& t.swap_script@ == self.swap_script@
                &&& t.output_address == refund_address
                &&& t.utxo@ == self.utxo@
            },
    {
        if !self.swap_script.is_submarine() {
            return Err(SwapError::WrongSwapType);
        }
        if current_height < self.swap_script.locktime() {
            return Err(SwapError::TimeoutNotReached);
        }
        Ok(
            BtcSwapTx {
                kind: SwapTxKind::Refund,
                swap_script: self.swap_script.clone(),
                output_address: refund_address,
                utxo: (self.utxo.0.clone(), self.utxo.1),
            },
        )
    }

    /// Checks that `keys` (a secret key) is the key that signs this spend:
    /// the claim key for a claim, the refund key for a refund, compared as
    /// full (compressed) public keys.
    pub fn check_signer(&self, keys: &[u8]) -> (r: Result<(), SwapError>)
        ensures
            r is Ok <==> signer_error(self.swap_script@, self.kind, keys@) is None,
            r matches Err(e) ==> signer_error(self.swap_script@, self.kind, keys@) == Some(e),
    {
        let public = match keypair_public_key(keys) {
            Some(p) => p,
            None => return Err(SwapError::InvalidKey),
        };
        let signer = match self.kind {
            SwapTxKind::Claim => self.swap_script.receiver_pubkey().compressed(),
            SwapTxKind::Refund => self.swap_script.sender_pubkey().compressed(),
        };
        if !bytes_equal(public.as_slice(), signer.as_slice()) {
            return Err(SwapError::KeyMismatch);
        }
        Ok(())
    }

    /// Checks the material of a claim: this must be a claim, `preimage` must
    /// be the secret whose HASH160 the script locks to, and `keys` must be
    /// the claim key. The spend mode follows `is_cooperative`.
    pub fn prepare_claim(
        &self,
        keys: Vec<u8>,
        preimage: Vec<u8>,
        is_cooperative: Option<bool>,
    ) -> (r: Result<SpendPlan, SwapError>)
        ensures
            r is Ok <==> claim_error(*self, keys@, preimage@) is None,
            r matches Err(e) ==> claim_error(*self, keys@, preimage@) == Some(e),
            r matches Ok(p) ==> {
                &&& p.kind == SwapTxKind::Claim
                &&& p.mode == mode_of(is_cooperative)
                &&& p.secret_key@ == keys@
                &&& p.preimage matches Some(q) && q@ == preimage@
            },
    {
        if self.kind != SwapTxKind::Claim {
            return Err(SwapError::WrongSwapType);
        }
        let preimage = match parse_preimage(preimage) {
            Ok(p) => p,
            Err(e) => return Err(e),
        };
        if !bytes_equal(preimage.hash160(), self.swap_script.hashlock()) {
            return Err(SwapError::InvalidPreimage);
        }
        match self.check_signer(keys.as_slice()) {
            Ok(()) => {},
            Err(e) => return Err(e),
        }
        Ok(
            SpendPlan {
                kind: SwapTxKind::Claim,
                mode: spend_mode(is_cooperative),
                secret_key: keys,
                preimage: Some(preimage),
            },
        )
    }

    /// Checks the material of a refund: this must be a refund and `keys` must
    /// be the refund key. The spend mode follows `is_cooperative`.
    pub fn prepare_refund(&self, keys: Vec<u8>, is_cooperative: Option<bool>) -> (r: Result<SpendPlan, SwapError>)
        ensures
            r is Ok <==> refund_error(*self, keys@) is None,
            r matches Err(e) ==> refund_error(*self, keys@) == Some(e),
            r matches Ok(p) ==> {
                &&& p.kind == SwapTxKind::Refund
                &&& p.mode == mode_of(is_cooperative)
                &&& p.secret_key@ == keys@
                &&& p.preimage is None
            },
    {
        if self.kind != SwapTxKind::Refund {
            return Err(SwapError::WrongSwapType);
        }
        match self.check_signer(keys.as_slice()) {
            Ok(()) => {},
            Err(e) => return Err(e),
        }
        Ok(
            SpendPlan {
                kind: SwapTxKind::Refund,
                mode: spend_mode(is_cooperative),
                secret_key: keys,
                preimage: None,
            },
        )
    }

    /// Worst-case virtual size of this spend along its script path, for fee
    /// calculation; a function of the leaf script and the witness shape, computed without
    /// building a transaction. `keys` and `preimage` must parse.
    pub fn size(&self, keys: Vec<u8>, preimage: Vec<u8>) -> (r: Result<usize, SwapError>)
        ensures
            r == size_outcome(self.swap_script@, self.kind, keys@, preimage@),
    {
        match keypair_public_key(keys.as_slice()) {
            Some(_) => {},
            None => return Err(SwapError::InvalidKey),
        }
        if preimage.len() != 32 {
            return Err(SwapError::InvalidPreimage);
        }
        let witness: u64 = match self.kind {
            SwapTxKind::Claim => {
                let script = self.swap_script.claim_script();
                1 + (1 + 64) + (1 + 32) + (1 + script.len() as u64) + (1 + 65)
            },
            SwapTxKind::Refund => {
                let script = self.swap_script.refund_script();
                1 + (1 + 64) + (1 + script.len() as u64) + (1 + 65)
            },
        };
        let weight: u64 = 4 * (BASE_BYTES_WITHOUT_OUTPUT_SCRIPT + MAX_OUTPUT_SCRIPT_BYTES) + 2
            + witness;
        Ok(((weight + 3) / 4) as usize)
    }
}

/// The size estimate depends only on the script, the kind of spend and the
/// key and preimage given: two calls with the same inputs give the same
/// count, whatever the destination and the funding output.
pub proof fn lemma_size_deterministic(
    a: BtcSwapTx,
    b: BtcSwapTx,
    secret: Seq<u8>,
    preimage: Seq<u8>,
)
    requires
        a.swap_script@ == b.swap_script@,
        a.kind == b.kind,
    ensures
        size_outcome(a.swap_script@, a.kind, secret, preimage) == size_outcome(
            b.swap_script@,
            b.kind,
            secret,
            preimage,
        ),
{
}


} // verus!
