//! Risk evaluation: a bridge signs an agent's risk level; the contract keeps
//! the latest level per agent, refusing attestations dated too far ahead.

use vstd::prelude::*;
use crate::address::Address;
use crate::authorization::SignatureBasedAuth;
use crate::bytes::{append_bytes, append_le, le_bytes};
use crate::crypto::ed25519_accepts;
use crate::error::{AuthorizationError, CryptoError};
use crate::table::Table;

verus! {

/// How far ahead of the ledger clock an attestation may be dated, in seconds.
pub const MAX_CLOCK_SKEW: u64 = 60;

#[derive(Clone, Copy, Debug, PartialEq, Eq, Structural)]
pub enum RiskLevel {
    Low,
    Medium,
    High,
    Critical,
}

/// The signed claim about an agent's risk.
#[derive(Clone, Copy, Debug, PartialEq, Eq, Structural)]
pub struct RiskAttestation {
    pub agent: Address,
    pub risk: RiskLevel,
    pub timestamp: u64,
}

/// The one-byte code of a risk level.
pub open spec fn risk_code(level: RiskLevel) -> u8 {
    match level {
        RiskLevel::Low => 0,
        RiskLevel::Medium => 1,
        RiskLevel::High => 2,
        RiskLevel::Critical => 3,
    }
}

/// The bytes the bridge signs: the agent, the level's code and the
/// timestamp, little-endian, followed by the evaluation's payload.
pub open spec fn risk_message(att: RiskAttestation, payload: Seq<u8>) -> Seq<u8> {
    le_bytes(att.agent.id as nat, 8) + seq![risk_code(att.risk)] + le_bytes(
        att.timestamp as nat,
        8,
    ) + payload
}

pub struct RiskEvaluationContract {
    auth: SignatureBasedAuth,
    risks: Table<Address, RiskLevel>,
    used: Table<u64, bool>,
    events: Vec<(Address, RiskLevel)>,
}

impl RiskEvaluationContract {
    pub closed spec fn spec_bridge_key(&self) -> Option<[u8; 32]> {
        self.auth.public_key
    }

    pub closed spec fn spec_risks(&self) -> Map<u64, RiskLevel> {
        self.risks@
    }

    /// The timestamps under which the bridge's attestations were accepted;
    /// the bridge is the only signer, so a timestamp is its nonce.
    pub closed spec fn spec_used(&self) -> Set<u64> {
        self.used@.dom()
    }

    /// The published evaluations, as (agent, level).
    pub closed spec fn spec_events(&self) -> Seq<(Address, RiskLevel)> {
        self.events@
    }

    /// What submitting `att` at `now` comes to, given the signature verdict.
    pub open spec fn submit_outcome(&self, att: RiskAttestation, signature_valid: bool, now: u64) -> Result<
        (),
        CryptoError,
    > {
        if self.spec_bridge_key() is None {
            Err(CryptoError::NotInitialized)
        } else if self.spec_used().contains(att.timestamp) {
            Err(CryptoError::ReplayedAttestation)
        } else if !signature_valid {
            Err(CryptoError::SignatureVerificationFailed)
        } else if att.timestamp > now + MAX_CLOCK_SKEW {
            Err(CryptoError::InvalidSignature)
        } else {
            Ok(())
        }
    }

    pub fn new() -> (r: Self)
        ensures
            r.spec_bridge_key() is None,
            r.spec_risks() == Map::<u64, RiskLevel>::empty(),
            r.spec_used() == Set::<u64>::empty(),
            r.spec_events() == Seq::<(Address, RiskLevel)>::empty(),
    {
        let r = RiskEvaluationContract {
            auth: SignatureBasedAuth { public_key: None },
            risks: Table::new(),
            used: Table::new(),
            events: Vec::new(),
        };
        proof {
            assert(r.spec_used() =~= Set::<u64>::empty());
        }
        r
    }

    /// Sets the bridge's public key, once.
    pub fn init(&mut self, bridge_pubkey: [u8; 32]) -> (r: Result<(), AuthorizationError>)
        ensures
            r is Ok <==> old(self).spec_bridge_key() is None,
            r is Ok ==> final(self).spec_bridge_key() == Some(bridge_pubkey),
            r is Err ==> r == Err::<(), AuthorizationError>(AuthorizationError::AlreadyInitialized)
                && final(self).spec_bridge_key() == old(self).spec_bridge_key(),
            final(self).spec_risks() == old(self).spec_risks(),
            final(self).spec_used() == old(self).spec_used(),
            final(self).spec_events() == old(self).spec_events(),
    {
        if self.auth.public_key.is_some() {
            return Err(AuthorizationError::AlreadyInitialized);
        }
        self.auth = SignatureBasedAuth { public_key: Some(bridge_pubkey) };
        Ok(())
    }

    /// Records `att` given the verdict on its signature: the risk level is
    /// stored, the timestamp consumed and the evaluation published. On
    /// failure nothing changes.
    pub fn accept_risk(&mut self, att: RiskAttestation, signature_valid: bool, now: u64) -> (r:
        Result<(), CryptoError>)
        ensures
            r == old(self).submit_outcome(att, signature_valid, now),
            r is Err ==> final(self).spec_risks() == old(self).spec_risks() && final(
                self).spec_events() == old(self).spec_events() && final(self).spec_used() == old(
                self).spec_used(),
            r is Ok ==> final(self).spec_risks() == old(self).spec_risks().insert(
                att.agent@,
                att.risk,
            ) && final(self).spec_events() == old(self).spec_events().push((att.agent, att.risk))
                && final(self).spec_used() == old(self).spec_used().insert(att.timestamp),
            final(self).spec_bridge_key() == old(self).spec_bridge_key(),
    {
        if self.auth.public_key.is_none() {
            return Err(CryptoError::NotInitialized);
        }
        if self.used.contains_key(&att.timestamp) {
            return Err(CryptoError::ReplayedAttestation);
        }
        if !signature_valid {
            return Err(CryptoError::SignatureVerificationFailed);
        }
        if now <= u64::MAX - MAX_CLOCK_SKEW && att.timestamp > now + MAX_CLOCK_SKEW {
            return Err(CryptoError::InvalidSignature);
        }
        self.risks.insert(att.agent, att.risk);
        self.used.insert(att.timestamp, true);
        self.events.push((att.agent, att.risk));
        proof {
            assert(self.spec_used() =~= old(self).spec_used().insert(att.timestamp));
        }
        Ok(())
    }

    /// The bytes the bridge signs for `att` and `payload`.
    pub fn risk_message(att: &RiskAttestation, payload: &Vec<u8>) -> (r: Vec<u8>)
        ensures
            r@ == risk_message(*att, payload@),
    {
        let code: u8 = match att.risk {
            RiskLevel::Low => 0,
            RiskLevel::Medium => 1,
            RiskLevel::High => 2,
            RiskLevel::Critical => 3,
        };
        let mut out: Vec<u8> = Vec::new();
        append_le(&mut out, att.agent.id as u128, 8);
        out.push(code);
        append_le(&mut out, att.timestamp as u128, 8);
        append_bytes(&mut out, payload.as_slice());
        proof {
            assert(out@ =~= risk_message(*att, payload@));
        }
        out
    }

    /// Accepts a risk evaluation signed by the bridge over the attestation's
    /// bytes and `payload`, not seen before under its timestamp, and dated no
    /// later than `now` plus the allowed skew.
    pub fn submit_risk(
        &mut self,
        att: RiskAttestation,
        signature: &[u8; 64],
        payload: &Vec<u8>,
        now: u64,
    ) -> (r: Result<(), CryptoError>)
        ensures
            ({
                let valid = match old(self).spec_bridge_key() {
                    Some(k) => ed25519_accepts(k@, risk_message(att, payload@), signature@),
                    None => false,
                };
                &&& r == old(self).submit_outcome(att, valid, now)
                &&& r is Err ==> final(self).spec_risks() == old(self).spec_risks() && final(
                    self).spec_events() == old(self).spec_events() && final(self).spec_used()
                    == old(self).spec_used()
                &&& r is Ok ==> final(self).spec_risks() == old(self).spec_risks().insert(
                    att.agent@,
                    att.risk,
                ) && final(self).spec_events() == old(self).spec_events().push(
                    (att.agent, att.risk),
                ) && final(self).spec_used() == old(self).spec_used().insert(att.timestamp)
            }),
            final(self).spec_bridge_key() == old(self).spec_bridge_key(),
    {
        let message = Self::risk_message(&att, payload);
        let valid = match self.auth.verify_signature(&message, signature) {
            Ok(v) => v,
            Err(_) => false,
        };
        self.accept_risk(att, valid, now)
    }

    pub fn get_risk(&self, agent: Address) -> (r: Option<RiskLevel>)
        ensures
            r == (if self.spec_risks().contains_key(agent@) {
                Some(self.spec_risks()[agent@])
            } else {
                None::<RiskLevel>
            }),
    {
        match self.risks.get(&agent) {
            Some(l) => Some(*l),
            None => None,
        }
    }

    /// Whether `signature` over `payload` verifies against the bridge key.
    pub fn verify_signature_direct(&self, payload: &Vec<u8>, signature: &[u8; 64]) -> (r: Result<
        bool,
        CryptoError,
    >)
        ensures
            match self.spec_bridge_key() {
                None => r == Err::<bool, CryptoError>(CryptoError::NotInitialized),
                Some(k) => r == Ok::<bool, CryptoError>(ed25519_accepts(k@, payload@, signature@)),
            },
    {
        self.auth.verify_signature(payload, signature)
    }
}

/// Once an evaluation under a timestamp is accepted, every later submission
/// under the same timestamp fails as a replay, whatever its payload or
/// signature.
pub proof fn accepted_risk_is_never_replayed(
    before: RiskEvaluationContract,
    after: RiskEvaluationContract,
    later: RiskEvaluationContract,
    first: RiskAttestation,
    replay: RiskAttestation,
    signature_valid: bool,
    now: u64,
)
    requires
        after.spec_used() == before.spec_used().insert(first.timestamp),
        after.spec_used().subset_of(later.spec_used()),
        later.spec_bridge_key() is Some,
        replay.timestamp == first.timestamp,
    ensures
        later.submit_outcome(replay, signature_valid, now) == Err::<(), CryptoError>(
            CryptoError::ReplayedAttestation,
        ),
{
    assert(after.spec_used().contains(first.timestamp));
}

} // verus!
