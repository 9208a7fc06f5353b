//! The evolution manager: a trusted bridge attests an agent's new level and
//! added stake; each attestation, named by its hash, is applied at most once.

use vstd::prelude::*;
use crate::address::Address;
use crate::bytes::{append_bytes, append_le, copy_bytes, le_bytes};
use crate::crypto::{ed25519_accepts, ed25519_verify};
use crate::table::Table;

verus! {

/// A bridge's claim about an agent, named by `attestation_hash`.
#[derive(Clone, Copy, Debug, PartialEq, Eq)]
pub struct Attestation {
    pub agent: Address,
    pub new_level: u32,
    pub stake_amount: i128,
    pub attestation_hash: [u8; 32],
}

#[derive(Clone, Copy, Debug, PartialEq, Eq, Structural)]
pub enum EvolutionError {
    AlreadyInitialized,
    NotInitialized,
    Unauthorized,
    BridgeNotSet,
    AttestationAlreadyUsed,
    InvalidSignature,
    StakeOverflow,
}

/// Published when an attestation is applied.
#[derive(Clone, Copy, Debug)]
pub struct EvolutionCompleted {
    pub agent: Address,
    pub new_level: u32,
    pub total_stake: i128,
    pub attestation_hash: [u8; 32],
}

pub struct EvolutionManager {
    admin: Option<Address>,
    trusted_bridge: Option<[u8; 32]>,
    levels: Table<Address, u32>,
    stakes: Table<Address, i128>,
    used: Table<Vec<u8>, bool>,
    events: Vec<EvolutionCompleted>,
}

/// The bytes the bridge signs for an attestation.
pub open spec fn attestation_bytes(a: Attestation) -> Seq<u8> {
    le_bytes(a.agent.id as nat, 8) + le_bytes(a.new_level as nat, 4) + le_bytes(
        (a.stake_amount as u128) as nat,
        16,
    ) + a.attestation_hash@
}

impl EvolutionManager {
    pub closed spec fn spec_admin(&self) -> Option<Address> {
        self.admin
    }

    pub closed spec fn spec_bridge(&self) -> Option<[u8; 32]> {
        self.trusted_bridge
    }

    pub closed spec fn spec_levels(&self) -> Map<u64, u32> {
        self.levels@
    }

    pub closed spec fn spec_stakes(&self) -> Map<u64, i128> {
        self.stakes@
    }

    /// The hashes of the attestations already applied.
    pub closed spec fn spec_used(&self) -> Set<Seq<u8>> {
        self.used@.dom()
    }

    pub closed spec fn spec_events(&self) -> Seq<EvolutionCompleted> {
        self.events@
    }

    /// An agent's stake; agents never staked hold 0.
    pub open spec fn stake_of(&self, agent: Address) -> i128 {
        if self.spec_stakes().contains_key(agent@) {
            self.spec_stakes()[agent@]
        } else {
            0
        }
    }

    /// What applying `a` comes to, given whether its signature verified.
    pub open spec fn apply_outcome(&self, a: Attestation, signature_valid: bool) -> Result<
        i128,
        EvolutionError,
    > {
        if self.spec_used().contains(a.attestation_hash@) {
            Err(EvolutionError::AttestationAlreadyUsed)
        } else if self.spec_bridge() is None {
            Err(EvolutionError::BridgeNotSet)
        } else if !signature_valid {
            Err(EvolutionError::InvalidSignature)
        } else if self.stake_of(a.agent) + a.stake_amount > i128::MAX || self.stake_of(a.agent)
            + a.stake_amount < i128::MIN {
            Err(EvolutionError::StakeOverflow)
        } else {
            Ok((self.stake_of(a.agent) + a.stake_amount) as i128)
        }
    }

    pub fn new() -> (r: Self)
        ensures
            r.spec_admin() is None,
            r.spec_bridge() is None,
            r.spec_levels() == Map::<u64, u32>::empty(),
            r.spec_stakes() == Map::<u64, i128>::empty(),
            r.spec_used() == Set::<Seq<u8>>::empty(),
            r.spec_events() == Seq::<EvolutionCompleted>::empty(),
    {
        let r = EvolutionManager {
            admin: None,
            trusted_bridge: None,
            levels: Table::new(),
            stakes: Table::new(),
            used: Table::new(),
            events: Vec::new(),
        };
        proof {
            assert(r.spec_used() =~= Set::<Seq<u8>>::empty());
        }
        r
    }

    /// Makes `admin` the administrator, once.
    pub fn init(&mut self, admin: Address) -> (r: Result<(), EvolutionError>)
        ensures
            r is Ok <==> old(self).spec_admin() is None,
            r is Ok ==> final(self).spec_admin() == Some(admin),
            r is Err ==> r == Err::<(), EvolutionError>(EvolutionError::AlreadyInitialized)
                && final(self).spec_admin() == old(self).spec_admin(),
            final(self).spec_bridge() == old(self).spec_bridge(),
            final(self).spec_levels() == old(self).spec_levels(),
            final(self).spec_stakes() == old(self).spec_stakes(),
            final(self).spec_used() == old(self).spec_used(),
            final(self).spec_events() == old(self).spec_events(),
    {
        if self.admin.is_some() {
            return Err(EvolutionError::AlreadyInitialized);
        }
        self.admin = Some(admin);
        Ok(())
    }

    pub fn get_admin(&self) -> (r: Option<Address>)
        ensures
            r == self.spec_admin(),
    {
        self.admin
    }

    /// Sets the key attestations are verified against. Admin only.
    pub fn set_trusted_bridge(&mut self, caller: Address, public_key: [u8; 32]) -> (r: Result<
        (),
        EvolutionError,
    >)
        ensures
            old(self).spec_admin() is None ==> r == Err::<(), EvolutionError>(
                EvolutionError::NotInitialized,
            ),
            old(self).spec_admin() matches Some(a) && a != caller ==> r == Err::<
                (),
                EvolutionError,
            >(EvolutionError::Unauthorized),
            r is Ok <==> old(self).spec_admin() == Some(caller),
            r is Ok ==> final(self).spec_bridge() == Some(public_key),
            r is Err ==> final(self).spec_bridge() == old(self).spec_bridge(),
            final(self).spec_admin() == old(self).spec_admin(),
            final(self).spec_levels() == old(self).spec_levels(),
            final(self).spec_stakes() == old(self).spec_stakes(),
            final(self).spec_used() == old(self).spec_used(),
            final(self).spec_events() == old(self).spec_events(),
    {
        match self.admin {
            None => Err(EvolutionError::NotInitialized),
            Some(a) => if a.id != caller.id {
                Err(EvolutionError::Unauthorized)
            } else {
                self.trusted_bridge = Some(public_key);
                Ok(())
            },
        }
    }

    pub fn get_level(&self, agent: Address) -> (r: Option<u32>)
        ensures
            r == (if self.spec_levels().contains_key(agent@) {
                Some(self.spec_levels()[agent@])
            } else {
                None::<u32>
            }),
    {
        match self.levels.get(&agent) {
            Some(l) => Some(*l),
            None => None,
        }
    }

    pub fn get_stake(&self, agent: Address) -> (r: i128)
        ensures
            r == self.stake_of(agent),
    {
        match self.stakes.get(&agent) {
            Some(s) => *s,
            None => 0,
        }
    }

    pub fn is_attestation_used(&self, attestation_hash: &[u8; 32]) -> (r: bool)
        ensures
            r == self.spec_used().contains(attestation_hash@),
    {
        self.used.contains_key(&copy_bytes(attestation_hash.as_slice()))
    }

    pub fn events(&self) -> (r: &Vec<EvolutionCompleted>)
        ensures
            r@ == self.spec_events(),
    {
        &self.events
    }

    /// Publishes the completion of an evolution.
    pub fn emit_evolution_completed(
        &mut self,
        agent: Address,
        new_level: u32,
        total_stake: i128,
        attestation_hash: [u8; 32],
    )
        ensures
            final(self).spec_events() == old(self).spec_events().push(
                EvolutionCompleted { agent, new_level, total_stake, attestation_hash },
            ),
            final(self).spec_admin() == old(self).spec_admin(),
            final(self).spec_bridge() == old(self).spec_bridge(),
            final(self).spec_levels() == old(self).spec_levels(),
            final(self).spec_stakes() == old(self).spec_stakes(),
            final(self).spec_used() == old(self).spec_used(),
    {
        self.events.push(EvolutionCompleted { agent, new_level, total_stake, attestation_hash });
    }

    /// Applies `a` given the verdict on its signature: the agent's stake
    /// grows by the attested amount, its level is set, the attestation is
    /// marked used and the completion published. Returns the new stake. On
    /// failure nothing changes.
    pub fn accept_attestation(&mut self, a: Attestation, signature_valid: bool) -> (r: Result<
        i128,
        EvolutionError,
    >)
        ensures
            r == old(self).apply_outcome(a, signature_valid),
            r is Err ==> *final(self) == *old(self),
            r matches Ok(total) ==> {
                &&& final(self).spec_stakes() == old(self).spec_stakes().insert(a.agent@, total)
                &&& final(self).spec_levels() == old(self).spec_levels().insert(
                    a.agent@,
                    a.new_level,
                )
                &&& final(self).spec_used() == old(self).spec_used().insert(a.attestation_hash@)
                &&& final(self).spec_events() == old(self).spec_events().push(
                    EvolutionCompleted {
                        agent: a.agent,
                        new_level: a.new_level,
                        total_stake: total,
                        attestation_hash: a.attestation_hash,
                    },
                )
                &&& final(self).spec_admin() == old(self).spec_admin()
                &&& final(self).spec_bridge() == old(self).spec_bridge()
            },
    {
        let key = copy_bytes(a.attestation_hash.as_slice());
        if self.used.contains_key(&key) {
            return Err(EvolutionError::AttestationAlreadyUsed);
        }
        if self.trusted_bridge.is_none() {
            return Err(EvolutionError::BridgeNotSet);
        }
        if !signature_valid {
            return Err(EvolutionError::InvalidSignature);
        }
        let prev = self.get_stake(a.agent);
        let total = match prev.checked_add(a.stake_amount) {
            Some(t) => t,
            None => {
                return Err(EvolutionError::StakeOverflow);
            },
        };
        self.stakes.insert(a.agent, total);
        self.levels.insert(a.agent, a.new_level);
        self.used.insert(key, true);
        proof {
            assert(self.spec_used() =~= old(self).spec_used().insert(a.attestation_hash@));
        }
        self.emit_evolution_completed(a.agent, a.new_level, total, a.attestation_hash);
        Ok(total)
    }

    /// The bytes the bridge signs for `a`.
    pub fn attestation_message(a: &Attestation) -> (r: Vec<u8>)
        ensures
            r@ == attestation_bytes(*a),
    {
        let mut out: Vec<u8> = Vec::new();
        append_le(&mut out, a.agent.id as u128, 8);
        append_le(&mut out, a.new_level as u128, 4);
        append_le(&mut out, a.stake_amount as u128, 16);
        append_bytes(&mut out, a.attestation_hash.as_slice());
        proof {
            assert(out@ =~= attestation_bytes(*a));
        }
        out
    }

    /// Applies an attestation signed by the trusted bridge: it must not have
    /// been applied before and its signature must verify against the bridge's
    /// key over its bytes.
    pub fn apply_attestation(&mut self, a: Attestation, signature: &[u8; 64]) -> (r: Result<
        i128,
        EvolutionError,
    >)
        ensures
            ({
                let valid = match old(self).spec_bridge() {
                    Some(k) => ed25519_accepts(k@, attestation_bytes(a), signature@),
                    None => false,
                };
                &&& r == old(self).apply_outcome(a, valid)
                &&& r is Err ==> *final(self) == *old(self)
                &&& r matches Ok(total) ==> {
                    &&& final(self).spec_stakes() == old(self).spec_stakes().insert(
                        a.agent@,
                        total,
                    )
                    &&& final(self).spec_levels() == old(self).spec_levels().insert(
                        a.agent@,
                        a.new_level,
                    )
                    &&& final(self).spec_used() == old(self).spec_used().insert(
                        a.attestation_hash@,
                    )
                    &&& final(self).spec_events() == old(self).spec_events().push(
                        EvolutionCompleted {
                            agent: a.agent,
                            new_level: a.new_level,
                            total_stake: total,
                            attestation_hash: a.attestation_hash,
                        },
                    )
                }
            }),
    {
        let valid = match &self.trusted_bridge {
            Some(k) => {
                let message = Self::attestation_message(&a);
                ed25519_verify(k, message.as_slice(), signature)
            },
            None => false,
        };
        self.accept_attestation(a, valid)
    }
}

/// An applied attestation is never applied again: whatever signature comes
/// with it later, the same hash is refused as a replay.
pub proof fn applied_attestation_is_never_replayed(
    before: EvolutionManager,
    after: EvolutionManager,
    later: EvolutionManager,
    first: Attestation,
    replay: Attestation,
    signature_valid: bool,
)
    requires
        before.apply_outcome(first, true) is Ok,
        after.spec_used() == before.spec_used().insert(first.attestation_hash@),
        after.spec_used().subset_of(later.spec_used()),
        replay.attestation_hash == first.attestation_hash,
    ensures
        later.apply_outcome(replay, signature_valid) == Err::<i128, EvolutionError>(
            EvolutionError::AttestationAlreadyUsed,
        ),
{
    assert(after.spec_used().contains(first.attestation_hash@));
}

} // verus!
