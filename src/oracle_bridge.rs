//! The oracle bridge: approved oracles post signed data, each (oracle, nonce)
//! pair accepted at most once.

use vstd::prelude::*;
use crate::address::Address;
use crate::bytes::{append_bytes, append_le, copy_bytes, le_bytes};
use crate::crypto::{ed25519_accepts, ed25519_verify, sha256, sha256_of};
use crate::table::Table;

verus! {

#[derive(Clone, Copy, Debug, PartialEq, Eq, Structural)]
pub enum Error {
    UnauthorizedOracle,
    NonceAlreadyUsed,
    InvalidSignature,
    Unauthorized,
    InvalidPayload,
    AlreadyInitialized,
}

/// Published when oracle data is accepted.
#[derive(Clone, Debug)]
pub struct OracleDataPosted {
    pub oracle: Address,
    pub nonce: u64,
    pub payload_hash: Vec<u8>,
}

/// A payload signed by an oracle under a nonce.
#[derive(Clone, Debug)]
pub struct OracleAttestation {
    pub oracle: Address,
    pub nonce: u64,
    pub payload: Vec<u8>,
    pub signature: [u8; 64],
}

/// An approved oracle and the key its attestations are checked against.
#[derive(Clone, Copy, Debug)]
pub struct ApprovedOracle {
    pub oracle: Address,
    pub public_key: [u8; 32],
}

pub struct OracleBridgeContract {
    admin: Option<Address>,
    oracles: Vec<ApprovedOracle>,
    used_nonces: Table<(Address, u64), bool>,
    data: Table<(Address, Vec<u8>), Vec<u8>>,
    events: Vec<OracleDataPosted>,
}

/// The bytes an oracle signs: its key, the nonce in little-endian, the payload.
pub open spec fn attestation_message(public_key: Seq<u8>, nonce: u64, payload: Seq<u8>) -> Seq<
    u8,
> {
    public_key + le_bytes(nonce as nat, 8) + payload
}

/// The approved oracles' addresses, in order of approval.
pub open spec fn oracle_addresses(s: Seq<ApprovedOracle>) -> Seq<Address> {
    s.map_values(|o: ApprovedOracle| o.oracle)
}

/// The index of `oracle` among the approved ones, if approved.
pub open spec fn approved_index(s: Seq<ApprovedOracle>, oracle: Address) -> Option<int> {
    if exists|i: int| 0 <= i < s.len() && s[i].oracle == oracle {
        Some(choose|i: int| 0 <= i < s.len() && s[i].oracle == oracle)
    } else {
        None
    }
}

/// Holds of every approved entry other than `oracle`'s.
pub open spec fn other_than(oracle: Address) -> spec_fn(ApprovedOracle) -> bool {
    |o: ApprovedOracle| o.oracle != oracle
}

/// No oracle is listed twice.
pub open spec fn oracles_unique(s: Seq<ApprovedOracle>) -> bool {
    forall|i: int, j: int| 0 <= i < j < s.len() ==> s[i].oracle != s[j].oracle
}

impl OracleBridgeContract {
    pub closed spec fn spec_admin(&self) -> Option<Address> {
        self.admin
    }

    pub closed spec fn spec_oracles(&self) -> Seq<ApprovedOracle> {
        self.oracles@
    }

    /// The (oracle, nonce) pairs already consumed.
    pub closed spec fn spec_used(&self) -> Set<(u64, u64)> {
        self.used_nonces@.dom()
    }

    /// Stored payloads by (oracle, payload hash).
    pub closed spec fn spec_data(&self) -> Map<(u64, Seq<u8>), Seq<u8>> {
        self.data@.map_values(|v: Vec<u8>| v@)
    }

    /// The published postings as (oracle, nonce, payload hash).
    pub closed spec fn spec_events(&self) -> Seq<(Address, u64, Seq<u8>)> {
        self.events@.map_values(|e: OracleDataPosted| (e.oracle, e.nonce, e.payload_hash@))
    }

    pub closed spec fn wf(&self) -> bool {
        oracles_unique(self.oracles@)
    }

    /// Whether `oracle` is approved.
    pub open spec fn approved(&self, oracle: Address) -> bool {
        approved_index(self.spec_oracles(), oracle) is Some
    }

    /// The key registered for an approved `oracle`.
    pub open spec fn key_of(&self, oracle: Address) -> Seq<u8> {
        self.spec_oracles()[approved_index(self.spec_oracles(), oracle)->Some_0].public_key@
    }

    /// What posting `att` comes to, given whether its signature verified.
    pub open spec fn post_outcome(&self, att: OracleAttestation, signature_valid: bool) -> Result<
        (),
        Error,
    > {
        if !self.approved(att.oracle) {
            Err(Error::UnauthorizedOracle)
        } else if self.spec_used().contains((att.oracle@, att.nonce)) {
            Err(Error::NonceAlreadyUsed)
        } else if att.payload@.len() == 0 {
            Err(Error::InvalidPayload)
        } else if !signature_valid {
            Err(Error::InvalidSignature)
        } else {
            Ok(())
        }
    }

    pub fn new() -> (r: Self)
        ensures
            r.wf(),
            r.spec_admin() is None,
            r.spec_oracles() == Seq::<ApprovedOracle>::empty(),
            r.spec_used() == Set::<(u64, u64)>::empty(),
            r.spec_data() == Map::<(u64, Seq<u8>), Seq<u8>>::empty(),
            r.spec_events() == Seq::<(Address, u64, Seq<u8>)>::empty(),
    {
        OracleBridgeContract {
            admin: None,
            oracles: Vec::new(),
            used_nonces: Table::new(),
            data: Table::new(),
            events: Vec::new(),
        }
    }

    /// Makes `admin` the administrator, once.
    pub fn initialize(&mut self, admin: Address) -> (r: Result<(), Error>)
        requires
            old(self).wf(),
        ensures
            final(self).wf(),
            r is Ok <==> old(self).spec_admin() is None,
            r is Ok ==> final(self).spec_admin() == Some(admin),
            r is Err ==> r == Err::<(), Error>(Error::AlreadyInitialized),
            r is Err ==> final(self).spec_admin() == old(self).spec_admin(),
            final(self).spec_oracles() == old(self).spec_oracles(),
            final(self).spec_used() == old(self).spec_used(),
            final(self).spec_data() == old(self).spec_data(),
            final(self).spec_events() == old(self).spec_events(),
    {
        if self.admin.is_some() {
            return Err(Error::AlreadyInitialized);
        }
        self.admin = Some(admin);
        Ok(())
    }

    /// The administrator, if initialized.
    pub fn admin(&self) -> (r: Option<Address>)
        ensures
            r == self.spec_admin(),
    {
        self.admin
    }

    fn require_admin(&self, caller: Address) -> (r: Result<(), Error>)
        ensures
            r is Ok <==> self.spec_admin() == Some(caller),
            r is Err ==> r == Err::<(), Error>(Error::Unauthorized),
    {
        match self.admin {
            Some(a) => if a.id == caller.id {
                Ok(())
            } else {
                Err(Error::Unauthorized)
            },
            None => Err(Error::Unauthorized),
        }
    }

    fn find_oracle(&self, oracle: Address) -> (r: Option<usize>)
        requires
            self.wf(),
        ensures
            match r {
                Some(i) => approved_index(self.spec_oracles(), oracle) == Some(i as int)
                    && i < self.spec_oracles().len(),
                None => approved_index(self.spec_oracles(), oracle) is None,
            },
    {
        let mut i: usize = 0;
        while i < self.oracles.len()
            invariant
                self.wf(),
                i <= self.oracles@.len(),
                forall|j: int| 0 <= j < i ==> self.oracles@[j].oracle != oracle,
            decreases self.oracles@.len() - i,
        {
            if self.oracles[i].oracle.id == oracle.id {
                proof {
                    let k = choose|k: int|
                        0 <= k < self.oracles@.len() && self.oracles@[k].oracle == oracle;
                    assert(k == i);
                }
                return Some(i);
            }
            i = i + 1;
        }
        None
    }

    /// Approves `oracle`, whose attestations verify against `public_key`.
    /// Approving an oracle twice changes nothing. Admin only.
    pub fn add_oracle(&mut self, caller: Address, oracle: Address, public_key: [u8; 32]) -> (r:
        Result<(), Error>)
        requires
            old(self).wf(),
        ensures
            final(self).wf(),
            r is Ok <==> old(self).spec_admin() == Some(caller),
            r is Err ==> r == Err::<(), Error>(Error::Unauthorized),
            r is Err || old(self).approved(oracle) ==> final(self).spec_oracles() == old(
                self,
            ).spec_oracles(),
            r is Ok && !old(self).approved(oracle) ==> final(self).spec_oracles() == old(
                self,
            ).spec_oracles().push(ApprovedOracle { oracle, public_key }),
            final(self).spec_admin() == old(self).spec_admin(),
            final(self).spec_used() == old(self).spec_used(),
            final(self).spec_data() == old(self).spec_data(),
            final(self).spec_events() == old(self).spec_events(),
    {
        self.require_admin(caller)?;
        if self.find_oracle(oracle).is_some() {
            return Ok(());
        }
        self.oracles.push(ApprovedOracle { oracle, public_key });
        proof {
            assert forall|i: int, j: int|
                0 <= i < j < self.oracles@.len() implies self.oracles@[i].oracle
                != self.oracles@[j].oracle by {
                if j == self.oracles@.len() - 1 {
                    assert(old(self).oracles@[i] == self.oracles@[i]);
                }
            }
        }
        Ok(())
    }

    /// Withdraws approval from `oracle`, keeping the others in order. Admin only.
    pub fn remove_oracle(&mut self, caller: Address, oracle: Address) -> (r: Result<(), Error>)
        requires
            old(self).wf(),
        ensures
            final(self).wf(),
            r is Ok <==> old(self).spec_admin() == Some(caller),
            r is Err ==> r == Err::<(), Error>(Error::Unauthorized),
            r is Err ==> final(self).spec_oracles() == old(self).spec_oracles(),
            r is Ok ==> final(self).spec_oracles() == old(self).spec_oracles().filter(
                other_than(oracle),
            ),
            final(self).spec_admin() == old(self).spec_admin(),
            final(self).spec_used() == old(self).spec_used(),
            final(self).spec_data() == old(self).spec_data(),
            final(self).spec_events() == old(self).spec_events(),
    {
        self.require_admin(caller)?;
        let ghost keep = other_than(oracle);
        let mut kept: Vec<ApprovedOracle> = Vec::new();
        let mut i: usize = 0;
        while i < self.oracles.len()
            invariant
                i <= self.oracles@.len(),
                keep == other_than(oracle),
                kept@ == self.oracles@.subrange(0, i as int).filter(keep),
                forall|a: int, b: int|
                    0 <= a < b < kept@.len() ==> kept@[a].oracle != kept@[b].oracle,
                forall|a: int|
                    #![trigger kept@[a]]
                    0 <= a < kept@.len() ==> exists|j: int|
                        0 <= j < i && #[trigger] self.oracles@[j] == kept@[a],
                self.wf(),
            decreases self.oracles@.len() - i,
        {
            let o = self.oracles[i];
            let ghost prefix = self.oracles@.subrange(0, i + 1);
            proof {
                assert(prefix.drop_last() =~= self.oracles@.subrange(0, i as int));
                assert(prefix.last() == o);
                reveal(Seq::filter);
                assert(prefix.filter(keep) == if keep(o) {
                    self.oracles@.subrange(0, i as int).filter(keep).push(o)
                } else {
                    self.oracles@.subrange(0, i as int).filter(keep)
                });
            }
            if o.oracle.id != oracle.id {
                proof {
                    assert forall|a: int| 0 <= a < kept@.len() implies kept@[a].oracle
                        != o.oracle by {
                        let j = choose|j: int| 0 <= j < i && #[trigger] self.oracles@[j] == kept@[a];
                        assert(self.oracles@[j].oracle != self.oracles@[i as int].oracle);
                    }
                }
                kept.push(o);
            }
            proof {
                assert(keep(o) == (o.oracle.id != oracle.id));
                assert(kept@ == prefix.filter(keep));
            }
            i = i + 1;
            proof {
                assert forall|a: int| 0 <= a < kept@.len() implies exists|j: int|
                    0 <= j < i && #[trigger] self.oracles@[j] == #[trigger] kept@[a] by {
                    if a == kept@.len() - 1 && o.oracle != oracle {
                        assert(self.oracles@[i - 1] == kept@[a]);
                    } else {
                        let j = choose|j: int|
                            0 <= j < i - 1 && #[trigger] self.oracles@[j] == kept@[a];
                        assert(self.oracles@[j] == kept@[a]);
                    }
                }
            }
        }
        proof {
            assert(self.oracles@.subrange(0, self.oracles@.len() as int) =~= self.oracles@);
        }
        self.oracles = kept;
        Ok(())
    }

    /// Whether `oracle` is approved.
    pub fn is_approved_oracle(&self, oracle: Address) -> (r: bool)
        requires
            self.wf(),
        ensures
            r == self.approved(oracle),
    {
        self.find_oracle(oracle).is_some()
    }

    /// The approved oracles, in order of approval.
    pub fn get_approved_oracles(&self) -> (r: Vec<Address>)
        ensures
            r@ == oracle_addresses(self.spec_oracles()),
    {
        let mut r: Vec<Address> = Vec::new();
        let mut i: usize = 0;
        while i < self.oracles.len()
            invariant
                i <= self.oracles@.len(),
                r@ == oracle_addresses(self.oracles@.subrange(0, i as int)),
            decreases self.oracles@.len() - i,
        {
            r.push(self.oracles[i].oracle);
            i = i + 1;
            proof {
                assert(r@ =~= oracle_addresses(self.oracles@.subrange(0, i as int)));
            }
        }
        proof {
            assert(self.oracles@.subrange(0, self.oracles@.len() as int) =~= self.oracles@);
        }
        r
    }

    /// Whether `nonce` has been consumed for `oracle`.
    pub fn is_nonce_used(&self, oracle: Address, nonce: u64) -> (r: bool)
        ensures
            r == self.spec_used().contains((oracle@, nonce)),
    {
        self.used_nonces.contains_key(&(oracle, nonce))
    }

    /// The payload `oracle` posted under `payload_hash`, if any.
    pub fn get_oracle_data(&self, oracle: Address, payload_hash: &Vec<u8>) -> (r: Option<&Vec<u8>>)
        ensures
            match r {
                Some(p) => self.spec_data().contains_key((oracle@, payload_hash@))
                    && self.spec_data()[(oracle@, payload_hash@)] == p@,
                None => !self.spec_data().contains_key((oracle@, payload_hash@)),
            },
    {
        let key = (oracle, copy_bytes(payload_hash.as_slice()));
        self.data.get(&key)
    }

    /// The message an approved oracle signs for `nonce` and `payload`.
    fn create_message(public_key: &[u8; 32], nonce: u64, payload: &Vec<u8>) -> (r: Vec<u8>)
        ensures
            r@ == attestation_message(public_key@, nonce, payload@),
    {
        let mut message: Vec<u8> = Vec::new();
        append_bytes(&mut message, public_key.as_slice());
        append_le(&mut message, nonce as u128, 8);
        append_bytes(&mut message, payload.as_slice());
        proof {
            assert(message@ =~= attestation_message(public_key@, nonce, payload@));
        }
        message
    }

    /// Applies `att` given the verdict on its signature and its payload's
    /// hash: on success the nonce is consumed, the payload stored under its
    /// hash and the posting published; on failure nothing changes.
    pub fn accept_oracle_data(
        &mut self,
        att: &OracleAttestation,
        signature_valid: bool,
        payload_hash: Vec<u8>,
    ) -> (r: Result<(), Error>)
        requires
            old(self).wf(),
        ensures
            final(self).wf(),
            r == old(self).post_outcome(*att, signature_valid),
            r is Err ==> *final(self) == *old(self),
            r is Ok ==> {
                &&& final(self).spec_used() == old(self).spec_used().insert((att.oracle@, att.nonce))
                &&& final(self).spec_data() == old(self).spec_data().insert(
                    (att.oracle@, payload_hash@),
                    att.payload@,
                )
                &&& final(self).spec_events() == old(self).spec_events().push(
                    (att.oracle, att.nonce, payload_hash@),
                )
                &&& final(self).spec_oracles() == old(self).spec_oracles()
                &&& final(self).spec_admin() == old(self).spec_admin()
            },
    {
        if self.find_oracle(att.oracle).is_none() {
            return Err(Error::UnauthorizedOracle);
        }
        if self.used_nonces.contains_key(&(att.oracle, att.nonce)) {
            return Err(Error::NonceAlreadyUsed);
        }
        if att.payload.len() == 0 {
            return Err(Error::InvalidPayload);
        }
        if !signature_valid {
            return Err(Error::InvalidSignature);
        }
        self.used_nonces.insert((att.oracle, att.nonce), true);
        proof {
            assert(self.used_nonces@.dom() =~= old(self).used_nonces@.dom().insert(
                (att.oracle@, att.nonce),
            ));
        }
        let key = (att.oracle, copy_bytes(payload_hash.as_slice()));
        self.data.insert(key, copy_bytes(att.payload.as_slice()));
        self.events.push(OracleDataPosted { oracle: att.oracle, nonce: att.nonce, payload_hash });
        proof {
            assert(self.spec_data() =~= old(self).spec_data().insert(
                (att.oracle@, payload_hash@),
                att.payload@,
            ));
            assert(self.spec_events() =~= old(self).spec_events().push(
                (att.oracle, att.nonce, payload_hash@),
            ));
        }
        Ok(())
    }

    /// Posts oracle data: the oracle must be approved, the nonce fresh, the
    /// payload non-empty and the signature valid for the oracle's key over
    /// its attestation message. Returns the payload's hash, under which the
    /// payload is stored.
    pub fn post_oracle_data(&mut self, att: &OracleAttestation) -> (r: Result<Vec<u8>, Error>)
        requires
            old(self).wf(),
        ensures
            final(self).wf(),
            match old(self).post_outcome(
                *att,
                old(self).approved(att.oracle) && ed25519_accepts(
                    old(self).key_of(att.oracle),
                    attestation_message(old(self).key_of(att.oracle), att.nonce, att.payload@),
                    att.signature@,
                ),
            ) {
                Err(e) => r == Err::<Vec<u8>, Error>(e) && *final(self) == *old(self),
                Ok(_) => r matches Ok(h) && h@ == sha256_of(att.payload@) && {
                    &&& final(self).spec_used() == old(self).spec_used().insert(
                        (att.oracle@, att.nonce),
                    )
                    &&& final(self).spec_data() == old(self).spec_data().insert(
                        (att.oracle@, h@),
                        att.payload@,
                    )
                    &&& final(self).spec_events() == old(self).spec_events().push(
                        (att.oracle, att.nonce, h@),
                    )
                    &&& final(self).spec_oracles() == old(self).spec_oracles()
                    &&& final(self).spec_admin() == old(self).spec_admin()
                },
            },
    {
        let signature_valid = match self.find_oracle(att.oracle) {
            None => false,
            Some(i) => {
                let key = self.oracles[i].public_key;
                let message = Self::create_message(&key, att.nonce, &att.payload);
                ed25519_verify(&key, message.as_slice(), &att.signature)
            },
        };
        let payload_hash = sha256(att.payload.as_slice());
        let hash_copy = copy_bytes(payload_hash.as_slice());
        match self.accept_oracle_data(att, signature_valid, payload_hash) {
            Ok(()) => Ok(hash_copy),
            Err(e) => Err(e),
        }
    }
}

/// Once an attestation from an oracle under a nonce is accepted, every later
/// submission with the same oracle and nonce fails, whatever its payload or
/// signature: with a replay error while the oracle stays approved.
pub proof fn accepted_nonce_is_never_replayed(
    before: OracleBridgeContract,
    after: OracleBridgeContract,
    later: OracleBridgeContract,
    first: OracleAttestation,
    replay: OracleAttestation,
    signature_valid: bool,
)
    requires
        before.post_outcome(first, true) is Ok,
        after.spec_used() == before.spec_used().insert((first.oracle@, first.nonce)),
        after.spec_used().subset_of(later.spec_used()),
        replay.oracle == first.oracle,
        replay.nonce == first.nonce,
    ensures
        later.post_outcome(replay, signature_valid) is Err,
        later.approved(replay.oracle) ==> later.post_outcome(replay, signature_valid) == Err::<
            (),
            Error,
        >(Error::NonceAlreadyUsed),
{
    assert(after.spec_used().contains((first.oracle@, first.nonce)));
}

} // verus!
