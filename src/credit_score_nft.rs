//! Credit-score NFTs: authorized minters issue tokens with increasing ids;
//! owners transfer them, and each owner's token list follows.

use vstd::prelude::*;
use crate::address::Address;
use crate::bytes::copy_vec;
use crate::table::Table;

verus! {

#[derive(Clone, Debug, PartialEq, Eq)]
pub struct CreditScoreNFT {
    pub owner: Address,
    pub metadata_cid: String,
    pub token_id: u64,
    pub mint_timestamp: u64,
}

#[derive(Clone, Copy, Debug, PartialEq, Eq, Structural)]
pub enum NftError {
    AlreadyInitialized,
    NotInitialized,
    Unauthorized,
    NotFound,
    NotOwner,
    SupplyExhausted,
}

#[derive(Clone, Copy, Debug, PartialEq, Eq, Structural)]
pub enum NftEvent {
    Initialized { admin: Address },
    MinterAdded { minter: Address },
    MinterRemoved { minter: Address },
    Minted { to: Address, token_id: u64 },
    Transferred { from: Address, to: Address, token_id: u64 },
}

pub struct CreditScoreNFTContract {
    admin: Option<Address>,
    minters: Table<Address, bool>,
    last_token_id: u64,
    nfts: Table<u64, CreditScoreNFT>,
    owner_tokens: Table<Address, Vec<u64>>,
    events: Vec<NftEvent>,
}

/// Holds of every token id but `token_id`.
pub open spec fn other_token(token_id: u64) -> spec_fn(u64) -> bool {
    |t: u64| t != token_id
}

impl CreditScoreNFTContract {
    pub closed spec fn spec_admin(&self) -> Option<Address> {
        self.admin
    }

    pub closed spec fn spec_minters(&self) -> Set<u64> {
        self.minters@.dom()
    }

    /// The id of the last token minted; 0 before the first.
    pub closed spec fn spec_supply(&self) -> u64 {
        self.last_token_id
    }

    pub closed spec fn spec_nfts(&self) -> Map<u64, CreditScoreNFT> {
        self.nfts@
    }

    /// Each owner's token ids, in the order they arrived.
    pub closed spec fn spec_owner_tokens(&self) -> Map<u64, Seq<u64>> {
        self.owner_tokens@.map_values(|v: Vec<u64>| v@)
    }

    pub closed spec fn spec_events(&self) -> Seq<NftEvent> {
        self.events@
    }

    /// Every minted token is stored under its own id, no larger than the supply.
    pub closed spec fn wf(&self) -> bool {
        forall|id: u64| #[trigger]
            self.nfts@.contains_key(id) ==> id <= self.last_token_id && self.nfts@[id].token_id
                == id
    }

    /// An owner's token ids; owners never given a token have none.
    pub open spec fn tokens_of(&self, owner: Address) -> Seq<u64> {
        if self.spec_owner_tokens().contains_key(owner@) {
            self.spec_owner_tokens()[owner@]
        } else {
            Seq::empty()
        }
    }

    /// Whether `who` may mint: an approved minter, or the admin.
    pub open spec fn may_mint(&self, who: Address) -> bool {
        self.spec_minters().contains(who@) || self.spec_admin() == Some(who)
    }

    pub fn new() -> (r: Self)
        ensures
            r.wf(),
            r.spec_admin() is None,
            r.spec_minters() == Set::<u64>::empty(),
            r.spec_supply() == 0,
            r.spec_nfts() == Map::<u64, CreditScoreNFT>::empty(),
            r.spec_owner_tokens() == Map::<u64, Seq<u64>>::empty(),
            r.spec_events() == Seq::<NftEvent>::empty(),
    {
        let r = CreditScoreNFTContract {
            admin: None,
            minters: Table::new(),
            last_token_id: 0,
            nfts: Table::new(),
            owner_tokens: Table::new(),
            events: Vec::new(),
        };
        proof {
            assert(r.spec_minters() =~= Set::<u64>::empty());
            assert(r.spec_owner_tokens() =~= Map::<u64, Seq<u64>>::empty());
        }
        r
    }

    /// Makes `admin` the administrator, once.
    pub fn initialize(&mut self, admin: Address) -> (r: Result<(), NftError>)
        requires
            old(self).wf(),
        ensures
            final(self).wf(),
            r is Ok <==> old(self).spec_admin() is None,
            r is Err ==> r == Err::<(), NftError>(NftError::AlreadyInitialized) && *final(self)
                == *old(self),
            r is Ok ==> final(self).spec_admin() == Some(admin) && final(self).spec_events()
                == old(self).spec_events().push(NftEvent::Initialized { admin }),
            final(self).spec_minters() == old(self).spec_minters(),
            final(self).spec_supply() == old(self).spec_supply(),
            final(self).spec_nfts() == old(self).spec_nfts(),
            final(self).spec_owner_tokens() == old(self).spec_owner_tokens(),
    {
        if self.admin.is_some() {
            return Err(NftError::AlreadyInitialized);
        }
        self.admin = Some(admin);
        self.events.push(NftEvent::Initialized { admin });
        Ok(())
    }

    fn require_admin(&self, caller: Address) -> (r: Result<(), NftError>)
        ensures
            self.spec_admin() is None ==> r == Err::<(), NftError>(NftError::NotInitialized),
            self.spec_admin() matches Some(a) && a != caller ==> r == Err::<(), NftError>(
                NftError::Unauthorized,
            ),
            r is Ok <==> self.spec_admin() == Some(caller),
    {
        match self.admin {
            None => Err(NftError::NotInitialized),
            Some(a) => if a.id == caller.id {
                Ok(())
            } else {
                Err(NftError::Unauthorized)
            },
        }
    }

    /// Approves `minter`. Admin only.
    pub fn add_minter(&mut self, caller: Address, minter: Address) -> (r: Result<(), NftError>)
        requires
            old(self).wf(),
        ensures
            final(self).wf(),
            old(self).spec_admin() is None ==> r == Err::<(), NftError>(NftError::NotInitialized),
            r is Ok <==> old(self).spec_admin() == Some(caller),
            r is Err ==> *final(self) == *old(self),
            r is Ok ==> final(self).spec_minters() == old(self).spec_minters().insert(minter@)
                && final(self).spec_events() == old(self).spec_events().push(
                NftEvent::MinterAdded { minter },
            ),
            final(self).spec_admin() == old(self).spec_admin(),
            final(self).spec_supply() == old(self).spec_supply(),
            final(self).spec_nfts() == old(self).spec_nfts(),
            final(self).spec_owner_tokens() == old(self).spec_owner_tokens(),
    {
        self.require_admin(caller)?;
        self.minters.insert(minter, true);
        self.events.push(NftEvent::MinterAdded { minter });
        proof {
            assert(self.spec_minters() =~= old(self).spec_minters().insert(minter@));
        }
        Ok(())
    }

    /// Withdraws `minter`'s approval. Admin only.
    pub fn remove_minter(&mut self, caller: Address, minter: Address) -> (r: Result<(), NftError>)
        requires
            old(self).wf(),
        ensures
            final(self).wf(),
            old(self).spec_admin() is None ==> r == Err::<(), NftError>(NftError::NotInitialized),
            r is Ok <==> old(self).spec_admin() == Some(caller),
            r is Err ==> *final(self) == *old(self),
            r is Ok ==> final(self).spec_minters() == old(self).spec_minters().remove(minter@)
                && final(self).spec_events() == old(self).spec_events().push(
                NftEvent::MinterRemoved { minter },
            ),
            final(self).spec_admin() == old(self).spec_admin(),
            final(self).spec_supply() == old(self).spec_supply(),
            final(self).spec_nfts() == old(self).spec_nfts(),
            final(self).spec_owner_tokens() == old(self).spec_owner_tokens(),
    {
        self.require_admin(caller)?;
        let _ = self.minters.remove(&minter);
        self.events.push(NftEvent::MinterRemoved { minter });
        proof {
            assert(self.spec_minters() =~= old(self).spec_minters().remove(minter@));
        }
        Ok(())
    }

    pub fn is_minter(&self, address: Address) -> (r: bool)
        ensures
            r == self.spec_minters().contains(address@),
    {
        self.minters.contains_key(&address)
    }

    /// Mints the next token to `to`, stamped with `now`. Only approved
    /// minters and the admin may mint. Returns the new token's id.
    pub fn mint(&mut self, minter: Address, to: Address, metadata_cid: String, now: u64) -> (r:
        Result<u64, NftError>)
        requires
            old(self).wf(),
        ensures
            final(self).wf(),
            old(self).spec_admin() is None ==> r == Err::<u64, NftError>(NftError::NotInitialized),
            old(self).spec_admin() is Some && !old(self).may_mint(minter) ==> r == Err::<
                u64,
                NftError,
            >(NftError::Unauthorized),
            old(self).spec_admin() is Some && old(self).may_mint(minter) && old(self).spec_supply()
                == u64::MAX ==> r == Err::<u64, NftError>(NftError::SupplyExhausted),
            r is Ok <==> old(self).spec_admin() is Some && old(self).may_mint(minter) && old(
                self).spec_supply() < u64::MAX,
            r is Err ==> *final(self) == *old(self),
            r matches Ok(id) ==> {
                &&& id == old(self).spec_supply() + 1
                &&& final(self).spec_supply() == id
                &&& !old(self).spec_nfts().contains_key(id)
                &&& final(self).spec_nfts() == old(self).spec_nfts().insert(
                    id,
                    CreditScoreNFT { owner: to, metadata_cid, token_id: id, mint_timestamp: now },
                )
                &&& final(self).spec_owner_tokens() == old(self).spec_owner_tokens().insert(
                    to@,
                    old(self).tokens_of(to).push(id),
                )
                &&& final(self).spec_events() == old(self).spec_events().push(
                    NftEvent::Minted { to, token_id: id },
                )
                &&& final(self).spec_admin() == old(self).spec_admin()
                &&& final(self).spec_minters() == old(self).spec_minters()
            },
    {
        let admin = match self.admin {
            None => {
                return Err(NftError::NotInitialized);
            },
            Some(a) => a,
        };
        if !self.minters.contains_key(&minter) && admin.id != minter.id {
            return Err(NftError::Unauthorized);
        }
        if self.last_token_id == u64::MAX {
            return Err(NftError::SupplyExhausted);
        }
        let token_id = self.last_token_id + 1;
        self.last_token_id = token_id;
        let nft = CreditScoreNFT { owner: to, metadata_cid, token_id, mint_timestamp: now };
        self.nfts.insert(token_id, nft);
        let mut list = match self.owner_tokens.remove(&to) {
            Some(v) => v,
            None => Vec::new(),
        };
        list.push(token_id);
        let ghost l = list@;
        self.owner_tokens.insert(to, list);
        self.events.push(NftEvent::Minted { to, token_id });
        proof {
            assert(l == old(self).tokens_of(to).push(token_id));
            assert(self.spec_owner_tokens() =~= old(self).spec_owner_tokens().insert(to@, l));
        }
        Ok(token_id)
    }

    fn without_token(list: &Vec<u64>, token_id: u64) -> (r: Vec<u64>)
        ensures
            r@ == list@.filter(other_token(token_id)),
    {
        let ghost keep = other_token(token_id);
        let mut r: Vec<u64> = Vec::new();
        let mut i: usize = 0;
        while i < list.len()
            invariant
                i <= list@.len(),
                keep == other_token(token_id),
                r@ == list@.subrange(0, i as int).filter(keep),
            decreases list@.len() - i,
        {
            let t = list[i];
            let ghost prefix = list@.subrange(0, i + 1);
            proof {
                assert(prefix.drop_last() =~= list@.subrange(0, i as int));
                reveal(Seq::filter);
            }
            if t != token_id {
                r.push(t);
            }
            proof {
                assert(keep(t) == (t != token_id));
                assert(r@ == prefix.filter(keep));
            }
            i = i + 1;
        }
        proof {
            assert(list@.subrange(0, list@.len() as int) =~= list@);
        }
        r
    }

    /// Moves token `token_id` from its owner `from` to `to`: it leaves
    /// `from`'s list and joins the end of `to`'s.
    pub fn transfer(&mut self, from: Address, to: Address, token_id: u64) -> (r: Result<(), NftError>)
        requires
            old(self).wf(),
        ensures
            final(self).wf(),
            !old(self).spec_nfts().contains_key(token_id) ==> r == Err::<(), NftError>(
                NftError::NotFound,
            ),
            old(self).spec_nfts().contains_key(token_id) && old(self).spec_nfts()[token_id].owner
                != from ==> r == Err::<(), NftError>(NftError::NotOwner),
            r is Ok <==> old(self).spec_nfts().contains_key(token_id) && old(
                self).spec_nfts()[token_id].owner == from,
            r is Err ==> *final(self) == *old(self),
            r is Ok ==> {
                let removed = old(self).spec_owner_tokens().insert(
                    from@,
                    old(self).tokens_of(from).filter(other_token(token_id)),
                );
                let to_list = if removed.contains_key(to@) {
                    removed[to@]
                } else {
                    Seq::empty()
                };
                &&& final(self).spec_nfts() == old(self).spec_nfts().insert(
                    token_id,
                    CreditScoreNFT { owner: to, ..old(self).spec_nfts()[token_id] },
                )
                &&& final(self).spec_owner_tokens() == removed.insert(to@, to_list.push(token_id))
                &&& final(self).spec_events() == old(self).spec_events().push(
                    NftEvent::Transferred { from, to, token_id },
                )
                &&& final(self).spec_supply() == old(self).spec_supply()
                &&& final(self).spec_admin() == old(self).spec_admin()
                &&& final(self).spec_minters() == old(self).spec_minters()
            },
    {
        let nft = match self.nfts.get(&token_id) {
            None => {
                return Err(NftError::NotFound);
            },
            Some(n) => n,
        };
        if nft.owner.id != from.id {
            return Err(NftError::NotOwner);
        }
        let moved = CreditScoreNFT {
            owner: to,
            metadata_cid: nft.metadata_cid.clone(),
            token_id: nft.token_id,
            mint_timestamp: nft.mint_timestamp,
        };
        let from_list = match self.owner_tokens.get(&from) {
            Some(v) => Self::without_token(v, token_id),
            None => Vec::new(),
        };
        proof {
            reveal(Seq::filter);
        }
        let ghost fl = from_list@;
        self.owner_tokens.insert(from, from_list);
        let ghost mid = self.spec_owner_tokens();
        proof {
            assert(mid =~= old(self).spec_owner_tokens().insert(
                from@,
                old(self).tokens_of(from).filter(other_token(token_id)),
            ));
        }
        let mut to_list = match self.owner_tokens.remove(&to) {
            Some(v) => v,
            None => Vec::new(),
        };
        to_list.push(token_id);
        let ghost tl = to_list@;
        self.owner_tokens.insert(to, to_list);
        proof {
            assert(self.spec_owner_tokens() =~= mid.insert(to@, tl));
        }
        self.nfts.insert(token_id, moved);
        self.events.push(NftEvent::Transferred { from, to, token_id });
        Ok(())
    }

    pub fn get_nft(&self, token_id: u64) -> (r: Option<&CreditScoreNFT>)
        ensures
            match r {
                Some(n) => self.spec_nfts().contains_key(token_id) && self.spec_nfts()[token_id]
                    == *n,
                None => !self.spec_nfts().contains_key(token_id),
            },
    {
        self.nfts.get(&token_id)
    }

    pub fn get_metadata_cid(&self, token_id: u64) -> (r: Option<&String>)
        ensures
            match r {
                Some(c) => self.spec_nfts().contains_key(token_id)
                    && self.spec_nfts()[token_id].metadata_cid == *c,
                None => !self.spec_nfts().contains_key(token_id),
            },
    {
        match self.nfts.get(&token_id) {
            Some(n) => Some(&n.metadata_cid),
            None => None,
        }
    }

    pub fn get_owner(&self, token_id: u64) -> (r: Option<Address>)
        ensures
            match r {
                Some(o) => self.spec_nfts().contains_key(token_id) && self.spec_nfts()[token_id].owner
                    == o,
                None => !self.spec_nfts().contains_key(token_id),
            },
    {
        match self.nfts.get(&token_id) {
            Some(n) => Some(n.owner),
            None => None,
        }
    }

    pub fn get_tokens_by_owner(&self, owner: Address) -> (r: Vec<u64>)
        ensures
            r@ == self.tokens_of(owner),
    {
        match self.owner_tokens.get(&owner) {
            Some(v) => copy_vec(v),
            None => Vec::new(),
        }
    }

    /// The number of tokens minted.
    pub fn total_supply(&self) -> (r: u64)
        ensures
            r == self.spec_supply(),
    {
        self.last_token_id
    }

    pub fn get_admin(&self) -> (r: Option<Address>)
        ensures
            r == self.spec_admin(),
    {
        self.admin
    }
}

} // verus!
