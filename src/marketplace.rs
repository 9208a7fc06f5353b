//! The agent marketplace: a listed agent's unique asset unit is held in
//! escrow until a buyer pays the price, split between royalty and seller.

use vstd::prelude::*;
use crate::address::Address;
use crate::table::Table;
use crate::token::{token_pay, Tokens};

verus! {

/// Basis points in a whole.
pub const BPS_DENOMINATOR: u32 = 10000;

#[derive(Clone, Copy, Debug, PartialEq, Eq, Structural)]
pub enum ListingType {
    Sale,
    Auction,
}

#[derive(Clone, Copy, Debug, PartialEq, Eq, Structural)]
pub struct Listing {
    pub seller: Address,
    pub asset_address: Address,
    pub price: i128,
    pub currency: Address,
    pub listing_type: ListingType,
    pub royalty_bps: u32,
    pub royalty_recipient: Address,
}

#[derive(Clone, Copy, Debug, PartialEq, Eq, Structural)]
pub enum MarketError {
    AlreadyListed,
    ListingNotFound,
    TransferFailed,
}

#[derive(Clone, Copy, Debug, PartialEq, Eq, Structural)]
pub enum MarketEvent {
    AgentListed { agent_id: u64, listing: Listing },
    AgentSold { agent_id: u64, price: i128 },
}

/// The royalty on a sale: `price * royalty_bps / 10000`, rounded toward zero.
pub open spec fn royalty_of(price: int, royalty_bps: int) -> int {
    if price >= 0 {
        price * royalty_bps / (BPS_DENOMINATOR as int)
    } else {
        -((-price) * royalty_bps / (BPS_DENOMINATOR as int))
    }
}

pub open spec fn fits_i128(x: int) -> bool {
    i128::MIN <= x <= i128::MAX
}

/// The token balances after settling a sale of `l` to `buyer`: the seller's
/// share and the royalty move from the buyer in the listing's currency
/// (each only when positive), then the asset unit moves from the escrow
/// `contract` to the buyer. `None` when any of these moves is impossible.
pub open spec fn settle(ts: Map<u64, Map<u64, i128>>, l: Listing, buyer: Address, contract: Address) -> Option<
    Map<u64, Map<u64, i128>>,
> {
    let royalty = royalty_of(l.price as int, l.royalty_bps as int);
    let seller_amount = l.price - royalty;
    let t1 = if !fits_i128(royalty) || !fits_i128(seller_amount) {
        None
    } else if !ts.contains_key(l.currency@) {
        None
    } else if seller_amount > 0 {
        token_pay(ts, l.currency@, buyer@, l.seller@, seller_amount)
    } else {
        Some(ts)
    };
    let t2 = match t1 {
        Some(t) => if royalty > 0 {
            token_pay(t, l.currency@, buyer@, l.royalty_recipient@, royalty)
        } else {
            Some(t)
        },
        None => None,
    };
    match t2 {
        Some(t) => token_pay(t, l.asset_address@, contract@, buyer@, 1),
        None => None,
    }
}

pub struct MarketplaceContract {
    address: Address,
    listings: Table<u64, Listing>,
    events: Vec<MarketEvent>,
}

/// The royalty on a sale at `price` with `royalty_bps` basis points, when
/// it fits an `i128`.
pub fn royalty_amount(price: i128, royalty_bps: u32) -> (r: Option<i128>)
    ensures
        match r {
            Some(v) => fits_i128(royalty_of(price as int, royalty_bps as int)) && v == royalty_of(
                price as int,
                royalty_bps as int,
            ),
            None => !fits_i128(royalty_of(price as int, royalty_bps as int)),
        },
{
    let mag: u128 = if price >= 0 {
        price as u128
    } else {
        (-(price + 1)) as u128 + 1
    };
    let bps = royalty_bps as u128;
    let q = mag / 10000;
    let m = mag % 10000;
    let ghost p = mag as int;
    let ghost b = bps as int;
    let ghost exact = p * b / 10000;
    proof {
        assert(p == q * 10000 + m);
        assert(p * b / 10000 == q * b + m * b / 10000) by (nonlinear_arith)
            requires
                p == q * 10000 + m,
                0 <= m < 10000,
                0 <= b,
                0 <= q,
        ;
        assert(0 <= m * b / 10000 <= m * b) by (nonlinear_arith)
            requires
                0 <= m,
                0 <= b,
        ;
        assert(m * b <= 10000 * 0xffff_ffff) by (nonlinear_arith)
            requires
                0 <= m < 10000,
                0 <= b <= 0xffff_ffff,
        ;
        assert(0 <= q * b) by (nonlinear_arith)
            requires
                0 <= q,
                0 <= b,
        ;
        assert(royalty_of(price as int, royalty_bps as int) == if price >= 0 {
            exact
        } else {
            -exact
        });
    }
    let high = match q.checked_mul(bps) {
        Some(h) => h,
        None => {
            return None;
        },
    };
    let low = m * bps / 10000;
    let total = match high.checked_add(low) {
        Some(t) => t,
        None => {
            return None;
        },
    };
    if price >= 0 {
        if total > i128::MAX as u128 {
            None
        } else {
            Some(total as i128)
        }
    } else if total > 0x8000_0000_0000_0000_0000_0000_0000_0000u128 {
        None
    } else if total == 0x8000_0000_0000_0000_0000_0000_0000_0000u128 {
        Some(i128::MIN)
    } else {
        Some(-(total as i128))
    }
}

impl MarketplaceContract {
    pub closed spec fn spec_address(&self) -> Address {
        self.address
    }

    pub closed spec fn spec_listings(&self) -> Map<u64, Listing> {
        self.listings@
    }

    pub closed spec fn spec_events(&self) -> Seq<MarketEvent> {
        self.events@
    }

    /// A marketplace whose escrow account is `address`.
    pub fn new(address: Address) -> (r: Self)
        ensures
            r.spec_address() == address,
            r.spec_listings() == Map::<u64, Listing>::empty(),
            r.spec_events() == Seq::<MarketEvent>::empty(),
    {
        MarketplaceContract { address, listings: Table::new(), events: Vec::new() }
    }

    pub fn address(&self) -> (r: Address)
        ensures
            r == self.spec_address(),
    {
        self.address
    }

    pub fn get_listing(&self, agent_id: u64) -> (r: Option<Listing>)
        ensures
            r == (if self.spec_listings().contains_key(agent_id) {
                Some(self.spec_listings()[agent_id])
            } else {
                None::<Listing>
            }),
    {
        match self.listings.get(&agent_id) {
            Some(l) => Some(*l),
            None => None,
        }
    }

    /// Lists an agent for sale: its asset unit moves from the seller into
    /// escrow and the listing is stored. At most one listing per agent.
    pub fn list_agent(
        &mut self,
        tokens: &mut Tokens,
        seller: Address,
        agent_id: u64,
        asset_address: Address,
        price: i128,
        currency: Address,
        listing_type: ListingType,
        royalty_bps: u32,
        royalty_recipient: Address,
    ) -> (r: Result<(), MarketError>)
        ensures
            ({
                let listing = Listing {
                    seller,
                    asset_address,
                    price,
                    currency,
                    listing_type,
                    royalty_bps,
                    royalty_recipient,
                };
                let escrow = token_pay(
                    old(tokens).spec_tokens(),
                    asset_address@,
                    seller@,
                    old(self).spec_address()@,
                    1,
                );
                &&& old(self).spec_listings().contains_key(agent_id) ==> r == Err::<
                    (),
                    MarketError,
                >(MarketError::AlreadyListed)
                &&& !old(self).spec_listings().contains_key(agent_id) && escrow is None ==> r
                    == Err::<(), MarketError>(MarketError::TransferFailed)
                &&& r is Ok <==> !old(self).spec_listings().contains_key(agent_id) && escrow is Some
                &&& r is Err ==> *final(self) == *old(self) && final(tokens).spec_tokens() == old(
                    tokens).spec_tokens()
                &&& r is Ok ==> {
                    &&& final(tokens).spec_tokens() == escrow->Some_0
                    &&& final(self).spec_listings() == old(self).spec_listings().insert(
                        agent_id,
                        listing,
                    )
                    &&& final(self).spec_events() == old(self).spec_events().push(
                        MarketEvent::AgentListed { agent_id, listing },
                    )
                    &&& final(self).spec_address() == old(self).spec_address()
                }
            }),
    {
        if self.listings.contains_key(&agent_id) {
            return Err(MarketError::AlreadyListed);
        }
        match tokens.transfer(asset_address, seller, self.address, 1) {
            Ok(()) => {},
            Err(_) => {
                return Err(MarketError::TransferFailed);
            },
        }
        let listing = Listing {
            seller,
            asset_address,
            price,
            currency,
            listing_type,
            royalty_bps,
            royalty_recipient,
        };
        self.listings.insert(agent_id, listing);
        self.events.push(MarketEvent::AgentListed { agent_id, listing });
        Ok(())
    }

    /// Buys a listed agent: the price is split into the royalty, paid to the
    /// royalty recipient, and the rest, paid to the seller; the asset unit
    /// leaves escrow for the buyer and the listing is deleted. All of it
    /// happens, or none.
    pub fn buy_agent(&mut self, tokens: &mut Tokens, buyer: Address, agent_id: u64) -> (r: Result<
        (),
        MarketError,
    >)
        ensures
            !old(self).spec_listings().contains_key(agent_id) ==> r == Err::<(), MarketError>(
                MarketError::ListingNotFound,
            ),
            old(self).spec_listings().contains_key(agent_id) ==> {
                let l = old(self).spec_listings()[agent_id];
                match settle(old(tokens).spec_tokens(), l, buyer, old(self).spec_address()) {
                    None => r == Err::<(), MarketError>(MarketError::TransferFailed),
                    Some(ts) => r is Ok && final(tokens).spec_tokens() == ts && final(
                        self).spec_listings() == old(self).spec_listings().remove(agent_id)
                        && final(self).spec_events() == old(self).spec_events().push(
                        MarketEvent::AgentSold { agent_id, price: l.price },
                    ),
                }
            },
            r is Err ==> *final(self) == *old(self) && final(tokens).spec_tokens() == old(
                tokens).spec_tokens(),
            final(self).spec_address() == old(self).spec_address(),
    {
        let l = match self.listings.get(&agent_id) {
            Some(l) => *l,
            None => {
                return Err(MarketError::ListingNotFound);
            },
        };
        let royalty = match royalty_amount(l.price, l.royalty_bps) {
            Some(v) => v,
            None => {
                return Err(MarketError::TransferFailed);
            },
        };
        let seller_amount = match l.price.checked_sub(royalty) {
            Some(v) => v,
            None => {
                return Err(MarketError::TransferFailed);
            },
        };
        let ghost ts0 = tokens.spec_tokens();
        let mut cur = match tokens.snapshot(l.currency) {
            Some(t) => t,
            None => {
                return Err(MarketError::TransferFailed);
            },
        };
        if seller_amount > 0 {
            if cur.transfer(buyer, l.seller, seller_amount).is_err() {
                return Err(MarketError::TransferFailed);
            }
        }
        let ghost ts1 = ts0.insert(l.currency@, cur.spec_balances());
        proof {
            assert(ts0.insert(l.currency@, ts0[l.currency@]) =~= ts0);
        }
        if royalty > 0 {
            if cur.transfer(buyer, l.royalty_recipient, royalty).is_err() {
                return Err(MarketError::TransferFailed);
            }
        }
        let ghost ts2 = ts1.insert(l.currency@, cur.spec_balances());
        proof {
            assert(ts0.insert(l.currency@, cur.spec_balances()) =~= ts2);
        }
        if l.asset_address.id == l.currency.id {
            if cur.transfer(self.address, buyer, 1).is_err() {
                return Err(MarketError::TransferFailed);
            }
            tokens.commit(l.currency, cur);
            proof {
                assert(tokens.spec_tokens() =~= ts2.insert(l.currency@, cur.spec_balances()));
            }
        } else {
            let mut asset = match tokens.snapshot(l.asset_address) {
                Some(t) => t,
                None => {
                    return Err(MarketError::TransferFailed);
                },
            };
            proof {
                assert(ts2.contains_key(l.asset_address@) == ts0.contains_key(l.asset_address@));
                assert(ts2[l.asset_address@] == ts0[l.asset_address@]);
            }
            if asset.transfer(self.address, buyer, 1).is_err() {
                return Err(MarketError::TransferFailed);
            }
            tokens.commit(l.currency, cur);
            tokens.commit(l.asset_address, asset);
            proof {
                assert(tokens.spec_tokens() =~= ts2.insert(
                    l.asset_address@,
                    asset.spec_balances(),
                ));
            }
        }
        let _ = self.listings.remove(&agent_id);
        self.events.push(MarketEvent::AgentSold { agent_id, price: l.price });
        Ok(())
    }
}

} // verus!
