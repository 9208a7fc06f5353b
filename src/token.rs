//! Fungible tokens: balances per holder and transfers between holders.

use vstd::prelude::*;
use crate::address::Address;
use crate::table::Table;

verus! {

#[derive(Clone, Copy, Debug, PartialEq, Eq, Structural)]
pub enum TokenError {
    TokenNotFound,
    NegativeAmount,
    InsufficientBalance,
    BalanceOverflow,
}

/// A holder's balance; holders never credited hold 0.
pub open spec fn balance_in(b: Map<u64, i128>, holder: u64) -> int {
    if b.contains_key(holder) {
        b[holder] as int
    } else {
        0
    }
}

/// The balances after moving `amount` from `from` to `to`, or `None` when
/// the amount is negative, exceeds the sender's balance, or overflows the
/// receiver's.
pub open spec fn pay(b: Map<u64, i128>, from: u64, to: u64, amount: int) -> Option<Map<u64, i128>> {
    if amount < 0 {
        None
    } else if balance_in(b, from) < amount {
        None
    } else if from == to {
        Some(b)
    } else if balance_in(b, to) + amount > i128::MAX {
        None
    } else {
        Some(
            b.insert(from, (balance_in(b, from) - amount) as i128).insert(
                to,
                (balance_in(b, to) + amount) as i128,
            ),
        )
    }
}

/// `pay` on the token at `token` among all tokens' balances.
pub open spec fn token_pay(
    ts: Map<u64, Map<u64, i128>>,
    token: u64,
    from: u64,
    to: u64,
    amount: int,
) -> Option<Map<u64, Map<u64, i128>>> {
    if !ts.contains_key(token) {
        None
    } else {
        match pay(ts[token], from, to, amount) {
            Some(nb) => Some(ts.insert(token, nb)),
            None => None,
        }
    }
}

/// One token contract's balances.
pub struct Token {
    balances: Table<Address, i128>,
}

impl Token {
    pub closed spec fn spec_balances(&self) -> Map<u64, i128> {
        self.balances@
    }

    pub fn new() -> (r: Self)
        ensures
            r.spec_balances() == Map::<u64, i128>::empty(),
    {
        Token { balances: Table::new() }
    }

    pub fn duplicate(&self) -> (r: Self)
        ensures
            r.spec_balances() == self.spec_balances(),
    {
        Token { balances: self.balances.duplicate() }
    }

    pub fn balance(&self, holder: Address) -> (r: i128)
        ensures
            r == balance_in(self.spec_balances(), holder@),
    {
        match self.balances.get(&holder) {
            Some(b) => *b,
            None => 0,
        }
    }

    /// Creates `amount` new units for `to`.
    pub fn mint(&mut self, to: Address, amount: i128) -> (r: Result<(), TokenError>)
        ensures
            amount < 0 ==> r == Err::<(), TokenError>(TokenError::NegativeAmount),
            amount >= 0 && balance_in(old(self).spec_balances(), to@) + amount > i128::MAX ==> r
                == Err::<(), TokenError>(TokenError::BalanceOverflow),
            r is Ok <==> amount >= 0 && balance_in(old(self).spec_balances(), to@) + amount
                <= i128::MAX,
            r is Ok ==> final(self).spec_balances() == old(self).spec_balances().insert(
                to@,
                (balance_in(old(self).spec_balances(), to@) + amount) as i128,
            ),
            r is Err ==> final(self).spec_balances() == old(self).spec_balances(),
    {
        if amount < 0 {
            return Err(TokenError::NegativeAmount);
        }
        let current = self.balance(to);
        if current > i128::MAX - amount {
            return Err(TokenError::BalanceOverflow);
        }
        self.balances.insert(to, current + amount);
        Ok(())
    }

    /// Moves `amount` from `from` to `to`.
    pub fn transfer(&mut self, from: Address, to: Address, amount: i128) -> (r: Result<
        (),
        TokenError,
    >)
        ensures
            match pay(old(self).spec_balances(), from@, to@, amount as int) {
                Some(nb) => r is Ok && final(self).spec_balances() == nb,
                None => r is Err && final(self).spec_balances() == old(self).spec_balances(),
            },
            amount < 0 ==> r == Err::<(), TokenError>(TokenError::NegativeAmount),
            amount >= 0 && balance_in(old(self).spec_balances(), from@) < amount ==> r == Err::<
                (),
                TokenError,
            >(TokenError::InsufficientBalance),
    {
        if amount < 0 {
            return Err(TokenError::NegativeAmount);
        }
        let from_balance = self.balance(from);
        if from_balance < amount {
            return Err(TokenError::InsufficientBalance);
        }
        if from.id == to.id {
            return Ok(());
        }
        let to_balance = self.balance(to);
        if to_balance > i128::MAX - amount {
            return Err(TokenError::BalanceOverflow);
        }
        self.balances.insert(from, from_balance - amount);
        self.balances.insert(to, to_balance + amount);
        Ok(())
    }
}

/// The token contracts on the ledger, by address.
pub struct Tokens {
    tokens: Table<Address, Token>,
}

impl Tokens {
    /// Each token's balances, by token address.
    pub closed spec fn spec_tokens(&self) -> Map<u64, Map<u64, i128>> {
        self.tokens@.map_values(|t: Token| t.spec_balances())
    }

    pub fn new() -> (r: Self)
        ensures
            r.spec_tokens() == Map::<u64, Map<u64, i128>>::empty(),
    {
        let r = Tokens { tokens: Table::new() };
        proof {
            assert(r.spec_tokens() =~= Map::<u64, Map<u64, i128>>::empty());
        }
        r
    }

    /// Places a token with no balances at `address`, replacing any there.
    pub fn deploy(&mut self, address: Address)
        ensures
            final(self).spec_tokens() == old(self).spec_tokens().insert(
                address@,
                Map::<u64, i128>::empty(),
            ),
    {
        self.tokens.insert(address, Token::new());
        proof {
            assert(self.spec_tokens() =~= old(self).spec_tokens().insert(
                address@,
                Map::<u64, i128>::empty(),
            ));
        }
    }

    /// An independent copy of the token at `address`.
    pub fn snapshot(&self, address: Address) -> (r: Option<Token>)
        ensures
            match r {
                Some(t) => self.spec_tokens().contains_key(address@) && t.spec_balances()
                    == self.spec_tokens()[address@],
                None => !self.spec_tokens().contains_key(address@),
            },
    {
        match self.tokens.get(&address) {
            Some(t) => Some(t.duplicate()),
            None => None,
        }
    }

    /// Replaces the token at `address`.
    pub fn commit(&mut self, address: Address, token: Token)
        ensures
            final(self).spec_tokens() == old(self).spec_tokens().insert(
                address@,
                token.spec_balances(),
            ),
    {
        let ghost b = token.spec_balances();
        self.tokens.insert(address, token);
        proof {
            assert(self.spec_tokens() =~= old(self).spec_tokens().insert(address@, b));
        }
    }

    /// `holder`'s balance of the token at `token`; 0 where there is no such token.
    pub fn balance(&self, token: Address, holder: Address) -> (r: i128)
        ensures
            r == (if self.spec_tokens().contains_key(token@) {
                balance_in(self.spec_tokens()[token@], holder@)
            } else {
                0
            }),
    {
        match self.tokens.get(&token) {
            Some(t) => t.balance(holder),
            None => 0,
        }
    }

    /// Creates `amount` units of the token at `token` for `to`.
    pub fn mint(&mut self, token: Address, to: Address, amount: i128) -> (r: Result<
        (),
        TokenError,
    >)
        ensures
            !old(self).spec_tokens().contains_key(token@) ==> r == Err::<(), TokenError>(
                TokenError::TokenNotFound,
            ),
            r is Ok ==> old(self).spec_tokens().contains_key(token@) && amount >= 0
                && final(self).spec_tokens() == old(self).spec_tokens().insert(
                token@,
                old(self).spec_tokens()[token@].insert(
                    to@,
                    (balance_in(old(self).spec_tokens()[token@], to@) + amount) as i128,
                ),
            ),
            r is Err ==> final(self).spec_tokens() == old(self).spec_tokens(),
            old(self).spec_tokens().contains_key(token@) && amount >= 0 && balance_in(
                old(self).spec_tokens()[token@],
                to@,
            ) + amount <= i128::MAX ==> r is Ok,
    {
        let mut t = match self.snapshot(token) {
            Some(t) => t,
            None => {
                return Err(TokenError::TokenNotFound);
            },
        };
        t.mint(to, amount)?;
        self.commit(token, t);
        Ok(())
    }

    /// Moves `amount` of the token at `token` from `from` to `to`.
    pub fn transfer(&mut self, token: Address, from: Address, to: Address, amount: i128) -> (r:
        Result<(), TokenError>)
        ensures
            match token_pay(old(self).spec_tokens(), token@, from@, to@, amount as int) {
                Some(ts) => r is Ok && final(self).spec_tokens() == ts,
                None => r is Err && final(self).spec_tokens() == old(self).spec_tokens(),
            },
    {
        let mut t = match self.snapshot(token) {
            Some(t) => t,
            None => {
                return Err(TokenError::TokenNotFound);
            },
        };
        t.transfer(from, to, amount)?;
        self.commit(token, t);
        Ok(())
    }
}

} // verus!
