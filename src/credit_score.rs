//! Credit scores: the admin sets scores and scoring factors per account,
//! anyone reads them, each operation within its quota while the lifecycle
//! allows it.

use vstd::prelude::*;
use crate::address::Address;
use crate::error::{AuthorizationError, ContractError, StateError, ValidationError};
use crate::rate_limit::{
    step, RateLimitConfig, RateLimitScope, RateLimitStrategy, RateLimiter, TrustTier, WindowModel,
};
use crate::state_machine::{is_initialized_state, transition_to, State};
use crate::table::Table;

verus! {

/// The score every non-empty account is given by `calculate_score`.
pub const DEFAULT_SCORE: u32 = 500;

#[derive(Clone, Copy, Debug, PartialEq, Eq, Structural)]
pub struct CreditScoreState {
    pub admin: Address,
    pub total_scores: u64,
}

/// One score set for an account, with the time it was set.
#[derive(Clone, Copy, Debug, PartialEq, Eq, Structural)]
pub struct ScoreData {
    pub score: u32,
    pub timestamp: u64,
}

pub struct CreditScoreContract {
    state: State<CreditScoreState>,
    scores: Table<Address, Vec<ScoreData>>,
    factors: Table<Address, String>,
    limiter: RateLimiter,
    events: Vec<Address>,
}

/// Reads of a score: 60 per hour per account, as a token bucket, adaptive.
pub open spec fn read_quota() -> RateLimitConfig {
    RateLimitConfig {
        max: 60,
        window: 3600,
        strategy: RateLimitStrategy::TokenBucket,
        scope: RateLimitScope::PerUser,
    }
}

/// Factor updates: 20 per hour over all accounts, in fixed windows.
pub open spec fn factor_quota() -> RateLimitConfig {
    RateLimitConfig {
        max: 20,
        window: 3600,
        strategy: RateLimitStrategy::FixedWindow,
        scope: RateLimitScope::Global,
    }
}

/// Score updates: 30 per hour per account, in a sliding window.
pub open spec fn score_quota() -> RateLimitConfig {
    RateLimitConfig {
        max: 30,
        window: 3600,
        strategy: RateLimitStrategy::SlidingWindow,
        scope: RateLimitScope::PerUser,
    }
}

fn read_config() -> (r: RateLimitConfig)
    ensures
        r == read_quota(),
{
    RateLimitConfig {
        max: 60,
        window: 3600,
        strategy: RateLimitStrategy::TokenBucket,
        scope: RateLimitScope::PerUser,
    }
}

fn factor_config() -> (r: RateLimitConfig)
    ensures
        r == factor_quota(),
{
    RateLimitConfig {
        max: 20,
        window: 3600,
        strategy: RateLimitStrategy::FixedWindow,
        scope: RateLimitScope::Global,
    }
}

fn score_config() -> (r: RateLimitConfig)
    ensures
        r == score_quota(),
{
    RateLimitConfig {
        max: 30,
        window: 3600,
        strategy: RateLimitStrategy::SlidingWindow,
        scope: RateLimitScope::PerUser,
    }
}

/// The error an operation that needs the contract Active meets in `s`.
pub open spec fn inactive_error<T>(s: State<T>) -> AuthorizationError {
    if s is Uninitialized {
        AuthorizationError::NotInitialized
    } else {
        AuthorizationError::InvalidState
    }
}

/// The last `limit` entries of `history`, oldest first.
pub open spec fn latest(history: Seq<ScoreData>, limit: nat) -> Seq<ScoreData> {
    if history.len() <= limit {
        history
    } else {
        history.subrange(history.len() - limit, history.len() as int)
    }
}

impl CreditScoreContract {
    pub closed spec fn spec_state(&self) -> State<CreditScoreState> {
        self.state
    }

    /// Each account's scores, oldest first.
    pub closed spec fn spec_scores(&self) -> Map<u64, Seq<ScoreData>> {
        self.scores@.map_values(|v: Vec<ScoreData>| v@)
    }

    pub closed spec fn spec_factors(&self) -> Map<u64, Seq<char>> {
        self.factors@.map_values(|f: String| f@)
    }

    pub closed spec fn spec_limiter(&self) -> RateLimiter {
        self.limiter
    }

    /// The admins the contract was initialized under.
    pub closed spec fn spec_events(&self) -> Seq<Address> {
        self.events@
    }

    /// Every account with a history has at least one score in it.
    pub closed spec fn wf(&self) -> bool {
        forall|a: u64| #[trigger] self.scores@.contains_key(a) ==> self.scores@[a]@.len() > 0
    }

    pub open spec fn is_active_admin(&self, who: Address) -> bool {
        self.spec_state() matches State::Active(d) && d.admin == who
    }

    pub open spec fn is_paused_admin(&self, who: Address) -> bool {
        self.spec_state() matches State::Paused(d) && d.admin == who
    }

    pub open spec fn history_of(&self, account: Address) -> Seq<ScoreData> {
        if self.spec_scores().contains_key(account@) {
            self.spec_scores()[account@]
        } else {
            Seq::empty()
        }
    }

    /// The quota decision on `action` under `cfg` by `subject` at `now`.
    pub open spec fn quota_step(
        &self,
        subject: Address,
        action: Seq<char>,
        cfg: RateLimitConfig,
        adaptive: bool,
        now: u64,
    ) -> Option<WindowModel> {
        step(
            self.spec_limiter().window_of(subject, action, cfg.scope),
            cfg.strategy,
            self.spec_limiter().limit_for(subject, cfg, adaptive),
            cfg.window,
            now,
        )
    }

    pub fn new() -> (r: Self)
        ensures
            r.wf(),
            r.spec_state() is Uninitialized,
            r.spec_scores() == Map::<u64, Seq<ScoreData>>::empty(),
            r.spec_factors() == Map::<u64, Seq<char>>::empty(),
    {
        let r = CreditScoreContract {
            state: State::Uninitialized,
            scores: Table::new(),
            factors: Table::new(),
            limiter: RateLimiter::new(),
            events: Vec::new(),
        };
        proof {
            assert(r.spec_scores() =~= Map::<u64, Seq<ScoreData>>::empty());
            assert(r.spec_factors() =~= Map::<u64, Seq<char>>::empty());
        }
        r
    }

    /// Activates the contract under `admin`. Fails once initialized.
    pub fn initialize(&mut self, admin: Address) -> (r: Result<(), StateError>)
        requires
            old(self).wf(),
        ensures
            final(self).wf(),
            r is Ok <==> old(self).spec_state() is Uninitialized,
            r is Err ==> r == Err::<(), StateError>(StateError::AlreadyInitialized) && *final(self)
                == *old(self),
            r is Ok ==> final(self).spec_state() == State::Active(
                CreditScoreState { admin, total_scores: 0 },
            ) && final(self).spec_events() == old(self).spec_events().push(admin),
            final(self).spec_scores() == old(self).spec_scores(),
            final(self).spec_factors() == old(self).spec_factors(),
    {
        if !self.state.is_uninitialized() {
            return Err(StateError::AlreadyInitialized);
        }
        transition_to(&mut self.state, State::Active(CreditScoreState { admin, total_scores: 0 }))?;
        self.events.push(admin);
        Ok(())
    }

    fn active_data(&self) -> (r: Result<CreditScoreState, AuthorizationError>)
        ensures
            match self.spec_state() {
                State::Active(d) => r == Ok::<CreditScoreState, AuthorizationError>(d),
                s => r == Err::<CreditScoreState, AuthorizationError>(inactive_error(s)),
            },
    {
        match self.state {
            State::Active(d) => Ok(d),
            State::Uninitialized => Err(AuthorizationError::NotInitialized),
            _ => Err(AuthorizationError::InvalidState),
        }
    }

    /// Classifies `user` for adaptive quotas. Admin only, while active.
    pub fn set_user_trust_tier(&mut self, admin: Address, user: Address, tier: TrustTier) -> (r:
        Result<(), AuthorizationError>)
        requires
            old(self).wf(),
        ensures
            final(self).wf(),
            r is Ok <==> old(self).is_active_admin(admin),
            !(old(self).spec_state() is Active) ==> r == Err::<(), AuthorizationError>(
                inactive_error(old(self).spec_state()),
            ),
            old(self).spec_state() is Active && !old(self).is_active_admin(admin) ==> r == Err::<
                (),
                AuthorizationError,
            >(AuthorizationError::NotAuthorized),
            r is Err ==> *final(self) == *old(self),
            r is Ok ==> final(self).spec_limiter().spec_tiers() == old(
                self).spec_limiter().spec_tiers().insert(user@, tier),
            final(self).spec_state() == old(self).spec_state(),
            final(self).spec_scores() == old(self).spec_scores(),
    {
        let d = self.active_data()?;
        if d.admin.id != admin.id {
            return Err(AuthorizationError::NotAuthorized);
        }
        self.limiter.set_trust_tier(user, tier);
        Ok(())
    }

    /// Sets the network-load divisor of adaptive quotas. Admin only, while active.
    pub fn set_network_load(&mut self, admin: Address, load: u32) -> (r: Result<
        (),
        AuthorizationError,
    >)
        requires
            old(self).wf(),
        ensures
            final(self).wf(),
            r is Ok <==> old(self).is_active_admin(admin),
            !(old(self).spec_state() is Active) ==> r == Err::<(), AuthorizationError>(
                inactive_error(old(self).spec_state()),
            ),
            r is Err ==> *final(self) == *old(self),
            r is Ok ==> final(self).spec_limiter().spec_network_load() == load,
            final(self).spec_state() == old(self).spec_state(),
            final(self).spec_scores() == old(self).spec_scores(),
    {
        let d = self.active_data()?;
        if d.admin.id != admin.id {
            return Err(AuthorizationError::NotAuthorized);
        }
        self.limiter.set_network_load(load);
        Ok(())
    }

    /// The score of an account: 500 for any named account, while active.
    pub fn calculate_score(&self, account_id: &String) -> (r: Result<u32, ValidationError>)
        ensures
            self.spec_state() is Uninitialized ==> r == Err::<u32, ValidationError>(
                ValidationError::NotInitialized,
            ),
            !(self.spec_state() is Uninitialized) && !(self.spec_state() is Active) ==> r == Err::<
                u32,
                ValidationError,
            >(ValidationError::InvalidState),
            self.spec_state() is Active && account_id@.len() == 0 ==> r == Err::<
                u32,
                ValidationError,
            >(ValidationError::MissingRequiredField),
            self.spec_state() is Active && account_id@.len() > 0 ==> r == Ok::<u32, ValidationError>(
                DEFAULT_SCORE,
            ),
    {
        match self.state {
            State::Active(_) => {},
            State::Uninitialized => {
                return Err(ValidationError::NotInitialized);
            },
            _ => {
                return Err(ValidationError::InvalidState);
            },
        }
        if account_id.as_str().is_empty() {
            return Err(ValidationError::MissingRequiredField);
        }
        Ok(DEFAULT_SCORE)
    }

    /// The latest score of `account` at `now`, within the account's read
    /// quota; readable while paused or migrating.
    pub fn get_score(&mut self, account: Address, now: u64) -> (r: Result<u32, AuthorizationError>)
        requires
            old(self).wf(),
        ensures
            final(self).wf(),
            !is_initialized_state(old(self).spec_state()) ==> r == Err::<u32, AuthorizationError>(
                AuthorizationError::NotInitialized,
            ),
            is_initialized_state(old(self).spec_state()) && old(self).quota_step(
                account,
                "get_score"@,
                read_quota(),
                true,
                now,
            ) is None ==> r == Err::<u32, AuthorizationError>(AuthorizationError::RateLimitExceeded),
            is_initialized_state(old(self).spec_state()) && old(self).quota_step(
                account,
                "get_score"@,
                read_quota(),
                true,
                now,
            ) is Some && old(self).history_of(account).len() == 0 ==> r == Err::<
                u32,
                AuthorizationError,
            >(AuthorizationError::NotAuthorized),
            r is Ok <==> is_initialized_state(old(self).spec_state()) && old(self).quota_step(
                account,
                "get_score"@,
                read_quota(),
                true,
                now,
            ) is Some && old(self).history_of(account).len() > 0,
            r is Err ==> *final(self) == *old(self),
            r is Ok ==> r == Ok::<u32, AuthorizationError>(
                old(self).history_of(account).last().score,
            ) && old(self).spec_limiter().recorded(
                final(self).spec_limiter(),
                account,
                "get_score"@,
                RateLimitScope::PerUser,
                old(self).quota_step(account, "get_score"@, read_quota(), true, now)->Some_0,
            ),
            final(self).spec_state() == old(self).spec_state(),
            final(self).spec_scores() == old(self).spec_scores(),
            final(self).spec_factors() == old(self).spec_factors(),
    {
        match self.state {
            State::Uninitialized | State::Terminated(_) => {
                return Err(AuthorizationError::NotInitialized);
            },
            _ => {},
        }
        let quota = read_config();
        let action = "get_score".to_owned();
        if !self.limiter.would_admit(account, &action, &quota, true, now) {
            return Err(AuthorizationError::RateLimitExceeded);
        }
        let score = match self.scores.get(&account) {
            Some(h) => h[h.len() - 1].score,
            None => {
                return Err(AuthorizationError::NotAuthorized);
            },
        };
        let _ = self.limiter.check(account, &action, &quota, true, now);
        Ok(score)
    }

    /// Stores scoring factors for `account`. Admin only, while active, within
    /// the global quota on factor updates.
    pub fn update_factors(&mut self, caller: Address, account: Address, factors: String, now: u64) -> (r:
        Result<(), AuthorizationError>)
        requires
            old(self).wf(),
        ensures
            final(self).wf(),
            !(old(self).spec_state() is Active) ==> r == Err::<(), AuthorizationError>(
                inactive_error(old(self).spec_state()),
            ),
            old(self).spec_state() is Active && old(self).quota_step(
                caller,
                "upd_factor"@,
                factor_quota(),
                false,
                now,
            ) is None ==> r == Err::<(), AuthorizationError>(AuthorizationError::RateLimitExceeded),
            old(self).spec_state() is Active && old(self).quota_step(
                caller,
                "upd_factor"@,
                factor_quota(),
                false,
                now,
            ) is Some && !old(self).is_active_admin(caller) ==> r == Err::<(), AuthorizationError>(
                AuthorizationError::NotAuthorized,
            ),
            r is Ok <==> old(self).is_active_admin(caller) && old(self).quota_step(
                caller,
                "upd_factor"@,
                factor_quota(),
                false,
                now,
            ) is Some,
            r is Err ==> *final(self) == *old(self),
            r is Ok ==> final(self).spec_factors() == old(self).spec_factors().insert(
                account@,
                factors@,
            ),
            final(self).spec_state() == old(self).spec_state(),
            final(self).spec_scores() == old(self).spec_scores(),
    {
        let d = self.active_data()?;
        let quota = factor_config();
        let action = "upd_factor".to_owned();
        if !self.limiter.would_admit(caller, &action, &quota, false, now) {
            return Err(AuthorizationError::RateLimitExceeded);
        }
        if d.admin.id != caller.id {
            return Err(AuthorizationError::NotAuthorized);
        }
        let _ = self.limiter.check(caller, &action, &quota, false, now);
        let ghost f = factors@;
        self.factors.insert(account, factors);
        proof {
            assert(self.spec_factors() =~= old(self).spec_factors().insert(account@, f));
        }
        Ok(())
    }

    /// Records `score` for `account` at `now`. Admin only, while active,
    /// within the account's quota on score updates.
    pub fn set_score(&mut self, caller: Address, account: Address, score: u32, now: u64) -> (r:
        Result<(), AuthorizationError>)
        requires
            old(self).wf(),
        ensures
            final(self).wf(),
            !(old(self).spec_state() is Active) ==> r == Err::<(), AuthorizationError>(
                inactive_error(old(self).spec_state()),
            ),
            old(self).spec_state() is Active && old(self).quota_step(
                account,
                "set_score"@,
                score_quota(),
                false,
                now,
            ) is None ==> r == Err::<(), AuthorizationError>(AuthorizationError::RateLimitExceeded),
            old(self).spec_state() is Active && old(self).quota_step(
                account,
                "set_score"@,
                score_quota(),
                false,
                now,
            ) is Some && !old(self).is_active_admin(caller) ==> r == Err::<(), AuthorizationError>(
                AuthorizationError::NotAuthorized,
            ),
            r is Ok <==> old(self).spec_state() is Active && old(self).quota_step(
                account,
                "set_score"@,
                score_quota(),
                false,
                now,
            ) is Some && old(self).is_active_admin(caller) && old(
                self).spec_state()->Active_0.total_scores < u64::MAX,
            r is Err ==> *final(self) == *old(self),
            r is Ok ==> {
                let d = old(self).spec_state()->Active_0;
                &&& old(self).is_active_admin(caller)
                &&& final(self).spec_scores() == old(self).spec_scores().insert(
                    account@,
                    old(self).history_of(account).push(ScoreData { score, timestamp: now }),
                )
                &&& final(self).spec_state() == State::Active(
                    CreditScoreState { total_scores: (d.total_scores + 1) as u64, ..d },
                )
            },
            final(self).spec_factors() == old(self).spec_factors(),
    {
        let d = self.active_data()?;
        let quota = score_config();
        let action = "set_score".to_owned();
        if !self.limiter.would_admit(account, &action, &quota, false, now) {
            return Err(AuthorizationError::RateLimitExceeded);
        }
        if d.admin.id != caller.id {
            return Err(AuthorizationError::NotAuthorized);
        }
        if d.total_scores == u64::MAX {
            return Err(AuthorizationError::InvalidState);
        }
        let _ = self.limiter.check(account, &action, &quota, false, now);
        let mut history = match self.scores.remove(&account) {
            Some(h) => h,
            None => Vec::new(),
        };
        history.push(ScoreData { score, timestamp: now });
        let ghost h = history@;
        self.scores.insert(account, history);
        proof {
            assert(self.spec_scores() =~= old(self).spec_scores().insert(account@, h));
        }
        self.state = State::Active(CreditScoreState { total_scores: d.total_scores + 1, ..d });
        Ok(())
    }

    /// The last `limit` scores of `account`, oldest first; readable while
    /// paused or migrating.
    pub fn get_score_history(&self, account: Address, limit: u32) -> (r: Result<
        Vec<ScoreData>,
        AuthorizationError,
    >)
        ensures
            !is_initialized_state(self.spec_state()) ==> r is Err && r->Err_0
                == AuthorizationError::NotInitialized,
            is_initialized_state(self.spec_state()) ==> r is Ok && r->Ok_0@ == latest(
                self.history_of(account),
                limit as nat,
            ),
    {
        match self.state {
            State::Uninitialized | State::Terminated(_) => {
                return Err(AuthorizationError::NotInitialized);
            },
            _ => {},
        }
        let history = match self.scores.get(&account) {
            Some(h) => h,
            None => {
                return Ok(Vec::new());
            },
        };
        let start: usize = if history.len() <= limit as usize {
            0
        } else {
            history.len() - limit as usize
        };
        let mut out: Vec<ScoreData> = Vec::new();
        let mut i: usize = start;
        while i < history.len()
            invariant
                start <= i <= history@.len(),
                out@ == history@.subrange(start as int, i as int),
            decreases history@.len() - i,
        {
            out.push(history[i]);
            i = i + 1;
            proof {
                assert(out@ =~= history@.subrange(start as int, i as int));
            }
        }
        proof {
            assert(history@.subrange(0, history@.len() as int) =~= history@);
        }
        Ok(out)
    }

    /// Pauses the contract. Admin only, while active.
    pub fn pause(&mut self, admin: Address) -> (r: Result<(), StateError>)
        requires
            old(self).wf(),
        ensures
            final(self).wf(),
            old(self).spec_state() is Uninitialized ==> r == Err::<(), StateError>(
                StateError::NotInitialized,
            ),
            r is Ok <==> old(self).is_active_admin(admin),
            r is Err && !(old(self).spec_state() is Uninitialized) ==> r == Err::<(), StateError>(
                StateError::InvalidState,
            ),
            r is Err ==> *final(self) == *old(self),
            r is Ok ==> final(self).spec_state() == State::Paused(
                old(self).spec_state()->Active_0,
            ),
            final(self).spec_scores() == old(self).spec_scores(),
            final(self).spec_factors() == old(self).spec_factors(),
    {
        let d = match self.state {
            State::Active(d) => d,
            State::Uninitialized => {
                return Err(StateError::NotInitialized);
            },
            _ => {
                return Err(StateError::InvalidState);
            },
        };
        if d.admin.id != admin.id {
            return Err(StateError::InvalidState);
        }
        transition_to(&mut self.state, State::Paused(d))
    }

    /// Resumes a paused contract. Admin only.
    pub fn resume(&mut self, admin: Address) -> (r: Result<(), StateError>)
        requires
            old(self).wf(),
        ensures
            final(self).wf(),
            r is Ok <==> old(self).is_paused_admin(admin),
            r is Err ==> r == Err::<(), StateError>(StateError::InvalidState) && *final(self) == *old(
                self),
            r is Ok ==> final(self).spec_state() == State::Active(
                old(self).spec_state()->Paused_0,
            ),
            final(self).spec_scores() == old(self).spec_scores(),
            final(self).spec_factors() == old(self).spec_factors(),
    {
        let d = match self.state {
            State::Paused(d) => d,
            _ => {
                return Err(StateError::InvalidState);
            },
        };
        if d.admin.id != admin.id {
            return Err(StateError::InvalidState);
        }
        transition_to(&mut self.state, State::Active(d))
    }

    pub fn get_contract_state(&self) -> (r: State<CreditScoreState>)
        ensures
            r == self.spec_state(),
    {
        self.state
    }

    /// The number of scores set; readable while paused or migrating.
    pub fn get_total_scores(&self) -> (r: Result<u64, StateError>)
        ensures
            match self.spec_state() {
                State::Uninitialized => r == Err::<u64, StateError>(StateError::NotInitialized),
                State::Terminated(_) => r == Err::<u64, StateError>(StateError::InvalidState),
                State::Active(d) => r == Ok::<u64, StateError>(d.total_scores),
                State::Paused(d) => r == Ok::<u64, StateError>(d.total_scores),
                State::Migrating(d) => r == Ok::<u64, StateError>(d.total_scores),
            },
    {
        match self.state {
            State::Uninitialized => Err(StateError::NotInitialized),
            State::Terminated(_) => Err(StateError::InvalidState),
            State::Active(d) => Ok(d.total_scores),
            State::Paused(d) => Ok(d.total_scores),
            State::Migrating(d) => Ok(d.total_scores),
        }
    }

    /// Runs the storage migration: Active to Migrating and back. Admin only,
    /// while active. Returns the number of records migrated, which is none
    /// as scores are already stored in their final form.
    pub fn migrate_to_compressed(&mut self, admin: Address) -> (r: Result<u64, ContractError>)
        requires
            old(self).wf(),
        ensures
            final(self).wf(),
            old(self).spec_state() is Uninitialized ==> r == Err::<u64, ContractError>(
                ContractError::NotInitialized,
            ),
            old(self).spec_state() is Paused || old(self).spec_state() is Migrating || old(
                self).spec_state() is Terminated ==> r == Err::<u64, ContractError>(
                ContractError::InvalidState,
            ),
            old(self).spec_state() is Active && !old(self).is_active_admin(admin) ==> r == Err::<
                u64,
                ContractError,
            >(ContractError::Unauthorized),
            r is Ok <==> old(self).is_active_admin(admin),
            r is Ok ==> r == Ok::<u64, ContractError>(0),
            *final(self) == *old(self),
    {
        let d = match self.state {
            State::Active(d) => d,
            State::Uninitialized => {
                return Err(ContractError::NotInitialized);
            },
            _ => {
                return Err(ContractError::InvalidState);
            },
        };
        if d.admin.id != admin.id {
            return Err(ContractError::Unauthorized);
        }
        let migrating = transition_to(&mut self.state, State::Migrating(d));
        let restored = transition_to(&mut self.state, State::Active(d));
        proof {
            assert(migrating is Ok && restored is Ok);
        }
        Ok(0)
    }
}

} // verus!
