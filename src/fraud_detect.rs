//! Fraud detection: approved reporters submit fraud scores for agents,
//! within a quota, while the contract is active.

use vstd::prelude::*;
use crate::address::Address;
use crate::authorization::{
    AccessControlList, IAuthorizable, Permission, PermissionCache, PermissionView, RoleBasedAuth,
};
use crate::error::{AuthorizationError, ContractError, StateError};
use crate::rate_limit::{
    step, RateLimitConfig, RateLimitScope, RateLimitStrategy, RateLimiter, TrustTier,
};
use crate::state_machine::{transition_to, State};
use crate::table::Table;

verus! {

/// How long a cached role decision lasts, in seconds.
pub const ROLE_CACHE_TTL: u64 = 300;

/// The most reports one reporter may submit within a window.
pub const REPORT_QUOTA: u32 = 10;

/// The window over which reports are counted, in seconds.
pub const REPORT_WINDOW: u64 = 3600;

#[derive(Clone, Copy, Debug, PartialEq, Eq, Structural)]
pub struct FraudDetectState {
    pub admin: Address,
    pub acl_contract: Address,
    pub total_reports: u64,
}

#[derive(Clone, Copy, Debug, PartialEq, Eq, Structural)]
pub struct FraudReport {
    pub score: u32,
    pub reporter: Address,
    pub timestamp: u64,
}

#[derive(Clone, Debug)]
pub enum FraudEvent {
    Initialized { admin: Address, acl_contract: Address },
    ReporterAdded { reporter: Address },
    ReporterRemoved { reporter: Address },
    ModelUpdated { timestamp: u64, model_data: Vec<u8> },
    FraudReported { agent_id: String, reporter: Address, score: u32, timestamp: u64 },
}

pub struct FraudDetectContract {
    state: State<FraudDetectState>,
    roles: Option<RoleBasedAuth>,
    role_cache: PermissionCache,
    reports: Table<String, Vec<FraudReport>>,
    limiter: RateLimiter,
    events: Vec<FraudEvent>,
}

/// The quota on report submissions.
pub open spec fn report_quota() -> RateLimitConfig {
    RateLimitConfig {
        max: REPORT_QUOTA,
        window: REPORT_WINDOW,
        strategy: RateLimitStrategy::SlidingWindow,
        scope: RateLimitScope::PerUser,
    }
}

/// The error an operation that needs the contract Active meets in `s`.
pub open spec fn inactive_error<T>(s: State<T>) -> AuthorizationError {
    if s is Uninitialized {
        AuthorizationError::NotInitialized
    } else {
        AuthorizationError::InvalidState
    }
}

impl FraudDetectContract {
    pub closed spec fn spec_state(&self) -> State<FraudDetectState> {
        self.state
    }

    pub closed spec fn spec_roles(&self) -> Option<RoleBasedAuth> {
        self.roles
    }

    pub closed spec fn spec_role_cache(&self) -> PermissionCache {
        self.role_cache
    }

    pub closed spec fn spec_reports(&self) -> Map<Seq<char>, Seq<FraudReport>> {
        self.reports@.map_values(|v: Vec<FraudReport>| v@)
    }

    pub closed spec fn spec_limiter(&self) -> RateLimiter {
        self.limiter
    }

    pub closed spec fn spec_events(&self) -> Seq<FraudEvent> {
        self.events@
    }

    /// Roles exist exactly once the contract is initialized, with its admin.
    pub closed spec fn wf(&self) -> bool {
        match self.state {
            State::Uninitialized => self.roles is None,
            _ => self.roles matches Some(r) && self.state.data() matches Some(d) && r.spec_admin()
                == d.admin,
        }
    }

    /// Whether the contract is active with `who` as its admin.
    pub open spec fn is_active_admin(&self, who: Address) -> bool {
        self.spec_state() matches State::Active(d) && d.admin == who
    }

    /// Whether the contract is paused with `who` as its admin.
    pub open spec fn is_paused_admin(&self, who: Address) -> bool {
        self.spec_state() matches State::Paused(d) && d.admin == who
    }

    /// Whether `who` holds `permission` in the contract's roles.
    pub open spec fn holds(&self, who: Address, permission: PermissionView) -> bool {
        self.spec_roles() matches Some(r) && r.allows(who, permission)
    }

    /// A reporter's reports about `agent_id`, oldest first.
    pub open spec fn reports_of(&self, agent_id: Seq<char>) -> Seq<FraudReport> {
        if self.spec_reports().contains_key(agent_id) {
            self.spec_reports()[agent_id]
        } else {
            Seq::empty()
        }
    }

    /// Whether `acl` is the configured list and allows `caller` the `action`
    /// on fraud data.
    pub open spec fn acl_allows(&self, acl: AccessControlList, caller: Address, action: Seq<char>) -> bool {
        self.spec_state().data() matches Some(d) && acl.spec_address() == d.acl_contract
            && acl.spec_entries().contains((caller@, ("fraud"@, action)))
    }

    /// The quota decision on one more report by `reporter` at `now`.
    pub open spec fn quota_step(&self, reporter: Address, now: u64) -> Option<
        crate::rate_limit::WindowModel,
    > {
        step(
            self.spec_limiter().window_of(reporter, "submit_rpt"@, RateLimitScope::PerUser),
            RateLimitStrategy::SlidingWindow,
            self.spec_limiter().limit_for(reporter, report_quota(), true),
            REPORT_WINDOW,
            now,
        )
    }

    pub fn new() -> (r: Self)
        ensures
            r.wf(),
            r.spec_state() is Uninitialized,
            r.spec_reports() == Map::<Seq<char>, Seq<FraudReport>>::empty(),
            r.spec_events() == Seq::<FraudEvent>::empty(),
    {
        let r = FraudDetectContract {
            state: State::Uninitialized,
            roles: None,
            role_cache: PermissionCache::new(ROLE_CACHE_TTL),
            reports: Table::new(),
            limiter: RateLimiter::new(),
            events: Vec::new(),
        };
        proof {
            assert(r.spec_reports() =~= Map::<Seq<char>, Seq<FraudReport>>::empty());
        }
        r
    }

    /// Activates the contract under `admin`, with `acl_contract` as its
    /// access-control list. Fails once initialized.
    pub fn initialize(&mut self, admin: Address, acl_contract: Address) -> (r: Result<
        (),
        StateError,
    >)
        requires
            old(self).wf(),
        ensures
            final(self).wf(),
            r is Ok <==> old(self).spec_state() is Uninitialized,
            r is Err ==> r == Err::<(), StateError>(StateError::AlreadyInitialized) && *final(self)
                == *old(self),
            r is Ok ==> final(self).spec_state() == State::Active(
                FraudDetectState { admin, acl_contract, total_reports: 0 },
            ) && final(self).spec_events() == old(self).spec_events().push(
                FraudEvent::Initialized { admin, acl_contract },
            ) && final(self).spec_reports() == old(self).spec_reports(),
    {
        if !self.state.is_uninitialized() {
            return Err(StateError::AlreadyInitialized);
        }
        let next = State::Active(FraudDetectState { admin, acl_contract, total_reports: 0 });
        transition_to(&mut self.state, next)?;
        self.roles = Some(RoleBasedAuth::new(admin));
        self.events.push(FraudEvent::Initialized { admin, acl_contract });
        Ok(())
    }

    fn active_data(&self) -> (r: Result<FraudDetectState, AuthorizationError>)
        ensures
            match self.spec_state() {
                State::Active(d) => r == Ok::<FraudDetectState, AuthorizationError>(d),
                s => r == Err::<FraudDetectState, AuthorizationError>(inactive_error(s)),
            },
    {
        match self.state {
            State::Active(d) => Ok(d),
            State::Uninitialized => Err(AuthorizationError::NotInitialized),
            _ => Err(AuthorizationError::InvalidState),
        }
    }

    fn acl_check(&self, acl: &AccessControlList, caller: Address, action: &str) -> (r: bool)
        ensures
            r == self.acl_allows(*acl, caller, action@),
    {
        match self.state.get_data() {
            None => false,
            Some(d) => acl.address().id == d.acl_contract.id && acl.check_permission(
                caller,
                &"fraud".to_owned(),
                &action.to_owned(),
            ),
        }
    }

    /// Approves `reporter`. The caller needs the ACL's manage right on fraud
    /// data, and the contract must be active.
    pub fn add_reporter(&mut self, caller: Address, reporter: Address, acl: &AccessControlList) -> (r:
        Result<(), AuthorizationError>)
        requires
            old(self).wf(),
        ensures
            final(self).wf(),
            !(old(self).spec_state() is Active) ==> r == Err::<(), AuthorizationError>(
                inactive_error(old(self).spec_state()),
            ),
            old(self).spec_state() is Active && !old(self).acl_allows(*acl, caller, "manage"@) ==> r
                == Err::<(), AuthorizationError>(AuthorizationError::NotAuthorized),
            r is Ok <==> old(self).spec_state() is Active && old(self).acl_allows(
                *acl,
                caller,
                "manage"@,
            ),
            r is Err ==> *final(self) == *old(self),
            r is Ok ==> final(self).spec_roles()->Some_0.spec_grants() == old(
                self).spec_roles()->Some_0.spec_grants().insert((reporter@, PermissionView::Reporter))
                && final(self).spec_events() == old(self).spec_events().push(
                FraudEvent::ReporterAdded { reporter },
            ),
            final(self).spec_state() == old(self).spec_state(),
            final(self).spec_reports() == old(self).spec_reports(),
    {
        self.active_data()?;
        if !self.acl_check(acl, caller, "manage") {
            return Err(AuthorizationError::NotAuthorized);
        }
        match &mut self.roles {
            Some(roles) => roles.grant(reporter, Permission::Reporter),
            None => {},
        }
        self.events.push(FraudEvent::ReporterAdded { reporter });
        Ok(())
    }

    /// Withdraws `reporter`'s approval; same requirements as adding.
    pub fn remove_reporter(&mut self, caller: Address, reporter: Address, acl: &AccessControlList) -> (r:
        Result<(), AuthorizationError>)
        requires
            old(self).wf(),
        ensures
            final(self).wf(),
            !(old(self).spec_state() is Active) ==> r == Err::<(), AuthorizationError>(
                inactive_error(old(self).spec_state()),
            ),
            old(self).spec_state() is Active && !old(self).acl_allows(*acl, caller, "manage"@) ==> r
                == Err::<(), AuthorizationError>(AuthorizationError::NotAuthorized),
            r is Ok <==> old(self).spec_state() is Active && old(self).acl_allows(
                *acl,
                caller,
                "manage"@,
            ),
            r is Err ==> *final(self) == *old(self),
            r is Ok ==> final(self).spec_roles()->Some_0.spec_grants() == old(
                self).spec_roles()->Some_0.spec_grants().remove((reporter@, PermissionView::Reporter))
                && final(self).spec_events() == old(self).spec_events().push(
                FraudEvent::ReporterRemoved { reporter },
            ),
            final(self).spec_state() == old(self).spec_state(),
            final(self).spec_reports() == old(self).spec_reports(),
    {
        self.active_data()?;
        if !self.acl_check(acl, caller, "manage") {
            return Err(AuthorizationError::NotAuthorized);
        }
        match &mut self.roles {
            Some(roles) => roles.revoke(reporter, &Permission::Reporter),
            None => {},
        }
        self.events.push(FraudEvent::ReporterRemoved { reporter });
        Ok(())
    }

    fn require_active_admin(&self, admin: Address) -> (r: Result<FraudDetectState, AuthorizationError>)
        ensures
            !(self.spec_state() is Active) ==> r == Err::<FraudDetectState, AuthorizationError>(
                inactive_error(self.spec_state()),
            ),
            match self.spec_state() {
                State::Active(d) => if d.admin == admin {
                    r == Ok::<FraudDetectState, AuthorizationError>(d)
                } else {
                    r == Err::<FraudDetectState, AuthorizationError>(
                        AuthorizationError::NotAuthorized,
                    )
                },
                _ => true,
            },
    {
        let d = self.active_data()?;
        if d.admin.id != admin.id {
            return Err(AuthorizationError::NotAuthorized);
        }
        Ok(d)
    }

    /// Publishes a new fraud model. Admin only, while active.
    pub fn update_model(&mut self, admin: Address, model_data: Vec<u8>, now: u64) -> (r: Result<
        (),
        AuthorizationError,
    >)
        requires
            old(self).wf(),
        ensures
            final(self).wf(),
            r is Ok <==> old(self).is_active_admin(admin),
            !(old(self).spec_state() is Active) ==> r == Err::<(), AuthorizationError>(
                inactive_error(old(self).spec_state()),
            ),
            old(self).spec_state() matches State::Active(d) && d.admin != admin ==> r == Err::<
                (),
                AuthorizationError,
            >(AuthorizationError::NotAuthorized),
            r is Err ==> *final(self) == *old(self),
            r is Ok ==> final(self).spec_events() == old(self).spec_events().push(
                FraudEvent::ModelUpdated { timestamp: now, model_data },
            ),
            final(self).spec_state() == old(self).spec_state(),
            final(self).spec_reports() == old(self).spec_reports(),
    {
        self.require_active_admin(admin)?;
        self.events.push(FraudEvent::ModelUpdated { timestamp: now, model_data });
        Ok(())
    }

    /// Classifies `user` for adaptive quotas. Admin only, while active.
    pub fn set_user_trust_tier(&mut self, admin: Address, user: Address, tier: TrustTier) -> (r:
        Result<(), AuthorizationError>)
        requires
            old(self).wf(),
        ensures
            final(self).wf(),
            r is Ok <==> old(self).is_active_admin(admin),
            !(old(self).spec_state() is Active) ==> r == Err::<(), AuthorizationError>(
                inactive_error(old(self).spec_state()),
            ),
            r is Err ==> *final(self) == *old(self),
            r is Ok ==> final(self).spec_limiter().spec_tiers() == old(
                self).spec_limiter().spec_tiers().insert(user@, tier),
            final(self).spec_state() == old(self).spec_state(),
            final(self).spec_reports() == old(self).spec_reports(),
    {
        self.require_active_admin(admin)?;
        self.limiter.set_trust_tier(user, tier);
        Ok(())
    }

    /// Sets the network-load divisor of adaptive quotas. Admin only, while active.
    pub fn set_network_load(&mut self, admin: Address, load: u32) -> (r: Result<
        (),
        AuthorizationError,
    >)
        requires
            old(self).wf(),
        ensures
            final(self).wf(),
            r is Ok <==> old(self).is_active_admin(admin),
            !(old(self).spec_state() is Active) ==> r == Err::<(), AuthorizationError>(
                inactive_error(old(self).spec_state()),
            ),
            r is Err ==> *final(self) == *old(self),
            r is Ok ==> final(self).spec_limiter().spec_network_load() == load,
            final(self).spec_state() == old(self).spec_state(),
            final(self).spec_reports() == old(self).spec_reports(),
    {
        self.require_active_admin(admin)?;
        self.limiter.set_network_load(load);
        Ok(())
    }

    /// Records `reporter`'s fraud `score` for `agent_id` at `now`. The
    /// contract must be active, the reporter within its adaptive quota,
    /// approved as a reporter, and allowed by the ACL to report.
    pub fn submit_report(
        &mut self,
        reporter: Address,
        agent_id: String,
        score: u32,
        now: u64,
        acl: &AccessControlList,
    ) -> (r: Result<(), AuthorizationError>)
        requires
            old(self).wf(),
        ensures
            final(self).wf(),
            !(old(self).spec_state() is Active) ==> r == Err::<(), AuthorizationError>(
                inactive_error(old(self).spec_state()),
            ),
            old(self).spec_state() is Active && old(self).quota_step(reporter, now) is None ==> r
                == Err::<(), AuthorizationError>(AuthorizationError::RateLimitExceeded),
            old(self).spec_state() is Active && old(self).quota_step(reporter, now) is Some && !old(
                self).holds(reporter, PermissionView::Reporter) ==> r == Err::<(), AuthorizationError>(
                AuthorizationError::NotApprovedReporter,
            ),
            old(self).spec_state() is Active && old(self).quota_step(reporter, now) is Some && old(
                self).holds(reporter, PermissionView::Reporter) && !old(self).acl_allows(
                *acl,
                reporter,
                "report"@,
            ) ==> r == Err::<(), AuthorizationError>(AuthorizationError::NotAuthorized),
            r is Ok <==> old(self).spec_state() is Active && old(self).quota_step(reporter, now) is Some
                && old(self).holds(reporter, PermissionView::Reporter) && old(self).acl_allows(
                *acl,
                reporter,
                "report"@,
            ) && old(self).spec_state()->Active_0.total_reports < u64::MAX,
            r is Err ==> *final(self) == *old(self),
            r is Ok ==> {
                let d = old(self).spec_state()->Active_0;
                &&& old(self).spec_state() is Active
                &&& old(self).quota_step(reporter, now) is Some
                &&& old(self).holds(reporter, PermissionView::Reporter)
                &&& old(self).acl_allows(*acl, reporter, "report"@)
                &&& final(self).spec_state() == State::Active(
                    FraudDetectState { total_reports: (d.total_reports + 1) as u64, ..d },
                )
                &&& final(self).spec_reports() == old(self).spec_reports().insert(
                    agent_id@,
                    old(self).reports_of(agent_id@).push(
                        FraudReport { score, reporter, timestamp: now },
                    ),
                )
                &&& final(self).spec_events() == old(self).spec_events().push(
                    FraudEvent::FraudReported { agent_id, reporter, score, timestamp: now },
                )
            },
    {
        let d = self.active_data()?;
        let quota = RateLimitConfig {
            max: REPORT_QUOTA,
            window: REPORT_WINDOW,
            strategy: RateLimitStrategy::SlidingWindow,
            scope: RateLimitScope::PerUser,
        };
        let action = "submit_rpt".to_owned();
        if !self.limiter.would_admit(reporter, &action, &quota, true, now) {
            return Err(AuthorizationError::RateLimitExceeded);
        }
        let approved = match &self.roles {
            Some(roles) => roles.check_permission(reporter, &Permission::Reporter),
            None => false,
        };
        if !approved {
            return Err(AuthorizationError::NotApprovedReporter);
        }
        if !self.acl_check(acl, reporter, "report") {
            return Err(AuthorizationError::NotAuthorized);
        }
        if d.total_reports == u64::MAX {
            return Err(AuthorizationError::InvalidState);
        }
        let checked = self.limiter.check(reporter, &action, &quota, true, now);
        if checked.is_err() {
            return Err(AuthorizationError::RateLimitExceeded);
        }
        let mut list = match self.reports.remove(&agent_id) {
            Some(v) => v,
            None => Vec::new(),
        };
        list.push(FraudReport { score, reporter, timestamp: now });
        let ghost l = list@;
        self.reports.insert(agent_id.clone(), list);
        proof {
            assert(self.spec_reports() =~= old(self).spec_reports().insert(agent_id@, l));
        }
        self.state = State::Active(
            FraudDetectState { total_reports: d.total_reports + 1, ..d },
        );
        self.events.push(
            FraudEvent::FraudReported { agent_id, reporter, score, timestamp: now },
        );
        Ok(())
    }

    pub fn events(&self) -> (r: &Vec<FraudEvent>)
        ensures
            r@ == self.spec_events(),
    {
        &self.events
    }

    /// Pauses the contract. Admin only, while active.
    pub fn pause(&mut self, admin: Address) -> (r: Result<(), StateError>)
        requires
            old(self).wf(),
        ensures
            final(self).wf(),
            old(self).spec_state() is Uninitialized ==> r == Err::<(), StateError>(
                StateError::NotInitialized,
            ),
            r is Ok <==> old(self).is_active_admin(admin),
            r is Err && !(old(self).spec_state() is Uninitialized) ==> r == Err::<(), StateError>(
                StateError::InvalidState,
            ),
            r is Err ==> *final(self) == *old(self),
            r is Ok ==> final(self).spec_state() == State::Paused(
                old(self).spec_state()->Active_0,
            ),
            final(self).spec_reports() == old(self).spec_reports(),
            final(self).spec_events() == old(self).spec_events(),
    {
        let d = match self.state {
            State::Active(d) => d,
            State::Uninitialized => {
                return Err(StateError::NotInitialized);
            },
            _ => {
                return Err(StateError::InvalidState);
            },
        };
        if d.admin.id != admin.id {
            return Err(StateError::InvalidState);
        }
        transition_to(&mut self.state, State::Paused(d))
    }

    /// Resumes a paused contract. Admin only.
    pub fn resume(&mut self, admin: Address) -> (r: Result<(), StateError>)
        requires
            old(self).wf(),
        ensures
            final(self).wf(),
            r is Ok <==> old(self).is_paused_admin(admin),
            r is Err ==> r == Err::<(), StateError>(StateError::InvalidState) && *final(self) == *old(
                self),
            r is Ok ==> final(self).spec_state() == State::Active(
                old(self).spec_state()->Paused_0,
            ),
            final(self).spec_reports() == old(self).spec_reports(),
            final(self).spec_events() == old(self).spec_events(),
    {
        let d = match self.state {
            State::Paused(d) => d,
            _ => {
                return Err(StateError::InvalidState);
            },
        };
        if d.admin.id != admin.id {
            return Err(StateError::InvalidState);
        }
        transition_to(&mut self.state, State::Active(d))
    }

    pub fn get_contract_state(&self) -> (r: State<FraudDetectState>)
        ensures
            r == self.spec_state(),
    {
        self.state
    }

    /// The number of reports recorded; readable while paused or migrating.
    pub fn get_total_reports(&self) -> (r: Result<u64, StateError>)
        ensures
            match self.spec_state() {
                State::Uninitialized => r == Err::<u64, StateError>(StateError::NotInitialized),
                State::Terminated(_) => r == Err::<u64, StateError>(StateError::InvalidState),
                State::Active(d) => r == Ok::<u64, StateError>(d.total_reports),
                State::Paused(d) => r == Ok::<u64, StateError>(d.total_reports),
                State::Migrating(d) => r == Ok::<u64, StateError>(d.total_reports),
            },
    {
        match self.state {
            State::Uninitialized => Err(StateError::NotInitialized),
            State::Terminated(_) => Err(StateError::InvalidState),
            State::Active(d) => Ok(d.total_reports),
            State::Paused(d) => Ok(d.total_reports),
            State::Migrating(d) => Ok(d.total_reports),
        }
    }

    /// All reports about `agent_id`, oldest first; none unless initialized
    /// and not terminated.
    pub fn get_reports(&self, agent_id: &String) -> (r: Vec<FraudReport>)
        ensures
            r@ == (if self.spec_state() is Uninitialized || self.spec_state() is Terminated {
                Seq::<FraudReport>::empty()
            } else {
                self.reports_of(agent_id@)
            }),
    {
        if self.state.is_uninitialized() || self.state.is_terminated() {
            return Vec::new();
        }
        match self.reports.get(agent_id) {
            Some(v) => crate::bytes::copy_vec(v),
            None => Vec::new(),
        }
    }

    /// The score of the latest report about `agent_id`, or 0 if none.
    pub fn get_latest_score(&self, agent_id: &String) -> (r: u32)
        ensures
            r == (if self.reports_of(agent_id@).len() == 0 {
                0
            } else {
                self.reports_of(agent_id@).last().score
            }),
    {
        match self.reports.get(agent_id) {
            Some(v) => if v.len() == 0 {
                0
            } else {
                v[v.len() - 1].score
            },
            None => 0,
        }
    }

    /// Whether `address` holds `role`, answered through the role cache.
    pub fn has_role(&mut self, address: Address, role: &Permission, now: u64) -> (r: bool)
        requires
            old(self).wf(),
        ensures
            final(self).wf(),
            old(self).spec_roles() is None ==> !r,
            old(self).spec_roles() matches Some(roles) ==> match old(
                self).spec_role_cache().live_entry(address, role@, now) {
                Some(d) => r == d.allowed,
                None => r == roles.allows(address, role@),
            },
            final(self).spec_state() == old(self).spec_state(),
            final(self).spec_roles() == old(self).spec_roles(),
            final(self).spec_reports() == old(self).spec_reports(),
            final(self).spec_events() == old(self).spec_events(),
    {
        match &self.roles {
            None => false,
            Some(roles) => self.role_cache.check(roles, address, role, now),
        }
    }

    /// Runs the storage migration: Active to Migrating and back. Admin only,
    /// while active. Returns the migration's id.
    pub fn migrate_to_compressed(&mut self, admin: Address) -> (r: Result<u64, ContractError>)
        requires
            old(self).wf(),
        ensures
            final(self).wf(),
            old(self).spec_state() is Uninitialized ==> r == Err::<u64, ContractError>(
                ContractError::NotInitialized,
            ),
            old(self).spec_state() is Paused || old(self).spec_state() is Migrating || old(
                self).spec_state() is Terminated ==> r == Err::<u64, ContractError>(
                ContractError::InvalidState,
            ),
            old(self).spec_state() matches State::Active(d) && d.admin != admin ==> r == Err::<
                u64,
                ContractError,
            >(ContractError::Unauthorized),
            r is Ok <==> old(self).is_active_admin(admin),
            r is Ok ==> r == Ok::<u64, ContractError>(1),
            *final(self) == *old(self),
    {
        let d = match self.state {
            State::Active(d) => d,
            State::Uninitialized => {
                return Err(ContractError::NotInitialized);
            },
            _ => {
                return Err(ContractError::InvalidState);
            },
        };
        if d.admin.id != admin.id {
            return Err(ContractError::Unauthorized);
        }
        let migrating = transition_to(&mut self.state, State::Migrating(d));
        let restored = transition_to(&mut self.state, State::Active(d));
        proof {
            assert(migrating is Ok && restored is Ok);
        }
        Ok(1)
    }
}

} // verus!
