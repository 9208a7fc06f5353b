//! Agent actions: typed, rate-limited submissions recorded under unique,
//! increasing execution ids.

use vstd::prelude::*;
use crate::address::Address;
use crate::bytes::copy_bytes;
use crate::rate_limit::{
    recent, step, window_start, RateLimitConfig, RateLimitScope, RateLimitStrategy, RateLimiter,
    TrustTier, WindowModel,
};
use crate::rate_limit::lemma_recent_drops_all;
use crate::table::Table;

verus! {

/// The window over which an agent's actions are counted, in seconds.
pub const RATE_LIMIT_WINDOW: u64 = 3600;

/// The most actions an agent may submit within one window.
pub const RATE_LIMIT_MAX: u32 = 10;

#[derive(Clone, Copy, Debug, PartialEq, Eq, Structural)]
pub enum Error {
    InvalidActionType,
    ExecutionIdExists,
    RateLimitExceeded,
    Unauthorized,
}

impl Error {
    /// The error's numeric code.
    pub fn as_u32(&self) -> (r: u32)
        ensures
            r == match *self {
                Error::InvalidActionType => 1u32,
                Error::ExecutionIdExists => 2,
                Error::RateLimitExceeded => 3,
                Error::Unauthorized => 4,
            },
    {
        match self {
            Error::InvalidActionType => 1,
            Error::ExecutionIdExists => 2,
            Error::RateLimitExceeded => 3,
            Error::Unauthorized => 4,
        }
    }
}

#[derive(Clone, Copy, Debug, PartialEq, Eq, Structural)]
pub enum ActionType {
    CreditScore,
    FraudDetect,
    Trade,
}

/// The action type a code names: 1, 2 and 3 name the three types.
pub open spec fn action_of(value: u32) -> Option<ActionType> {
    if value == 1 {
        Some(ActionType::CreditScore)
    } else if value == 2 {
        Some(ActionType::FraudDetect)
    } else if value == 3 {
        Some(ActionType::Trade)
    } else {
        None
    }
}

impl ActionType {
    pub fn from_u32(value: u32) -> (r: Option<ActionType>)
        ensures
            r == action_of(value),
    {
        match value {
            1 => Some(ActionType::CreditScore),
            2 => Some(ActionType::FraudDetect),
            3 => Some(ActionType::Trade),
            _ => None,
        }
    }

    /// The action type's code.
    pub fn as_u32(&self) -> (r: u32)
        ensures
            action_of(r) == Some(*self),
    {
        match self {
            ActionType::CreditScore => 1,
            ActionType::FraudDetect => 2,
            ActionType::Trade => 3,
        }
    }
}

/// A recorded action.
#[derive(Clone, Debug)]
pub struct Execution {
    pub id: u64,
    pub agent: Address,
    pub action_type: ActionType,
    pub data: Vec<u8>,
    pub timestamp: u64,
}

/// Published when an action is recorded: (id, agent, action code, time).
#[derive(Clone, Copy, Debug, PartialEq, Eq, Structural)]
pub struct ActionSubmitted {
    pub execution_id: u64,
    pub agent: Address,
    pub action_type: u32,
    pub timestamp: u64,
}

pub struct CommonUtilsContract {
    admin: Option<Address>,
    counter: u64,
    executions: Table<u64, Execution>,
    limiter: RateLimiter,
    events: Vec<ActionSubmitted>,
}

/// The quota on agent actions.
pub open spec fn action_quota() -> RateLimitConfig {
    RateLimitConfig {
        max: RATE_LIMIT_MAX,
        window: RATE_LIMIT_WINDOW,
        strategy: RateLimitStrategy::SlidingWindow,
        scope: RateLimitScope::PerUser,
    }
}

/// The name under which agent actions are counted.
pub open spec fn action_key() -> Seq<char> {
    "submit_action"@
}

impl CommonUtilsContract {
    pub closed spec fn spec_admin(&self) -> Option<Address> {
        self.admin
    }

    /// The last execution id handed out; 0 before the first.
    pub closed spec fn spec_counter(&self) -> u64 {
        self.counter
    }

    pub closed spec fn spec_executions(&self) -> Map<u64, Execution> {
        self.executions@
    }

    pub closed spec fn spec_limiter(&self) -> RateLimiter {
        self.limiter
    }

    pub closed spec fn spec_events(&self) -> Seq<ActionSubmitted> {
        self.events@
    }

    /// Every recorded execution has an id no larger than the counter.
    pub closed spec fn wf(&self) -> bool {
        forall|id: u64| #[trigger] self.executions@.contains_key(id) ==> id <= self.counter
    }

    /// The sliding-window decision on one more action by `agent` at `now`.
    pub open spec fn quota_step(&self, agent: Address, now: u64) -> Option<WindowModel> {
        step(
            self.spec_limiter().window_of(agent, action_key(), RateLimitScope::PerUser),
            RateLimitStrategy::SlidingWindow,
            RATE_LIMIT_MAX as nat,
            RATE_LIMIT_WINDOW,
            now,
        )
    }

    pub fn new() -> (r: Self)
        ensures
            r.wf(),
            r.spec_admin() is None,
            r.spec_counter() == 0,
            r.spec_executions() == Map::<u64, Execution>::empty(),
            r.spec_events() == Seq::<ActionSubmitted>::empty(),
            r.spec_limiter().spec_per_user() == Map::<(u64, Seq<char>), WindowModel>::empty(),
            r.spec_limiter().spec_global() == Map::<Seq<char>, WindowModel>::empty(),
            r.spec_limiter().spec_tiers() == Map::<u64, TrustTier>::empty(),
            r.spec_limiter().spec_network_load() == 1,
    {
        CommonUtilsContract {
            admin: None,
            counter: 0,
            executions: Table::new(),
            limiter: RateLimiter::new(),
            events: Vec::new(),
        }
    }

    /// Makes the invoking `caller` the administrator.
    pub fn initialize(&mut self, caller: Address)
        requires
            old(self).wf(),
        ensures
            final(self).wf(),
            final(self).spec_admin() == Some(caller),
            final(self).spec_counter() == old(self).spec_counter(),
            final(self).spec_executions() == old(self).spec_executions(),
            final(self).spec_limiter() == old(self).spec_limiter(),
            final(self).spec_events() == old(self).spec_events(),
    {
        self.admin = Some(caller);
    }

    pub fn admin(&self) -> (r: Option<Address>)
        ensures
            r == self.spec_admin(),
    {
        self.admin
    }

    /// Records an action by `agent` at `now`: the type code must name an
    /// action type and the agent must be within its quota of actions per
    /// window. Returns the new execution id, one past the previous one.
    pub fn submit_action(&mut self, agent: Address, action_type: u32, data: &Vec<u8>, now: u64) -> (r:
        Result<u64, Error>)
        requires
            old(self).wf(),
        ensures
            final(self).wf(),
            action_of(action_type) is None ==> r == Err::<u64, Error>(Error::InvalidActionType),
            action_of(action_type) is Some && old(self).quota_step(agent, now) is None ==> r
                == Err::<u64, Error>(Error::RateLimitExceeded),
            action_of(action_type) is Some && old(self).quota_step(agent, now) is Some
                && old(self).spec_counter() == u64::MAX ==> r == Err::<u64, Error>(
                Error::ExecutionIdExists,
            ),
            r is Ok <==> action_of(action_type) is Some && old(self).quota_step(agent, now) is Some
                && old(self).spec_counter() < u64::MAX,
            r is Err ==> *final(self) == *old(self),
            r matches Ok(id) ==> {
                &&& id == old(self).spec_counter() + 1
                &&& final(self).spec_counter() == id
                &&& !old(self).spec_executions().contains_key(id)
                &&& final(self).spec_executions().dom() == old(self).spec_executions().dom().insert(
                    id,
                )
                &&& final(self).spec_executions()[id].id == id
                &&& final(self).spec_executions()[id].agent == agent
                &&& Some(final(self).spec_executions()[id].action_type) == action_of(action_type)
                &&& final(self).spec_executions()[id].data@ == data@
                &&& final(self).spec_executions()[id].timestamp == now
                &&& forall|k: u64|
                    k != id && #[trigger] old(self).spec_executions().contains_key(k)
                        ==> final(self).spec_executions()[k] == old(self).spec_executions()[k]
                &&& old(self).spec_limiter().recorded(
                    final(self).spec_limiter(),
                    agent,
                    action_key(),
                    RateLimitScope::PerUser,
                    old(self).quota_step(agent, now)->Some_0,
                )
                &&& final(self).spec_events() == old(self).spec_events().push(
                    ActionSubmitted { execution_id: id, agent, action_type, timestamp: now },
                )
                &&& final(self).spec_admin() == old(self).spec_admin()
            },
    {
        let action = match ActionType::from_u32(action_type) {
            Some(a) => a,
            None => {
                return Err(Error::InvalidActionType);
            },
        };
        if self.counter == u64::MAX {
            if self.limiter.would_admit(agent, &"submit_action".to_owned(), &Self::quota(), false, now) {
                return Err(Error::ExecutionIdExists);
            }
            return Err(Error::RateLimitExceeded);
        }
        let execution_id = self.counter + 1;
        if self.executions.contains_key(&execution_id) {
            return Err(Error::ExecutionIdExists);
        }
        match self.limiter.check(agent, &"submit_action".to_owned(), &Self::quota(), false, now) {
            Ok(()) => {},
            Err(_) => {
                return Err(Error::RateLimitExceeded);
            },
        }
        let execution = Execution {
            id: execution_id,
            agent,
            action_type: action,
            data: copy_bytes(data.as_slice()),
            timestamp: now,
        };
        self.executions.insert(execution_id, execution);
        self.counter = execution_id;
        self.events.push(
            ActionSubmitted { execution_id, agent, action_type, timestamp: now },
        );
        Ok(execution_id)
    }

    fn quota() -> (r: RateLimitConfig)
        ensures
            r == action_quota(),
    {
        RateLimitConfig {
            max: RATE_LIMIT_MAX,
            window: RATE_LIMIT_WINDOW,
            strategy: RateLimitStrategy::SlidingWindow,
            scope: RateLimitScope::PerUser,
        }
    }

    pub fn get_execution(&self, execution_id: u64) -> (r: Option<&Execution>)
        ensures
            match r {
                Some(e) => self.spec_executions().contains_key(execution_id)
                    && self.spec_executions()[execution_id] == *e,
                None => !self.spec_executions().contains_key(execution_id),
            },
    {
        self.executions.get(&execution_id)
    }
}

/// An agent with fewer than the quota of actions inside the current window
/// has its next action admitted by the quota.
pub proof fn actions_within_quota_are_admitted(c: CommonUtilsContract, agent: Address, now: u64)
    requires
        match c.spec_limiter().window_of(agent, action_key(), RateLimitScope::PerUser) {
            Some(WindowModel::Sliding { stamps }) => recent(stamps, now, RATE_LIMIT_WINDOW).len()
                < RATE_LIMIT_MAX,
            _ => true,
        },
    ensures
        c.quota_step(agent, now) is Some,
{
}

/// Once a whole window has passed since an agent's last recorded action,
/// its next action is admitted, however many it took before.
pub proof fn actions_after_a_quiet_window_are_admitted(c: CommonUtilsContract, agent: Address, now: u64)
    requires
        c.spec_limiter().window_of(agent, action_key(), RateLimitScope::PerUser) matches Some(
            WindowModel::Sliding { stamps },
        ) ==> forall|i: int|
            0 <= i < stamps.len() ==> #[trigger] stamps[i] < window_start(now, RATE_LIMIT_WINDOW),
    ensures
        c.quota_step(agent, now) is Some,
{
    match c.spec_limiter().window_of(agent, action_key(), RateLimitScope::PerUser) {
        Some(WindowModel::Sliding { stamps }) => {
            lemma_recent_drops_all(stamps, now, RATE_LIMIT_WINDOW);
        },
        _ => {},
    }
}

} // verus!
