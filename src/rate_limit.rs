//! Quotas per subject and action: fixed windows, sliding windows and token
//! buckets, optionally scaled by the subject's trust tier and the network load.

use vstd::prelude::*;
use crate::address::Address;
use crate::table::Table;

verus! {

#[derive(Clone, Copy, Debug, PartialEq, Eq, Structural)]
pub enum RateLimitStrategy {
    FixedWindow,
    SlidingWindow,
    TokenBucket,
}

#[derive(Clone, Copy, Debug, PartialEq, Eq, Structural)]
pub enum RateLimitScope {
    PerUser,
    Global,
}

/// How far a subject is trusted; higher tiers get larger quotas.
#[derive(Clone, Copy, Debug, PartialEq, Eq, Structural)]
pub enum TrustTier {
    Untrusted,
    Basic,
    Trusted,
    Premium,
}

#[derive(Clone, Copy, Debug, PartialEq, Eq, Structural)]
pub enum RateLimitError {
    RateLimitExceeded,
}

/// A quota: at most `max` actions per `window` seconds.
#[derive(Clone, Copy, Debug, PartialEq, Eq, Structural)]
pub struct RateLimitConfig {
    pub max: u32,
    pub window: u64,
    pub strategy: RateLimitStrategy,
    pub scope: RateLimitScope,
}

/// What the limiter remembers for one (subject, action).
pub enum WindowState {
    Fixed { index: u64, count: u64 },
    Sliding { stamps: Vec<u64> },
    Bucket { tokens: u64, last: u64 },
}

/// The mathematical content of a `WindowState`.
pub enum WindowModel {
    Fixed { index: u64, count: nat },
    Sliding { stamps: Seq<u64> },
    Bucket { tokens: nat, last: u64 },
}

impl WindowState {
    pub open spec fn model(&self) -> WindowModel {
        match *self {
            WindowState::Fixed { index, count } => WindowModel::Fixed { index, count: count as nat },
            WindowState::Sliding { stamps } => WindowModel::Sliding { stamps: stamps@ },
            WindowState::Bucket { tokens, last } => WindowModel::Bucket {
                tokens: tokens as nat,
                last,
            },
        }
    }
}

/// A tier's quota multiplier, in percent.
pub open spec fn tier_percent(tier: TrustTier) -> nat {
    match tier {
        TrustTier::Untrusted => 50,
        TrustTier::Basic => 100,
        TrustTier::Trusted => 200,
        TrustTier::Premium => 400,
    }
}

/// The quota in force: `max`, or for adaptive limits `max` scaled by the
/// tier and divided by the network load (a load of 0 counts as 1).
pub open spec fn effective_limit(max: u32, tier: TrustTier, load: u32, adaptive: bool) -> nat {
    if adaptive {
        (((max as int) * (tier_percent(tier) as int) / 100) / (if load == 0 {
            1int
        } else {
            load as int
        })) as nat
    } else {
        max as nat
    }
}

/// The earliest time still inside a window of `window` seconds ending at `now`.
pub open spec fn window_start(now: u64, window: u64) -> u64 {
    if now >= window {
        (now - window) as u64
    } else {
        0
    }
}

pub open spec fn in_window(now: u64, window: u64) -> spec_fn(u64) -> bool {
    |t: u64| t >= window_start(now, window)
}

/// The timestamps still inside the window ending at `now`.
pub open spec fn recent(stamps: Seq<u64>, now: u64, window: u64) -> Seq<u64> {
    stamps.filter(in_window(now, window))
}

/// Tokens available at `now` after refilling from `last` at `limit` tokens
/// per window, capped at `limit`.
pub open spec fn refill(tokens: nat, last: u64, now: u64, limit: nat, window: u64) -> nat {
    let grown: int = if now >= last {
        tokens + ((now - last) as int) * (limit as int) / (window as int)
    } else {
        tokens as int
    };
    if grown > limit {
        limit
    } else {
        grown as nat
    }
}

/// The limiter's decision: the new window state when an action at `now` is
/// admitted, `None` when it exceeds the quota.
pub open spec fn step(
    prev: Option<WindowModel>,
    strategy: RateLimitStrategy,
    limit: nat,
    window: u64,
    now: u64,
) -> Option<WindowModel> {
    match strategy {
        RateLimitStrategy::FixedWindow => {
            let index = (now / window) as u64;
            let count = match prev {
                Some(WindowModel::Fixed { index: i, count }) => if i == index {
                    count
                } else {
                    0
                },
                _ => 0,
            };
            if count < limit {
                Some(WindowModel::Fixed { index, count: count + 1 })
            } else {
                None
            }
        },
        RateLimitStrategy::SlidingWindow => {
            let stamps = match prev {
                Some(WindowModel::Sliding { stamps }) => recent(stamps, now, window),
                _ => Seq::empty(),
            };
            if stamps.len() < limit {
                Some(WindowModel::Sliding { stamps: stamps.push(now) })
            } else {
                None
            }
        },
        RateLimitStrategy::TokenBucket => {
            let available = match prev {
                Some(WindowModel::Bucket { tokens, last }) => refill(
                    tokens,
                    last,
                    now,
                    limit,
                    window,
                ),
                _ => limit,
            };
            if available >= 1 {
                Some(WindowModel::Bucket { tokens: (available - 1) as nat, last: now })
            } else {
                None
            }
        },
    }
}

pub struct RateLimiter {
    per_user: Table<(Address, String), WindowState>,
    global: Table<String, WindowState>,
    tiers: Table<Address, TrustTier>,
    network_load: u32,
}

impl RateLimiter {
    pub closed spec fn spec_per_user(&self) -> Map<(u64, Seq<char>), WindowModel> {
        self.per_user@.map_values(|w: WindowState| w.model())
    }

    pub closed spec fn spec_global(&self) -> Map<Seq<char>, WindowModel> {
        self.global@.map_values(|w: WindowState| w.model())
    }

    pub closed spec fn spec_tiers(&self) -> Map<u64, TrustTier> {
        self.tiers@
    }

    pub closed spec fn spec_network_load(&self) -> u32 {
        self.network_load
    }

    /// A subject's tier; subjects never classified are Basic.
    pub open spec fn tier_of(&self, subject: Address) -> TrustTier {
        if self.spec_tiers().contains_key(subject@) {
            self.spec_tiers()[subject@]
        } else {
            TrustTier::Basic
        }
    }

    /// The window kept for `subject` and `action` under `scope`.
    pub open spec fn window_of(&self, subject: Address, action: Seq<char>, scope: RateLimitScope) -> Option<
        WindowModel,
    > {
        match scope {
            RateLimitScope::PerUser => if self.spec_per_user().contains_key((subject@, action)) {
                Some(self.spec_per_user()[(subject@, action)])
            } else {
                None
            },
            RateLimitScope::Global => if self.spec_global().contains_key(action) {
                Some(self.spec_global()[action])
            } else {
                None
            },
        }
    }

    /// `after` is this limiter with the window of `subject` and `action`
    /// under `scope` set to `m`, and every other window as it was.
    pub open spec fn recorded(
        &self,
        after: RateLimiter,
        subject: Address,
        action: Seq<char>,
        scope: RateLimitScope,
        m: WindowModel,
    ) -> bool {
        match scope {
            RateLimitScope::PerUser => after.spec_per_user() == self.spec_per_user().insert(
                (subject@, action),
                m,
            ) && after.spec_global() == self.spec_global(),
            RateLimitScope::Global => after.spec_global() == self.spec_global().insert(action, m)
                && after.spec_per_user() == self.spec_per_user(),
        }
    }

    /// The quota for `subject` under `cfg`.
    pub open spec fn limit_for(&self, subject: Address, cfg: RateLimitConfig, adaptive: bool) -> nat {
        effective_limit(cfg.max, self.tier_of(subject), self.spec_network_load(), adaptive)
    }

    pub fn new() -> (r: Self)
        ensures
            r.spec_per_user() == Map::<(u64, Seq<char>), WindowModel>::empty(),
            r.spec_global() == Map::<Seq<char>, WindowModel>::empty(),
            r.spec_tiers() == Map::<u64, TrustTier>::empty(),
            r.spec_network_load() == 1,
    {
        let r = RateLimiter {
            per_user: Table::new(),
            global: Table::new(),
            tiers: Table::new(),
            network_load: 1,
        };
        proof {
            assert(r.spec_per_user() =~= Map::<(u64, Seq<char>), WindowModel>::empty());
            assert(r.spec_global() =~= Map::<Seq<char>, WindowModel>::empty());
        }
        r
    }

    pub fn set_trust_tier(&mut self, user: Address, tier: TrustTier)
        ensures
            final(self).spec_tiers() == old(self).spec_tiers().insert(user@, tier),
            final(self).spec_per_user() == old(self).spec_per_user(),
            final(self).spec_global() == old(self).spec_global(),
            final(self).spec_network_load() == old(self).spec_network_load(),
    {
        self.tiers.insert(user, tier);
    }

    pub fn get_trust_tier(&self, user: Address) -> (r: TrustTier)
        ensures
            r == self.tier_of(user),
    {
        match self.tiers.get(&user) {
            Some(t) => *t,
            None => TrustTier::Basic,
        }
    }

    pub fn set_network_load(&mut self, load: u32)
        ensures
            final(self).spec_network_load() == load,
            final(self).spec_tiers() == old(self).spec_tiers(),
            final(self).spec_per_user() == old(self).spec_per_user(),
            final(self).spec_global() == old(self).spec_global(),
    {
        self.network_load = load;
    }

    pub fn get_network_load(&self) -> (r: u32)
        ensures
            r == self.spec_network_load(),
    {
        self.network_load
    }

    /// The quota for `subject` under `cfg`.
    pub fn effective_max(&self, subject: Address, cfg: &RateLimitConfig, adaptive: bool) -> (r: u64)
        ensures
            r == self.limit_for(subject, *cfg, adaptive),
    {
        if !adaptive {
            return cfg.max as u64;
        }
        let percent: u64 = match self.get_trust_tier(subject) {
            TrustTier::Untrusted => 50,
            TrustTier::Basic => 100,
            TrustTier::Trusted => 200,
            TrustTier::Premium => 400,
        };
        let load: u64 = if self.network_load == 0 {
            1
        } else {
            self.network_load as u64
        };
        assert(cfg.max * percent <= 0xffff_ffff * 400) by (nonlinear_arith)
            requires
                cfg.max <= 0xffff_ffff,
                percent <= 400,
        ;
        (cfg.max as u64 * percent / 100) / load
    }

    /// Whether one more `action` by `subject` at `now` is within the quota.
    pub fn would_admit(
        &self,
        subject: Address,
        action: &String,
        cfg: &RateLimitConfig,
        adaptive: bool,
        now: u64,
    ) -> (r: bool)
        requires
            cfg.window > 0,
        ensures
            r == step(
                self.window_of(subject, action@, cfg.scope),
                cfg.strategy,
                self.limit_for(subject, *cfg, adaptive),
                cfg.window,
                now,
            ) is Some,
    {
        let limit = self.effective_max(subject, cfg, adaptive);
        let ghost prev = self.window_of(subject, action@, cfg.scope);
        let user_key = (subject, action.clone());
        let prev_state = match cfg.scope {
            RateLimitScope::PerUser => self.per_user.get(&user_key),
            RateLimitScope::Global => self.global.get(action),
        };
        proof {
            match prev_state {
                Some(w) => assert(prev == Some(w.model())),
                None => assert(prev is None),
            }
        }
        next_window(prev_state, cfg.strategy, limit, cfg.window, now).is_some()
    }

    /// Admits one `action` by `subject` at `now` if the quota allows it and
    /// records it; otherwise fails with nothing changed.
    pub fn check(
        &mut self,
        subject: Address,
        action: &String,
        cfg: &RateLimitConfig,
        adaptive: bool,
        now: u64,
    ) -> (r: Result<(), RateLimitError>)
        requires
            cfg.window > 0,
        ensures
            ({
                let next = step(
                    old(self).window_of(subject, action@, cfg.scope),
                    cfg.strategy,
                    old(self).limit_for(subject, *cfg, adaptive),
                    cfg.window,
                    now,
                );
                match next {
                    None => r == Err::<(), RateLimitError>(RateLimitError::RateLimitExceeded)
                        && final(self).spec_per_user() == old(self).spec_per_user()
                        && final(self).spec_global() == old(self).spec_global(),
                    Some(m) => r is Ok && old(self).recorded(*final(self), subject, action@, cfg.scope, m),
                }
            }),
            r is Err ==> *final(self) == *old(self),
            final(self).spec_tiers() == old(self).spec_tiers(),
            final(self).spec_network_load() == old(self).spec_network_load(),
    {
        let limit = self.effective_max(subject, cfg, adaptive);
        let ghost prev = self.window_of(subject, action@, cfg.scope);
        let user_key = (subject, action.clone());
        let prev_state = match cfg.scope {
            RateLimitScope::PerUser => self.per_user.get(&user_key),
            RateLimitScope::Global => self.global.get(action),
        };
        proof {
            match prev_state {
                Some(w) => assert(prev == Some(w.model())),
                None => assert(prev is None),
            }
        }
        let next = match next_window(prev_state, cfg.strategy, limit, cfg.window, now) {
            Some(n) => n,
            None => {
                return Err(RateLimitError::RateLimitExceeded);
            },
        };
        let ghost m = next.model();
        match cfg.scope {
            RateLimitScope::PerUser => {
                self.per_user.insert(user_key, next);
                proof {
                    assert(self.spec_per_user() =~= old(self).spec_per_user().insert(
                        (subject@, action@),
                        m,
                    ));
                }
            },
            RateLimitScope::Global => {
                self.global.insert(action.clone(), next);
                proof {
                    assert(self.spec_global() =~= old(self).spec_global().insert(action@, m));
                }
            },
        }
        Ok(())
    }
}

/// The timestamps of `stamps` inside the window ending at `now`.
fn prune(stamps: &Vec<u64>, now: u64, window: u64) -> (r: Vec<u64>)
    ensures
        r@ == recent(stamps@, now, window),
{
    let start: u64 = if now >= window {
        now - window
    } else {
        0
    };
    let ghost keep = in_window(now, window);
    let mut r: Vec<u64> = Vec::new();
    let mut i: usize = 0;
    while i < stamps.len()
        invariant
            i <= stamps@.len(),
            keep == in_window(now, window),
            start == window_start(now, window),
            r@ == stamps@.subrange(0, i as int).filter(keep),
        decreases stamps@.len() - i,
    {
        let t = stamps[i];
        let ghost prefix = stamps@.subrange(0, i + 1);
        proof {
            assert(prefix.drop_last() =~= stamps@.subrange(0, i as int));
            reveal(Seq::filter);
        }
        if t >= start {
            r.push(t);
        }
        proof {
            assert(keep(t) == (t >= start));
            assert(r@ == prefix.filter(keep));
        }
        i = i + 1;
    }
    proof {
        assert(stamps@.subrange(0, stamps@.len() as int) =~= stamps@);
    }
    r
}

/// The window state after admitting an action at `now`, or `None`.
fn next_window(prev: Option<&WindowState>, strategy: RateLimitStrategy, limit: u64, window: u64, now: u64) -> (r:
    Option<WindowState>)
    requires
        window > 0,
    ensures
        match r {
            Some(n) => step(
                match prev {
                    Some(w) => Some(w.model()),
                    None => None,
                },
                strategy,
                limit as nat,
                window,
                now,
            ) == Some(n.model()),
            None => step(
                match prev {
                    Some(w) => Some(w.model()),
                    None => None,
                },
                strategy,
                limit as nat,
                window,
                now,
            ) is None,
        },
{
    match strategy {
        RateLimitStrategy::FixedWindow => {
            let index = now / window;
            let count: u64 = match prev {
                Some(WindowState::Fixed { index: i, count }) => if *i == index {
                    *count
                } else {
                    0
                },
                _ => 0,
            };
            if count < limit {
                Some(WindowState::Fixed { index, count: count + 1 })
            } else {
                None
            }
        },
        RateLimitStrategy::SlidingWindow => {
            let mut stamps = match prev {
                Some(WindowState::Sliding { stamps }) => prune(stamps, now, window),
                _ => Vec::new(),
            };
            if (stamps.len() as u64) < limit {
                stamps.push(now);
                Some(WindowState::Sliding { stamps })
            } else {
                None
            }
        },
        RateLimitStrategy::TokenBucket => {
            let available: u64 = match prev {
                Some(WindowState::Bucket { tokens, last }) => {
                    let grown: u128 = if now >= *last {
                        let elapsed = (now - *last) as u128;
                        assert((elapsed as int) * (limit as int) <= 0xffff_ffff_ffff_ffffint
                            * 0xffff_ffff_ffff_ffffint) by (nonlinear_arith)
                            requires
                                elapsed <= 0xffff_ffff_ffff_ffffint,
                                limit <= 0xffff_ffff_ffff_ffffint,
                                elapsed >= 0,
                                limit >= 0,
                        ;
                        assert((elapsed as int) * (limit as int) / (window as int) <= (
                        elapsed as int) * (limit as int)) by (nonlinear_arith)
                            requires
                                window >= 1,
                                elapsed >= 0,
                                limit >= 0,
                        ;
                        *tokens as u128 + elapsed * (limit as u128) / (window as u128)
                    } else {
                        *tokens as u128
                    };
                    if grown > limit as u128 {
                        limit
                    } else {
                        grown as u64
                    }
                },
                _ => limit,
            };
            if available >= 1 {
                Some(WindowState::Bucket { tokens: available - 1, last: now })
            } else {
                None
            }
        },
    }
}

/// The window after a run of actions at `times` from a fresh start, or
/// `None` as soon as one of them is refused.
pub open spec fn run(strategy: RateLimitStrategy, limit: nat, window: u64, times: Seq<u64>) -> Option<
    WindowModel,
>
    decreases times.len(),
{
    if times.len() == 0 {
        None
    } else if times.len() == 1 {
        step(None, strategy, limit, window, times[0])
    } else {
        match run(strategy, limit, window, times.drop_last()) {
            None => None,
            Some(m) => step(Some(m), strategy, limit, window, times.last()),
        }
    }
}

proof fn lemma_recent_keeps_all(stamps: Seq<u64>, now: u64, window: u64)
    requires
        forall|i: int| 0 <= i < stamps.len() ==> stamps[i] >= window_start(now, window),
    ensures
        recent(stamps, now, window) == stamps,
    decreases stamps.len(),
{
    reveal(Seq::filter);
    if stamps.len() > 0 {
        lemma_recent_keeps_all(stamps.drop_last(), now, window);
        assert(stamps.drop_last().push(stamps.last()) =~= stamps);
    }
}

/// No timestamp before the window's start survives pruning.
pub proof fn lemma_recent_drops_all(stamps: Seq<u64>, now: u64, window: u64)
    requires
        forall|i: int| 0 <= i < stamps.len() ==> stamps[i] < window_start(now, window),
    ensures
        recent(stamps, now, window).len() == 0,
    decreases stamps.len(),
{
    reveal(Seq::filter);
    if stamps.len() > 0 {
        lemma_recent_drops_all(stamps.drop_last(), now, window);
    }
}

/// Fixed window: actions that fall in one window are admitted while fewer
/// than the quota have been, so exactly `limit` of them pass and the next is
/// refused; in a later window the count starts afresh.
pub proof fn fixed_window_quota(limit: nat, window: u64, times: Seq<u64>, later: u64)
    requires
        window > 0,
        times.len() > 0,
        forall|i: int| 0 <= i < times.len() ==> #[trigger] times[i] / window == times[0] / window,
        later / window != times[0] / window,
    ensures
        times.len() <= limit ==> run(RateLimitStrategy::FixedWindow, limit, window, times) == Some(
            WindowModel::Fixed { index: (times[0] / window) as u64, count: times.len() },
        ),
        times.len() > limit ==> run(RateLimitStrategy::FixedWindow, limit, window, times) is None,
        limit >= 1 ==> step(
            Some(WindowModel::Fixed { index: (times[0] / window) as u64, count: times.len() }),
            RateLimitStrategy::FixedWindow,
            limit,
            window,
            later,
        ) == Some(WindowModel::Fixed { index: (later / window) as u64, count: 1 }),
    decreases times.len(),
{
    if times.len() > 1 {
        let t = times.drop_last();
        fixed_window_quota(limit, window, t, later);
        assert(t[0] == times[0]);
    }
}

/// Sliding window: actions whose times stay within one window of each other
/// are admitted while fewer than the quota are recorded, so exactly `limit`
/// pass and the next is refused; once the window has passed over every
/// recorded action, a new action is admitted again.
pub proof fn sliding_window_quota(limit: nat, window: u64, times: Seq<u64>, later: u64)
    requires
        window > 0,
        times.len() > 0,
        forall|i: int, j: int| 0 <= i <= j < times.len() ==> times[i] <= times[j],
        forall|i: int| 0 <= i < times.len() ==> times[i] >= window_start(times.last(), window),
        forall|i: int| 0 <= i < times.len() ==> times[i] < window_start(later, window),
    ensures
        times.len() <= limit ==> run(RateLimitStrategy::SlidingWindow, limit, window, times) == Some(
            WindowModel::Sliding { stamps: times },
        ),
        times.len() > limit ==> run(RateLimitStrategy::SlidingWindow, limit, window, times) is None,
        limit >= 1 ==> step(
            Some(WindowModel::Sliding { stamps: times }),
            RateLimitStrategy::SlidingWindow,
            limit,
            window,
            later,
        ) == Some(WindowModel::Sliding { stamps: seq![later] }),
    decreases times.len(),
{
    lemma_recent_drops_all(times, later, window);
    if limit >= 1 {
        assert(recent(times, later, window) =~= Seq::<u64>::empty());
        assert(Seq::<u64>::empty().push(later) =~= seq![later]);
    }
    if times.len() == 1 {
        assert(Seq::<u64>::empty().push(times[0]) =~= times);
    } else {
        let t = times.drop_last();
        assert forall|i: int| 0 <= i < t.len() implies t[i] >= window_start(t.last(), window) by {
            assert(t[i] == times[i]);
            assert(times[i] >= window_start(times.last(), window));
            assert(times[t.len() - 1] <= times.last());
        }
        sliding_window_quota(limit, window, t, later);
        if t.len() <= limit {
            lemma_recent_keeps_all(t, times.last(), window);
            assert(t.push(times.last()) =~= times);
        }
    }
}

} // verus!
