use contract_kit::address::Address;
use contract_kit::authorization::{
    AccessControlList, AclDelegatedAuth, IAuthorizable, Permission, PermissionCache, RoleBasedAuth,
};
use contract_kit::error::StateError;
use contract_kit::rate_limit::{
    RateLimitConfig, RateLimitError, RateLimitScope, RateLimitStrategy, RateLimiter, TrustTier,
};
use contract_kit::state_machine::{can_transition, require_active, require_initialized, transition_to, State};

fn addr(id: u64) -> Address {
    Address::from_id(id)
}

fn cfg(max: u32, window: u64, strategy: RateLimitStrategy, scope: RateLimitScope) -> RateLimitConfig {
    RateLimitConfig { max, window, strategy, scope }
}

#[test]
fn active_guard_only_passes_active() {
    assert_eq!(require_active::<u8>(&State::Uninitialized), Err(StateError::NotInitialized));
    assert_eq!(require_active(&State::Active(1u8)), Ok(()));
    assert_eq!(require_active(&State::Paused(1u8)), Err(StateError::InvalidState));
    assert_eq!(require_active(&State::Migrating(1u8)), Err(StateError::InvalidState));
    assert_eq!(require_active(&State::Terminated(1u8)), Err(StateError::InvalidState));
    assert_eq!(require_initialized(&State::Paused(1u8)), Ok(()));
    assert_eq!(require_initialized(&State::Migrating(1u8)), Ok(()));
    assert_eq!(require_initialized(&State::Terminated(1u8)), Err(StateError::InvalidState));
}

#[test]
fn lifecycle_transitions() {
    let mut s: State<u8> = State::Uninitialized;
    assert_eq!(transition_to(&mut s, State::Paused(0)), Err(StateError::InvalidState));
    assert_eq!(transition_to(&mut s, State::Active(0)), Ok(()));
    assert_eq!(transition_to(&mut s, State::Migrating(0)), Ok(()));
    assert_eq!(transition_to(&mut s, State::Paused(0)), Err(StateError::InvalidState));
    assert_eq!(transition_to(&mut s, State::Active(0)), Ok(()));
    assert_eq!(transition_to(&mut s, State::Terminated(0)), Ok(()));
    assert_eq!(transition_to(&mut s, State::Active(0)), Err(StateError::InvalidState));
    assert_eq!(s, State::Terminated(0));
    assert!(!can_transition(&State::Active(0u8), &State::Uninitialized));
}

#[test]
fn fixed_window_quota_and_reset() {
    let mut rl = RateLimiter::new();
    let c = cfg(3, 100, RateLimitStrategy::FixedWindow, RateLimitScope::PerUser);
    let a = "act".to_string();
    for t in [100u64, 150, 199] {
        assert_eq!(rl.check(addr(1), &a, &c, false, t), Ok(()));
    }
    assert_eq!(rl.check(addr(1), &a, &c, false, 199), Err(RateLimitError::RateLimitExceeded));
    assert_eq!(rl.check(addr(2), &a, &c, false, 199), Ok(()));
    assert_eq!(rl.check(addr(1), &a, &c, false, 200), Ok(()));
}

#[test]
fn sliding_window_quota_and_reset() {
    let mut rl = RateLimiter::new();
    let c = cfg(2, 100, RateLimitStrategy::SlidingWindow, RateLimitScope::Global);
    let a = "act".to_string();
    assert_eq!(rl.check(addr(1), &a, &c, false, 1000), Ok(()));
    assert_eq!(rl.check(addr(2), &a, &c, false, 1050), Ok(()));
    assert_eq!(rl.check(addr(3), &a, &c, false, 1100), Err(RateLimitError::RateLimitExceeded));
    assert_eq!(rl.check(addr(3), &a, &c, false, 1101), Ok(()));
    assert!(!rl.would_admit(addr(3), &a, &c, false, 1101));
    assert!(rl.would_admit(addr(3), &a, &c, false, 1151));
}

#[test]
fn token_bucket_refills_over_time() {
    let mut rl = RateLimiter::new();
    let c = cfg(4, 100, RateLimitStrategy::TokenBucket, RateLimitScope::PerUser);
    let a = "act".to_string();
    for _ in 0..4 {
        assert_eq!(rl.check(addr(1), &a, &c, false, 0), Ok(()));
    }
    assert_eq!(rl.check(addr(1), &a, &c, false, 10), Err(RateLimitError::RateLimitExceeded));
    assert_eq!(rl.check(addr(1), &a, &c, false, 25), Ok(()));
    assert_eq!(rl.check(addr(1), &a, &c, false, 25), Err(RateLimitError::RateLimitExceeded));
}

#[test]
fn adaptive_limits_follow_tier_and_load() {
    let mut rl = RateLimiter::new();
    let c = cfg(10, 100, RateLimitStrategy::FixedWindow, RateLimitScope::PerUser);
    assert_eq!(rl.effective_max(addr(1), &c, true), 10);
    rl.set_trust_tier(addr(1), TrustTier::Premium);
    assert_eq!(rl.effective_max(addr(1), &c, true), 40);
    rl.set_network_load(4);
    assert_eq!(rl.effective_max(addr(1), &c, true), 10);
    rl.set_trust_tier(addr(1), TrustTier::Untrusted);
    assert_eq!(rl.effective_max(addr(1), &c, true), 1);
    assert_eq!(rl.effective_max(addr(1), &c, false), 10);
    rl.set_network_load(0);
    assert_eq!(rl.effective_max(addr(1), &c, true), 5);
}

#[test]
fn role_based_and_acl_strategies() {
    let mut roles = RoleBasedAuth::new(addr(1));
    assert!(roles.check_permission(addr(1), &Permission::Minter));
    assert!(!roles.check_permission(addr(2), &Permission::Minter));
    roles.grant(addr(2), Permission::Custom("audit".to_string()));
    assert!(roles.check_permission(addr(2), &Permission::Custom("audit".to_string())));
    assert!(!roles.check_permission(addr(2), &Permission::Custom("other".to_string())));
    roles.revoke(addr(2), &Permission::Custom("audit".to_string()));
    assert!(!roles.check_permission(addr(2), &Permission::Custom("audit".to_string())));

    let mut acl = AccessControlList::new(addr(900), addr(1));
    assert!(!acl.grant(addr(2), addr(3), "fraud".to_string(), "report".to_string()));
    assert!(acl.grant(addr(1), addr(3), "fraud".to_string(), "report".to_string()));
    let delegated = AclDelegatedAuth { acl: &acl, resource: "fraud".to_string() };
    assert!(delegated.check_permission(addr(3), &Permission::Custom("report".to_string())));
    assert!(!delegated.check_permission(addr(3), &Permission::Custom("manage".to_string())));
    assert!(!delegated.check_permission(addr(3), &Permission::Reporter));
}

#[test]
fn permission_cache_expires() {
    let mut roles = RoleBasedAuth::new(addr(1));
    let mut cache = PermissionCache::new(60);
    assert!(!cache.check(&roles, addr(2), &Permission::Reporter, 0));
    roles.grant(addr(2), Permission::Reporter);
    assert!(!cache.check(&roles, addr(2), &Permission::Reporter, 59));
    assert!(cache.check(&roles, addr(2), &Permission::Reporter, 60));
    roles.revoke(addr(2), &Permission::Reporter);
    assert!(cache.check(&roles, addr(2), &Permission::Reporter, 119));
    assert!(!cache.check(&roles, addr(2), &Permission::Reporter, 120));
}
