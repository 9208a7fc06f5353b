//! The authorization engine: role-based, signature-based and ACL-delegated
//! strategies, and a time-limited cache of their decisions.

use vstd::prelude::*;
use crate::address::Address;
use crate::crypto::{ed25519_accepts, ed25519_verify};
use crate::error::CryptoError;
use crate::table::{KeyEq, Table};

verus! {

/// A permission a caller may hold.
#[derive(Clone, Debug)]
pub enum Permission {
    Admin,
    Reporter,
    Minter,
    Custom(String),
}

/// The mathematical content of a `Permission`.
pub enum PermissionView {
    Admin,
    Reporter,
    Minter,
    Custom(Seq<char>),
}

impl View for Permission {
    type V = PermissionView;

    open spec fn view(&self) -> PermissionView {
        match self {
            Permission::Admin => PermissionView::Admin,
            Permission::Reporter => PermissionView::Reporter,
            Permission::Minter => PermissionView::Minter,
            Permission::Custom(s) => PermissionView::Custom(s@),
        }
    }
}

impl KeyEq for Permission {
    fn key_eq(&self, other: &Self) -> (r: bool) {
        match (self, other) {
            (Permission::Admin, Permission::Admin) => true,
            (Permission::Reporter, Permission::Reporter) => true,
            (Permission::Minter, Permission::Minter) => true,
            (Permission::Custom(a), Permission::Custom(b)) => *a == *b,
            _ => false,
        }
    }
}

impl Permission {
    /// A copy with the same view.
    pub fn duplicate(&self) -> (r: Permission)
        ensures
            r@ == self@,
    {
        match self {
            Permission::Admin => Permission::Admin,
            Permission::Reporter => Permission::Reporter,
            Permission::Minter => Permission::Minter,
            Permission::Custom(s) => Permission::Custom(s.clone()),
        }
    }
}

/// A strategy that decides whether a caller holds a permission.
pub trait IAuthorizable {
    spec fn allows(&self, caller: Address, permission: PermissionView) -> bool;

    fn check_permission(&self, caller: Address, permission: &Permission) -> (r: bool)
        ensures
            r == self.allows(caller, permission@),
    ;
}

/// Permissions granted to addresses by an administrator, who holds them all.
pub struct RoleBasedAuth {
    admin: Address,
    grants: Table<(Address, Permission), bool>,
}

impl RoleBasedAuth {
    pub closed spec fn spec_admin(&self) -> Address {
        self.admin
    }

    /// The (address, permission) pairs granted.
    pub closed spec fn spec_grants(&self) -> Set<(u64, PermissionView)> {
        self.grants@.dom()
    }

    pub fn new(admin: Address) -> (r: Self)
        ensures
            r.spec_admin() == admin,
            r.spec_grants() == Set::<(u64, PermissionView)>::empty(),
    {
        let r = RoleBasedAuth { admin, grants: Table::new() };
        proof {
            assert(r.spec_grants() =~= Set::<(u64, PermissionView)>::empty());
        }
        r
    }

    pub fn admin(&self) -> (r: Address)
        ensures
            r == self.spec_admin(),
    {
        self.admin
    }

    pub fn grant(&mut self, who: Address, permission: Permission)
        ensures
            final(self).spec_grants() == old(self).spec_grants().insert((who@, permission@)),
            final(self).spec_admin() == old(self).spec_admin(),
    {
        let ghost p = permission@;
        self.grants.insert((who, permission), true);
        proof {
            assert(self.spec_grants() =~= old(self).spec_grants().insert((who@, p)));
        }
    }

    pub fn revoke(&mut self, who: Address, permission: &Permission)
        ensures
            final(self).spec_grants() == old(self).spec_grants().remove((who@, permission@)),
            final(self).spec_admin() == old(self).spec_admin(),
    {
        let _ = self.grants.remove(&(who, permission.duplicate()));
        proof {
            assert(self.spec_grants() =~= old(self).spec_grants().remove((who@, permission@)));
        }
    }
}

impl IAuthorizable for RoleBasedAuth {
    open spec fn allows(&self, caller: Address, permission: PermissionView) -> bool {
        caller == self.spec_admin() || self.spec_grants().contains((caller@, permission))
    }

    fn check_permission(&self, caller: Address, permission: &Permission) -> (r: bool) {
        if caller.id == self.admin.id {
            return true;
        }
        self.grants.contains_key(&(caller, permission.duplicate()))
    }
}

/// An access-control-list contract: which address may perform which action
/// on which resource.
pub struct AccessControlList {
    address: Address,
    admin: Address,
    entries: Table<(Address, (String, String)), bool>,
}

impl AccessControlList {
    /// The list's own ledger address.
    pub closed spec fn spec_address(&self) -> Address {
        self.address
    }

    pub fn address(&self) -> (r: Address)
        ensures
            r == self.spec_address(),
    {
        self.address
    }

    pub closed spec fn spec_admin(&self) -> Address {
        self.admin
    }

    /// The (address, (resource, action)) triples allowed.
    pub closed spec fn spec_entries(&self) -> Set<(u64, (Seq<char>, Seq<char>))> {
        self.entries@.dom()
    }

    pub fn new(address: Address, admin: Address) -> (r: Self)
        ensures
            r.spec_address() == address,
            r.spec_admin() == admin,
            r.spec_entries() == Set::<(u64, (Seq<char>, Seq<char>))>::empty(),
    {
        let r = AccessControlList { address, admin, entries: Table::new() };
        proof {
            assert(r.spec_entries() =~= Set::<(u64, (Seq<char>, Seq<char>))>::empty());
        }
        r
    }

    /// Allows `who` to perform `action` on `resource`. Admin only.
    pub fn grant(&mut self, caller: Address, who: Address, resource: String, action: String) -> (r:
        bool)
        ensures
            r == (caller == old(self).spec_admin()),
            r ==> final(self).spec_entries() == old(self).spec_entries().insert(
                (who@, (resource@, action@)),
            ),
            !r ==> final(self).spec_entries() == old(self).spec_entries(),
            final(self).spec_admin() == old(self).spec_admin(),
            final(self).spec_address() == old(self).spec_address(),
    {
        if caller.id != self.admin.id {
            return false;
        }
        let ghost key = (who@, (resource@, action@));
        self.entries.insert((who, (resource, action)), true);
        proof {
            assert(self.spec_entries() =~= old(self).spec_entries().insert(key));
        }
        true
    }

    /// Withdraws what `grant` allowed. Admin only.
    pub fn revoke(&mut self, caller: Address, who: Address, resource: &String, action: &String) -> (r:
        bool)
        ensures
            r == (caller == old(self).spec_admin()),
            r ==> final(self).spec_entries() == old(self).spec_entries().remove(
                (who@, (resource@, action@)),
            ),
            !r ==> final(self).spec_entries() == old(self).spec_entries(),
            final(self).spec_admin() == old(self).spec_admin(),
            final(self).spec_address() == old(self).spec_address(),
    {
        if caller.id != self.admin.id {
            return false;
        }
        let _ = self.entries.remove(&(who, (resource.clone(), action.clone())));
        proof {
            assert(self.spec_entries() =~= old(self).spec_entries().remove(
                (who@, (resource@, action@)),
            ));
        }
        true
    }

    pub fn check_permission(&self, caller: Address, resource: &String, action: &String) -> (r: bool)
        ensures
            r == self.spec_entries().contains((caller@, (resource@, action@))),
    {
        self.entries.contains_key(&(caller, (resource.clone(), action.clone())))
    }
}

/// Decisions delegated to an access-control-list contract, under one resource.
pub struct AclDelegatedAuth<'a> {
    pub acl: &'a AccessControlList,
    pub resource: String,
}

impl<'a> IAuthorizable for AclDelegatedAuth<'a> {
    open spec fn allows(&self, caller: Address, permission: PermissionView) -> bool {
        match permission {
            PermissionView::Custom(action) => self.acl.spec_entries().contains(
                (caller@, (self.resource@, action)),
            ),
            _ => false,
        }
    }

    fn check_permission(&self, caller: Address, permission: &Permission) -> (r: bool) {
        match permission {
            Permission::Custom(action) => self.acl.check_permission(caller, &self.resource, action),
            _ => false,
        }
    }
}

/// Signatures checked against one trusted public key.
pub struct SignatureBasedAuth {
    pub public_key: Option<[u8; 32]>,
}

impl SignatureBasedAuth {
    /// Whether `signature` over `payload` verifies against the trusted key;
    /// fails when no key is configured.
    pub fn verify_signature(&self, payload: &Vec<u8>, signature: &[u8; 64]) -> (r: Result<
        bool,
        CryptoError,
    >)
        ensures
            match self.public_key {
                None => r == Err::<bool, CryptoError>(CryptoError::NotInitialized),
                Some(k) => r == Ok::<bool, CryptoError>(
                    ed25519_accepts(k@, payload@, signature@),
                ),
            },
    {
        match &self.public_key {
            None => Err(CryptoError::NotInitialized),
            Some(k) => Ok(ed25519_verify(k, payload.as_slice(), signature)),
        }
    }
}

/// A cached decision and the time from which it no longer counts.
#[derive(Clone, Copy, Debug)]
pub struct CachedDecision {
    pub allowed: bool,
    pub expires_at: u64,
}

/// Memoizes a strategy's decisions for `ttl` seconds. Entries leave only by
/// expiry: a revocation is seen once the cached decision has expired.
pub struct PermissionCache {
    ttl: u64,
    cache: Table<(Address, Permission), CachedDecision>,
}

/// The time a decision taken at `now` expires, saturating.
pub open spec fn expiry(now: u64, ttl: u64) -> u64 {
    if now + ttl > u64::MAX {
        u64::MAX
    } else {
        (now + ttl) as u64
    }
}

impl PermissionCache {
    pub closed spec fn spec_ttl(&self) -> u64 {
        self.ttl
    }

    pub closed spec fn spec_cache(&self) -> Map<(u64, PermissionView), CachedDecision> {
        self.cache@
    }

    /// The cached decision for `caller` and `permission` still in force at `now`.
    pub open spec fn live_entry(&self, caller: Address, permission: PermissionView, now: u64) -> Option<
        CachedDecision,
    > {
        let key = (caller@, permission);
        if self.spec_cache().contains_key(key) && now < self.spec_cache()[key].expires_at {
            Some(self.spec_cache()[key])
        } else {
            None
        }
    }

    pub fn new(ttl: u64) -> (r: Self)
        ensures
            r.spec_ttl() == ttl,
            r.spec_cache() == Map::<(u64, PermissionView), CachedDecision>::empty(),
    {
        PermissionCache { ttl, cache: Table::new() }
    }

    /// The decision for `caller` and `permission` at `now`: the cached one
    /// while it lasts, otherwise `strategy`'s, which is then cached.
    pub fn check<A: IAuthorizable>(
        &mut self,
        strategy: &A,
        caller: Address,
        permission: &Permission,
        now: u64,
    ) -> (r: bool)
        ensures
            final(self).spec_ttl() == old(self).spec_ttl(),
            match old(self).live_entry(caller, permission@, now) {
                Some(d) => r == d.allowed && final(self).spec_cache() == old(self).spec_cache(),
                None => r == strategy.allows(caller, permission@) && final(self).spec_cache()
                    == old(self).spec_cache().insert(
                    (caller@, permission@),
                    CachedDecision { allowed: r, expires_at: expiry(now, old(self).spec_ttl()) },
                ),
            },
    {
        let key = (caller, permission.duplicate());
        match self.cache.get(&key) {
            Some(d) => {
                if now < d.expires_at {
                    return d.allowed;
                }
            },
            None => {},
        }
        let allowed = strategy.check_permission(caller, permission);
        let expires_at = if now > u64::MAX - self.ttl {
            u64::MAX
        } else {
            now + self.ttl
        };
        self.cache.insert(key, CachedDecision { allowed, expires_at });
        allowed
    }
}

} // verus!
