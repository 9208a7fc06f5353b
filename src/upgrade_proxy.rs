//! The upgradeable proxy: a stable address that forwards every call to the
//! implementation the registry currently designates.

use vstd::prelude::*;
use crate::address::Address;
use crate::host::{call_step, ContractHost, Val};
use crate::upgrade_registry::{ImplementationInfo, RegistryEvent, UpgradeRegistry};

verus! {

#[derive(Clone, Copy, Debug, PartialEq, Eq, Structural)]
pub enum ProxyError {
    RegistryNotSet,
    ImplementationNotFound,
    CallFailed,
    UnauthorizedUpgrade,
    NotInitialized,
    AlreadyInitialized,
}

#[derive(Clone, Debug)]
pub struct ProxyConfig {
    pub registry: Address,
    pub contract_name: String,
    pub admin: Address,
}

/// What the proxy publishes.
#[derive(Clone, Debug)]
pub enum ProxyEvent {
    Upgraded { contract_name: String, implementation: Address, version: u32 },
}

pub struct UpgradeableProxy {
    config: Option<ProxyConfig>,
    events: Vec<ProxyEvent>,
}

/// The version an upgrade registers: one past the current one, or 1.
pub open spec fn next_version(current: Option<ImplementationInfo>) -> int {
    match current {
        Some(info) => info.version + 1,
        None => 1,
    }
}

/// The registry entry for `name`, if any.
pub open spec fn entry(r: UpgradeRegistry, name: Seq<char>) -> Option<ImplementationInfo> {
    if r.spec_implementations().contains_key(name) {
        Some(r.spec_implementations()[name])
    } else {
        None
    }
}

/// The implementation that serves the proxy's contract name, if configured and
/// registered.
pub open spec fn resolved(c: ProxyConfig, r: UpgradeRegistry) -> Option<Address> {
    match entry(r, c.contract_name@) {
        Some(info) => Some(info.implementation),
        None => None,
    }
}

impl UpgradeableProxy {
    pub closed spec fn spec_config(&self) -> Option<ProxyConfig> {
        self.config
    }

    pub closed spec fn spec_events(&self) -> Seq<ProxyEvent> {
        self.events@
    }

    pub fn new() -> (r: Self)
        ensures
            r.spec_config() is None,
            r.spec_events() == Seq::<ProxyEvent>::empty(),
    {
        UpgradeableProxy { config: None, events: Vec::new() }
    }

    /// Writes the configuration, once.
    pub fn initialize(&mut self, registry: Address, contract_name: String, admin: Address) -> (r:
        Result<(), ProxyError>)
        ensures
            r is Ok <==> old(self).spec_config() is None,
            r is Ok ==> final(self).spec_config() == Some(
                ProxyConfig { registry, contract_name, admin },
            ),
            r is Err ==> r == Err::<(), ProxyError>(ProxyError::AlreadyInitialized)
                && final(self).spec_config() == old(self).spec_config(),
            final(self).spec_events() == old(self).spec_events(),
    {
        if self.config.is_some() {
            return Err(ProxyError::AlreadyInitialized);
        }
        self.config = Some(ProxyConfig { registry, contract_name, admin });
        Ok(())
    }

    /// Registers `new_implementation` under the proxy's name at the next
    /// version and returns that version. Only the proxy's admin may upgrade.
    pub fn upgrade(
        &mut self,
        registry: &mut UpgradeRegistry,
        admin: Address,
        new_implementation: Address,
        now: u64,
    ) -> (r: Result<u32, ProxyError>)
        ensures
            match old(self).spec_config() {
                None => r == Err::<u32, ProxyError>(ProxyError::NotInitialized),
                Some(c) => if c.admin != admin {
                    r == Err::<u32, ProxyError>(ProxyError::UnauthorizedUpgrade)
                } else if c.registry != old(registry).spec_address() {
                    r == Err::<u32, ProxyError>(ProxyError::RegistryNotSet)
                } else if next_version(entry(*old(registry), c.contract_name@)) > u32::MAX
                    || old(registry).spec_admin() != Some(admin) {
                    r == Err::<u32, ProxyError>(ProxyError::CallFailed)
                } else {
                    let v = next_version(entry(*old(registry), c.contract_name@));
                    &&& r == Ok::<u32, ProxyError>(v as u32)
                    &&& final(registry).spec_implementations() == old(
                        registry,
                    ).spec_implementations().insert(
                        c.contract_name@,
                        ImplementationInfo {
                            implementation: new_implementation,
                            version: v as u32,
                            deployed_at: now,
                        },
                    )
                    &&& final(registry).spec_events() == old(registry).spec_events().push(
                        RegistryEvent::RegisteredImpl {
                            contract_name: c.contract_name,
                            implementation: new_implementation,
                            version: v as u32,
                        },
                    )
                    &&& final(self).spec_events() == old(self).spec_events().push(
                        ProxyEvent::Upgraded {
                            contract_name: c.contract_name,
                            implementation: new_implementation,
                            version: v as u32,
                        },
                    )
                },
            },
            r is Err ==> *final(registry) == *old(registry) && final(self).spec_events() == old(
                self,
            ).spec_events(),
            final(self).spec_config() == old(self).spec_config(),
            final(registry).spec_admin() == old(registry).spec_admin(),
            final(registry).spec_address() == old(registry).spec_address(),
    {
        let config = match &self.config {
            None => {
                return Err(ProxyError::NotInitialized);
            },
            Some(c) => c,
        };
        if config.admin.id != admin.id {
            return Err(ProxyError::UnauthorizedUpgrade);
        }
        if config.registry.id != registry.address().id {
            return Err(ProxyError::RegistryNotSet);
        }
        let current: u32 = match registry.get_implementation_info(&config.contract_name) {
            Some(info) => info.version,
            None => 0,
        };
        if current == u32::MAX {
            return Err(ProxyError::CallFailed);
        }
        let version = current + 1;
        let name = config.contract_name.clone();
        let event_name = config.contract_name.clone();
        match registry.register_implementation(admin, name, new_implementation, version, now) {
            Ok(()) => {},
            Err(_) => {
                return Err(ProxyError::CallFailed);
            },
        }
        self.events.push(
            ProxyEvent::Upgraded {
                contract_name: event_name,
                implementation: new_implementation,
                version,
            },
        );
        Ok(version)
    }

    /// Resolves the current implementation through `registry` and calls
    /// `function` on it with `args`, handing back its result untouched.
    pub fn forward_call(
        &self,
        registry: &UpgradeRegistry,
        host: &mut ContractHost,
        function: &String,
        args: &Vec<Val>,
    ) -> (r: Result<Val, ProxyError>)
        ensures
            match self.spec_config() {
                None => r == Err::<Val, ProxyError>(ProxyError::NotInitialized)
                    && final(host).spec_contracts() == old(host).spec_contracts(),
                Some(c) => if c.registry != registry.spec_address() {
                    r == Err::<Val, ProxyError>(ProxyError::RegistryNotSet)
                        && final(host).spec_contracts() == old(host).spec_contracts()
                } else {
                    match resolved(c, *registry) {
                        None => r == Err::<Val, ProxyError>(ProxyError::ImplementationNotFound)
                            && final(host).spec_contracts() == old(host).spec_contracts(),
                        Some(imp) => if !old(host).spec_contracts().contains_key(imp@) {
                            r == Err::<Val, ProxyError>(ProxyError::CallFailed)
                                && final(host).spec_contracts() == old(host).spec_contracts()
                        } else {
                            let step = call_step(
                                old(host).spec_contracts()[imp@].model(),
                                function@,
                                args@,
                            );
                            &&& final(host).spec_contracts()[imp@].model() == step.0
                            &&& final(host).spec_contracts().dom() == old(
                                host,
                            ).spec_contracts().dom()
                            &&& forall|a: u64|
                                a != imp@ && #[trigger] old(host).spec_contracts().contains_key(a)
                                    ==> final(host).spec_contracts()[a] == old(
                                    host,
                                ).spec_contracts()[a]
                            &&& match step.1 {
                                Ok(v) => r == Ok::<Val, ProxyError>(v),
                                Err(_) => r == Err::<Val, ProxyError>(ProxyError::CallFailed),
                            }
                        },
                    }
                },
            },
    {
        let config = match &self.config {
            None => {
                return Err(ProxyError::NotInitialized);
            },
            Some(c) => c,
        };
        if config.registry.id != registry.address().id {
            return Err(ProxyError::RegistryNotSet);
        }
        let implementation = match registry.get_implementation(&config.contract_name) {
            None => {
                return Err(ProxyError::ImplementationNotFound);
            },
            Some(a) => a,
        };
        match host.invoke(implementation, function, args) {
            Ok(v) => Ok(v),
            Err(_) => Err(ProxyError::CallFailed),
        }
    }

    /// The implementation currently serving the proxy.
    pub fn get_implementation(&self, registry: &UpgradeRegistry) -> (r: Result<Address, ProxyError>)
        ensures
            match self.spec_config() {
                None => r == Err::<Address, ProxyError>(ProxyError::NotInitialized),
                Some(c) => if c.registry != registry.spec_address() {
                    r == Err::<Address, ProxyError>(ProxyError::RegistryNotSet)
                } else {
                    match resolved(c, *registry) {
                        None => r == Err::<Address, ProxyError>(
                            ProxyError::ImplementationNotFound,
                        ),
                        Some(imp) => r == Ok::<Address, ProxyError>(imp),
                    }
                },
            },
    {
        let config = match &self.config {
            None => {
                return Err(ProxyError::NotInitialized);
            },
            Some(c) => c,
        };
        if config.registry.id != registry.address().id {
            return Err(ProxyError::RegistryNotSet);
        }
        match registry.get_implementation(&config.contract_name) {
            None => Err(ProxyError::ImplementationNotFound),
            Some(a) => Ok(a),
        }
    }

    pub fn get_config(&self) -> (r: Option<&ProxyConfig>)
        ensures
            match r {
                Some(c) => self.spec_config() == Some(*c),
                None => self.spec_config() is None,
            },
    {
        match &self.config {
            Some(c) => Some(c),
            None => None,
        }
    }

    pub fn get_admin(&self) -> (r: Result<Address, ProxyError>)
        ensures
            match self.spec_config() {
                None => r == Err::<Address, ProxyError>(ProxyError::NotInitialized),
                Some(c) => r == Ok::<Address, ProxyError>(c.admin),
            },
    {
        match &self.config {
            None => Err(ProxyError::NotInitialized),
            Some(c) => Ok(c.admin),
        }
    }

    pub fn events(&self) -> (r: &Vec<ProxyEvent>)
        ensures
            r@ == self.spec_events(),
    {
        &self.events
    }
}

/// Two upgrades in a row register strictly increasing versions: the second is
/// exactly one past the first, and no version repeats.
pub proof fn upgrade_versions_increase(
    r0: UpgradeRegistry,
    r1: UpgradeRegistry,
    name: Seq<char>,
    impl1: Address,
    impl2: Address,
    t1: u64,
    t2: u64,
    v1: u32,
    v2: u32,
)
    requires
        v1 == next_version(entry(r0, name)),
        r1.spec_implementations() == r0.spec_implementations().insert(
            name,
            ImplementationInfo { implementation: impl1, version: v1, deployed_at: t1 },
        ),
        v2 == next_version(entry(r1, name)),
    ensures
        v1 >= 1,
        v2 == v1 + 1,
        v1 < v2,
        entry(r0, name) matches Some(info) ==> info.version < v1,
{
}

} // verus!
