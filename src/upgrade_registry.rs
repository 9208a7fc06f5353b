//! The upgrade registry: maps a logical contract name to the implementation
//! that currently serves it, with its version and deployment time.

use vstd::prelude::*;
use crate::address::Address;
use crate::table::Table;

verus! {

/// The implementation registered under a contract name.
#[derive(Clone, Copy, Debug, PartialEq, Eq, Structural)]
pub struct ImplementationInfo {
    pub implementation: Address,
    pub version: u32,
    pub deployed_at: u64,
}

#[derive(Clone, Copy, Debug, PartialEq, Eq, Structural)]
pub enum RegistryError {
    AlreadyInitialized,
    Unauthorized,
}

/// What the registry publishes.
#[derive(Clone, Debug)]
pub enum RegistryEvent {
    RegisteredImpl { contract_name: String, implementation: Address, version: u32 },
}

pub struct UpgradeRegistry {
    address: Address,
    admin: Option<Address>,
    implementations: Table<String, ImplementationInfo>,
    events: Vec<RegistryEvent>,
}

impl UpgradeRegistry {
    /// The registry's own ledger address.
    pub closed spec fn spec_address(&self) -> Address {
        self.address
    }

    pub closed spec fn spec_admin(&self) -> Option<Address> {
        self.admin
    }

    /// Contract name to registered implementation.
    pub closed spec fn spec_implementations(&self) -> Map<Seq<char>, ImplementationInfo> {
        self.implementations@
    }

    pub closed spec fn spec_events(&self) -> Seq<RegistryEvent> {
        self.events@
    }

    /// A registry deployed at `address`, not yet initialized.
    pub fn new(address: Address) -> (r: Self)
        ensures
            r.spec_address() == address,
            r.spec_admin() is None,
            r.spec_implementations() == Map::<Seq<char>, ImplementationInfo>::empty(),
            r.spec_events() == Seq::<RegistryEvent>::empty(),
    {
        UpgradeRegistry { address, admin: None, implementations: Table::new(), events: Vec::new() }
    }

    pub fn address(&self) -> (r: Address)
        ensures
            r == self.spec_address(),
    {
        self.address
    }

    /// Sets the admin, once.
    pub fn initialize(&mut self, admin: Address) -> (r: Result<(), RegistryError>)
        ensures
            r is Ok <==> old(self).spec_admin() is None,
            r is Err ==> r == Err::<(), RegistryError>(RegistryError::AlreadyInitialized)
                && *final(self) == *old(self),
            r is Ok ==> final(self).spec_admin() == Some(admin),
            final(self).spec_address() == old(self).spec_address(),
            final(self).spec_implementations() == old(self).spec_implementations(),
            final(self).spec_events() == old(self).spec_events(),
    {
        if self.admin.is_some() {
            return Err(RegistryError::AlreadyInitialized);
        }
        self.admin = Some(admin);
        Ok(())
    }

    /// Records `implementation` as the one serving `contract_name`, stamped with
    /// `now`. Only the admin may register. No ordering of versions is imposed.
    pub fn register_implementation(
        &mut self,
        admin: Address,
        contract_name: String,
        implementation: Address,
        version: u32,
        now: u64,
    ) -> (r: Result<(), RegistryError>)
        ensures
            r is Ok <==> old(self).spec_admin() == Some(admin),
            r is Err ==> r == Err::<(), RegistryError>(RegistryError::Unauthorized)
                && *final(self) == *old(self),
            r is Ok ==> final(self).spec_implementations() == old(
                self,
            ).spec_implementations().insert(
                contract_name@,
                ImplementationInfo { implementation, version, deployed_at: now },
            ),
            r is Ok ==> final(self).spec_events() == old(self).spec_events().push(
                RegistryEvent::RegisteredImpl { contract_name, implementation, version },
            ),
            final(self).spec_admin() == old(self).spec_admin(),
            final(self).spec_address() == old(self).spec_address(),
    {
        let authorized = match self.admin {
            Some(a) => a.id == admin.id,
            None => false,
        };
        if !authorized {
            return Err(RegistryError::Unauthorized);
        }
        let info = ImplementationInfo { implementation, version, deployed_at: now };
        let event = RegistryEvent::RegisteredImpl {
            contract_name: contract_name.clone(),
            implementation,
            version,
        };
        self.implementations.insert(contract_name, info);
        self.events.push(event);
        Ok(())
    }

    pub fn get_implementation(&self, contract_name: &String) -> (r: Option<Address>)
        ensures
            r == (if self.spec_implementations().contains_key(contract_name@) {
                Some(self.spec_implementations()[contract_name@].implementation)
            } else {
                None::<Address>
            }),
    {
        match self.implementations.get(contract_name) {
            Some(info) => Some(info.implementation),
            None => None,
        }
    }

    pub fn get_implementation_info(&self, contract_name: &String) -> (r: Option<
        ImplementationInfo,
    >)
        ensures
            r == (if self.spec_implementations().contains_key(contract_name@) {
                Some(self.spec_implementations()[contract_name@])
            } else {
                None::<ImplementationInfo>
            }),
    {
        match self.implementations.get(contract_name) {
            Some(info) => Some(*info),
            None => None,
        }
    }

    pub fn has_implementation(&self, contract_name: &String) -> (r: bool)
        ensures
            r == self.spec_implementations().contains_key(contract_name@),
    {
        self.implementations.contains_key(contract_name)
    }

    /// The admin; `None` before initialization.
    pub fn get_admin(&self) -> (r: Option<Address>)
        ensures
            r == self.spec_admin(),
    {
        self.admin
    }

    pub fn events(&self) -> (r: &Vec<RegistryEvent>)
        ensures
            r@ == self.spec_events(),
    {
        &self.events
    }
}

/// After the admin registers `implementation` at `version` under a name, the
/// registry answers that name with exactly that implementation and version.
pub proof fn registered_implementation_is_served(
    before: UpgradeRegistry,
    after: UpgradeRegistry,
    admin: Address,
    contract_name: Seq<char>,
    implementation: Address,
    version: u32,
    now: u64,
)
    requires
        before.spec_admin() == Some(admin),
        after.spec_implementations() == before.spec_implementations().insert(
            contract_name,
            ImplementationInfo { implementation, version, deployed_at: now },
        ),
    ensures
        after.spec_implementations().contains_key(contract_name),
        after.spec_implementations()[contract_name].implementation == implementation,
        after.spec_implementations()[contract_name].version == version,
{
}

} // verus!
