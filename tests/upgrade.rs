use contract_kit::address::Address;
use contract_kit::example_impl::ExampleImplementation;
use contract_kit::example_impl_v2::ExampleImplementationV2;
use contract_kit::host::{ContractHost, Deployed, InvokeError, Val};
use contract_kit::upgrade_proxy::{ProxyError, ProxyEvent, UpgradeableProxy};
use contract_kit::upgrade_registry::{RegistryError, UpgradeRegistry};

fn addr(id: u64) -> Address {
    Address::from_id(id)
}

fn name(s: &str) -> String {
    s.to_string()
}

fn call(
    proxy: &UpgradeableProxy,
    registry: &UpgradeRegistry,
    host: &mut ContractHost,
    function: &str,
    args: Vec<Val>,
) -> Result<Val, ProxyError> {
    proxy.forward_call(registry, host, &name(function), &args)
}

#[test]
fn upgrade_registry_test_initialize() {
    let admin = addr(1);
    let mut registry = UpgradeRegistry::new(addr(100));
    registry.initialize(admin).unwrap();
    assert_eq!(registry.get_admin(), Some(admin));
}

#[test]
fn test_register_unauthorized() {
    let admin = addr(1);
    let unauthorized = addr(2);
    let impl_address = addr(3);
    let mut registry = UpgradeRegistry::new(addr(100));
    registry.initialize(admin).unwrap();
    let r = registry.register_implementation(unauthorized, name("test_contract"), impl_address, 1, 0);
    assert_eq!(r, Err(RegistryError::Unauthorized));
    assert_eq!(registry.get_implementation(&name("test_contract")), None);
}

#[test]
fn test_register_and_get_implementation() {
    let admin = addr(1);
    let impl_address = addr(3);
    let contract_name = name("test_contract");
    let mut registry = UpgradeRegistry::new(addr(100));
    registry.initialize(admin).unwrap();
    registry.register_implementation(admin, contract_name.clone(), impl_address, 1, 42).unwrap();
    assert_eq!(registry.get_implementation(&contract_name), Some(impl_address));
    let info = registry.get_implementation_info(&contract_name).unwrap();
    assert_eq!(info.implementation, impl_address);
    assert_eq!(info.version, 1);
    assert_eq!(info.deployed_at, 42);
    assert!(registry.has_implementation(&contract_name));
    assert!(!registry.has_implementation(&name("other")));
}

#[test]
fn test_upgrade_implementation() {
    let admin = addr(1);
    let impl_v1 = addr(3);
    let impl_v2 = addr(4);
    let contract_name = name("test_contract");
    let mut registry = UpgradeRegistry::new(addr(100));
    registry.initialize(admin).unwrap();
    registry.register_implementation(admin, contract_name.clone(), impl_v1, 1, 0).unwrap();
    registry.register_implementation(admin, contract_name.clone(), impl_v2, 2, 0).unwrap();
    assert_eq!(registry.get_implementation(&contract_name), Some(impl_v2));
}

#[test]
fn registry_initializes_once() {
    let mut registry = UpgradeRegistry::new(addr(100));
    registry.initialize(addr(1)).unwrap();
    assert_eq!(registry.initialize(addr(2)), Err(RegistryError::AlreadyInitialized));
    assert_eq!(registry.get_admin(), Some(addr(1)));
}

#[test]
fn unauthorized_register_keeps_prior_mapping() {
    let admin = addr(1);
    let mut registry = UpgradeRegistry::new(addr(100));
    registry.initialize(admin).unwrap();
    registry.register_implementation(admin, name("c"), addr(3), 1, 5).unwrap();
    let r = registry.register_implementation(addr(9), name("c"), addr(4), 7, 6);
    assert_eq!(r, Err(RegistryError::Unauthorized));
    let info = registry.get_implementation_info(&name("c")).unwrap();
    assert_eq!(info.implementation, addr(3));
    assert_eq!(info.version, 1);
    assert_eq!(info.deployed_at, 5);
}

#[test]
fn test_initialize_proxy() {
    let registry = addr(100);
    let admin = addr(1);
    let contract_name = name("test_contract");
    let mut proxy = UpgradeableProxy::new();
    proxy.initialize(registry, contract_name.clone(), admin).unwrap();
    let config = proxy.get_config().unwrap();
    assert_eq!(config.registry, registry);
    assert_eq!(config.contract_name, contract_name);
    assert_eq!(config.admin, admin);
    assert_eq!(proxy.initialize(registry, contract_name, addr(2)), Err(ProxyError::AlreadyInitialized));
}

#[test]
fn test_upgrade_unauthorized() {
    let admin = addr(1);
    let unauthorized = addr(2);
    let mut registry = UpgradeRegistry::new(addr(100));
    registry.initialize(admin).unwrap();
    let mut proxy = UpgradeableProxy::new();
    proxy.initialize(addr(100), name("test_contract"), admin).unwrap();
    let r = proxy.upgrade(&mut registry, unauthorized, addr(5), 0);
    assert_eq!(r, Err(ProxyError::UnauthorizedUpgrade));
    assert_eq!(registry.get_implementation(&name("test_contract")), None);
}

#[test]
fn test_forward_call() {
    let admin = addr(1);
    let owner = addr(2);
    let impl_address = addr(10);
    let mut host = ContractHost::new();
    let mut counter = ExampleImplementation::new();
    counter.initialize(owner);
    host.deploy(impl_address, Deployed::CounterV1(counter));
    let mut registry = UpgradeRegistry::new(addr(100));
    registry.initialize(admin).unwrap();
    let mut proxy = UpgradeableProxy::new();
    proxy.initialize(addr(100), name("counter"), admin).unwrap();
    assert_eq!(call(&proxy, &registry, &mut host, "increment", vec![]), Err(ProxyError::ImplementationNotFound));
    registry.register_implementation(admin, name("counter"), impl_address, 1, 0).unwrap();
    assert_eq!(call(&proxy, &registry, &mut host, "increment", vec![]), Ok(Val::U64(1)));
    assert_eq!(call(&proxy, &registry, &mut host, "get_value", vec![]), Ok(Val::U64(1)));
    assert_eq!(call(&proxy, &registry, &mut host, "get_owner", vec![]), Ok(Val::Address(owner)));
    assert_eq!(call(&proxy, &registry, &mut host, "no_such_function", vec![]), Err(ProxyError::CallFailed));
    assert_eq!(proxy.get_implementation(&registry), Ok(impl_address));
}

#[test]
fn host_reports_call_errors() {
    let mut host = ContractHost::new();
    let args: Vec<Val> = vec![];
    assert_eq!(host.invoke(addr(7), &name("version"), &args), Err(InvokeError::ContractNotFound));
    host.deploy(addr(7), Deployed::CounterV1(ExampleImplementation::new()));
    assert_eq!(host.invoke(addr(7), &name("version"), &args), Ok(Val::U32(1)));
    assert_eq!(host.invoke(addr(7), &name("bogus"), &args), Err(InvokeError::FunctionNotFound));
    assert_eq!(host.invoke(addr(7), &name("reset"), &args), Err(InvokeError::InvalidArguments));
}

/// Builds a registry, a v1 counter registered under `contract_name` and a
/// proxy for it.
fn setup(
    admin: Address,
    owner: Address,
    contract_name: &str,
    impl_address: Address,
    registry: &mut UpgradeRegistry,
    host: &mut ContractHost,
) -> UpgradeableProxy {
    let mut counter = ExampleImplementation::new();
    counter.initialize(owner);
    host.deploy(impl_address, Deployed::CounterV1(counter));
    registry.register_implementation(admin, name(contract_name), impl_address, 1, 0).unwrap();
    let mut proxy = UpgradeableProxy::new();
    proxy.initialize(registry.address(), name(contract_name), admin).unwrap();
    proxy
}

#[test]
fn test_complete_upgrade_workflow() {
    let admin = addr(1);
    let owner = addr(2);
    let contract_name = "counter_contract";
    let mut host = ContractHost::new();
    let mut registry = UpgradeRegistry::new(addr(100));
    registry.initialize(admin).unwrap();
    let impl_v1_address = addr(10);
    let proxy = setup(admin, owner, contract_name, impl_v1_address, &mut registry, &mut host);
    let mut proxy = proxy;

    assert_eq!(call(&proxy, &registry, &mut host, "increment", vec![]), Ok(Val::U64(1)));
    assert_eq!(call(&proxy, &registry, &mut host, "get_value", vec![]), Ok(Val::U64(1)));
    assert_eq!(call(&proxy, &registry, &mut host, "version", vec![]), Ok(Val::U32(1)));

    let impl_v2_address = addr(11);
    host.deploy(impl_v2_address, Deployed::CounterV2(ExampleImplementationV2::new()));
    let init_args = vec![Val::Address(owner), Val::U64(10)];
    assert_eq!(host.invoke(impl_v2_address, &name("initialize"), &init_args), Ok(Val::Void));

    assert_eq!(proxy.upgrade(&mut registry, admin, impl_v2_address, 50), Ok(2));
    assert_eq!(call(&proxy, &registry, &mut host, "version", vec![]), Ok(Val::U32(2)));

    // The new implementation keeps its own state, initialized at zero.
    for i in 1..=10u64 {
        assert_eq!(call(&proxy, &registry, &mut host, "increment", vec![]), Ok(Val::U64(i)));
    }
    assert!(call(&proxy, &registry, &mut host, "increment", vec![]).is_err());

    assert_eq!(call(&proxy, &registry, &mut host, "reset", vec![Val::Address(owner)]), Ok(Val::Void));
    assert_eq!(call(&proxy, &registry, &mut host, "get_value", vec![]), Ok(Val::U64(0)));

    assert_eq!(registry.get_implementation(&name(contract_name)), Some(impl_v2_address));
    let info = registry.get_implementation_info(&name(contract_name)).unwrap();
    assert_eq!(info.implementation, impl_v2_address);
    assert_eq!(info.version, 2);
}

#[test]
fn counter_scenario_through_proxy() {
    let admin = addr(1);
    let owner = addr(2);
    let mut host = ContractHost::new();
    let mut registry = UpgradeRegistry::new(addr(100));
    registry.initialize(admin).unwrap();
    let mut proxy = setup(admin, owner, "counter", addr(10), &mut registry, &mut host);
    call(&proxy, &registry, &mut host, "increment", vec![]).unwrap();
    assert_eq!(call(&proxy, &registry, &mut host, "increment", vec![]), Ok(Val::U64(2)));
    let mut v2 = ExampleImplementationV2::new();
    v2.initialize(owner, 3);
    host.deploy(addr(11), Deployed::CounterV2(v2));
    assert_eq!(proxy.upgrade(&mut registry, admin, addr(11), 9), Ok(2));
    assert_eq!(call(&proxy, &registry, &mut host, "version", vec![]), Ok(Val::U32(2)));
    for i in 1..=3u64 {
        assert_eq!(call(&proxy, &registry, &mut host, "increment", vec![]), Ok(Val::U64(i)));
    }
    assert_eq!(call(&proxy, &registry, &mut host, "increment", vec![]), Err(ProxyError::CallFailed));
    assert_eq!(call(&proxy, &registry, &mut host, "get_value", vec![]), Ok(Val::U64(3)));
}

#[test]
fn upgrades_yield_increasing_versions() {
    let admin = addr(1);
    let mut host = ContractHost::new();
    let mut registry = UpgradeRegistry::new(addr(100));
    registry.initialize(admin).unwrap();
    let mut proxy = setup(admin, addr(2), "c", addr(10), &mut registry, &mut host);
    assert_eq!(proxy.upgrade(&mut registry, admin, addr(11), 1), Ok(2));
    assert_eq!(proxy.upgrade(&mut registry, admin, addr(12), 2), Ok(3));
    assert_eq!(proxy.upgrade(&mut registry, admin, addr(13), 3), Ok(4));
    assert_eq!(registry.get_implementation_info(&name("c")).unwrap().version, 4);
}

#[test]
fn first_upgrade_registers_version_one() {
    let admin = addr(1);
    let mut registry = UpgradeRegistry::new(addr(100));
    registry.initialize(admin).unwrap();
    let mut proxy = UpgradeableProxy::new();
    proxy.initialize(addr(100), name("fresh"), admin).unwrap();
    assert_eq!(proxy.upgrade(&mut registry, admin, addr(20), 0), Ok(1));
    assert_eq!(proxy.upgrade(&mut registry, admin, addr(21), 0), Ok(2));
}

#[test]
fn upgrade_against_other_registry_fails() {
    let admin = addr(1);
    let mut registry = UpgradeRegistry::new(addr(100));
    registry.initialize(admin).unwrap();
    let mut proxy = UpgradeableProxy::new();
    assert_eq!(proxy.upgrade(&mut registry, admin, addr(20), 0), Err(ProxyError::NotInitialized));
    proxy.initialize(addr(999), name("x"), admin).unwrap();
    assert_eq!(proxy.upgrade(&mut registry, admin, addr(20), 0), Err(ProxyError::RegistryNotSet));
}

#[test]
fn upgrade_fails_when_registry_admin_differs() {
    let mut registry = UpgradeRegistry::new(addr(100));
    registry.initialize(addr(1)).unwrap();
    let mut proxy = UpgradeableProxy::new();
    proxy.initialize(addr(100), name("x"), addr(2)).unwrap();
    assert_eq!(proxy.upgrade(&mut registry, addr(2), addr(20), 0), Err(ProxyError::CallFailed));
    assert_eq!(registry.get_implementation(&name("x")), None);
}

#[test]
fn test_upgrade_events() {
    let admin = addr(1);
    let mut host = ContractHost::new();
    let mut registry = UpgradeRegistry::new(addr(100));
    registry.initialize(admin).unwrap();
    let mut proxy = setup(admin, addr(2), "test_contract", addr(10), &mut registry, &mut host);
    let impl_v2_address = addr(11);
    host.deploy(impl_v2_address, Deployed::CounterV2(ExampleImplementationV2::new()));
    let events_before = proxy.events().len();
    proxy.upgrade(&mut registry, admin, impl_v2_address, 7).unwrap();
    let events_after = proxy.events();
    assert!(events_after.len() > events_before);
    match &events_after[events_after.len() - 1] {
        ProxyEvent::Upgraded { contract_name, implementation, version } => {
            assert_eq!(contract_name, "test_contract");
            assert_eq!(*implementation, impl_v2_address);
            assert_eq!(*version, 2);
        }
    }
    assert_eq!(registry.get_implementation(&name("test_contract")), Some(impl_v2_address));
}

#[test]
fn test_upgrade_unauthorized_fails() {
    let admin = addr(1);
    let unauthorized = addr(3);
    let mut host = ContractHost::new();
    let mut registry = UpgradeRegistry::new(addr(100));
    registry.initialize(admin).unwrap();
    let mut proxy = setup(admin, addr(2), "test_contract", addr(10), &mut registry, &mut host);
    let r = proxy.upgrade(&mut registry, unauthorized, addr(11), 0);
    assert_eq!(r, Err(ProxyError::UnauthorizedUpgrade));
    assert_eq!(registry.get_implementation(&name("test_contract")), Some(addr(10)));
}

#[test]
fn test_multiple_contracts_same_registry() {
    let admin = addr(1);
    let mut host = ContractHost::new();
    let mut registry = UpgradeRegistry::new(addr(100));
    registry.initialize(admin).unwrap();
    let proxy1 = setup(admin, addr(2), "contract1", addr(10), &mut registry, &mut host);
    let proxy2 = setup(admin, addr(3), "contract2", addr(20), &mut registry, &mut host);
    let result1 = call(&proxy1, &registry, &mut host, "increment", vec![]);
    let result2 = call(&proxy2, &registry, &mut host, "increment", vec![]);
    assert_eq!(result1, Ok(Val::U64(1)));
    assert_eq!(result2, Ok(Val::U64(1)));
}
