//! Contracts deployed at ledger addresses, and calls into them by function
//! name with untyped arguments.

use vstd::prelude::*;
use crate::address::Address;
use crate::example_impl::{CounterData, CounterError, CounterEvent, ExampleImplementation};
use crate::example_impl_v2::{CounterDataV2, ExampleImplementationV2};
use crate::table::Table;

verus! {

/// An untyped value passed to or returned from a contract call.
#[derive(Clone, Copy, Debug, PartialEq, Eq, Structural)]
pub enum Val {
    Void,
    U32(u32),
    U64(u64),
    Address(Address),
}

impl Val {
    pub fn as_u64(&self) -> (r: Option<u64>)
        ensures
            r == (match *self {
                Val::U64(v) => Some(v),
                _ => None::<u64>,
            }),
    {
        match self {
            Val::U64(v) => Some(*v),
            _ => None,
        }
    }

    pub fn as_u32(&self) -> (r: Option<u32>)
        ensures
            r == (match *self {
                Val::U32(v) => Some(v),
                _ => None::<u32>,
            }),
    {
        match self {
            Val::U32(v) => Some(*v),
            _ => None,
        }
    }

    pub fn as_address(&self) -> (r: Option<Address>)
        ensures
            r == (match *self {
                Val::Address(a) => Some(a),
                _ => None::<Address>,
            }),
    {
        match self {
            Val::Address(a) => Some(*a),
            _ => None,
        }
    }
}

#[derive(Clone, Copy, Debug, PartialEq, Eq, Structural)]
pub enum InvokeError {
    ContractNotFound,
    FunctionNotFound,
    InvalidArguments,
    Failed(CounterError),
}

/// A contract instance living at some address.
pub enum Deployed {
    CounterV1(ExampleImplementation),
    CounterV2(ExampleImplementationV2),
}

/// The state of a deployed contract, as the call model sees it.
pub enum DeployedModel {
    CounterV1(Option<CounterData>, Seq<CounterEvent>),
    CounterV2(Option<CounterDataV2>, Seq<CounterEvent>),
}

impl Deployed {
    pub open spec fn model(&self) -> DeployedModel {
        match *self {
            Deployed::CounterV1(c) => DeployedModel::CounterV1(c.spec_data(), c.spec_events()),
            Deployed::CounterV2(c) => DeployedModel::CounterV2(c.spec_data(), c.spec_events()),
        }
    }
}

pub open spec fn fail<S>(s: S, e: InvokeError) -> (S, Seq<CounterEvent>, Result<Val, InvokeError>) {
    (s, Seq::empty(), Err(e))
}

/// A call's outcome that publishes nothing.
pub open spec fn quiet<S>(s: S, v: Val) -> (S, Seq<CounterEvent>, Result<Val, InvokeError>) {
    (s, Seq::empty(), Ok(v))
}

/// The effect of calling `f` with `args` on a first-version counter: its
/// new data, what it publishes, and the result.
pub open spec fn v1_step(d: Option<CounterData>, f: Seq<char>, args: Seq<Val>) -> (
    Option<CounterData>,
    Seq<CounterEvent>,
    Result<Val, InvokeError>,
) {
    if f == "initialize"@ {
        if args.len() == 1 && args[0] is Address {
            quiet(Some(CounterData { value: 0, owner: args[0]->Address_0 }), Val::Void)
        } else {
            fail(d, InvokeError::InvalidArguments)
        }
    } else if f == "reset"@ {
        if args.len() == 1 && args[0] is Address {
            match d {
                None => fail(d, InvokeError::Failed(CounterError::NotInitialized)),
                Some(c) => if c.owner != args[0]->Address_0 {
                    fail(d, InvokeError::Failed(CounterError::Unauthorized))
                } else {
                    (Some(CounterData { value: 0, ..c }), seq![CounterEvent::Reset], Ok(Val::Void))
                },
            }
        } else {
            fail(d, InvokeError::InvalidArguments)
        }
    } else if f == "increment"@ || f == "get_value"@ || f == "get_owner"@ || f == "version"@ {
        if args.len() != 0 {
            fail(d, InvokeError::InvalidArguments)
        } else if f == "version"@ {
            quiet(d, Val::U32(1))
        } else {
            match d {
                None => fail(d, InvokeError::Failed(CounterError::NotInitialized)),
                Some(c) => if f == "get_value"@ {
                    quiet(d, Val::U64(c.value))
                } else if f == "get_owner"@ {
                    quiet(d, Val::Address(c.owner))
                } else if c.value == u64::MAX {
                    fail(d, InvokeError::Failed(CounterError::Overflow))
                } else {
                    (
                        Some(CounterData { value: (c.value + 1) as u64, ..c }),
                        seq![CounterEvent::Incremented { value: (c.value + 1) as u64 }],
                        Ok(Val::U64((c.value + 1) as u64)),
                    )
                },
            }
        }
    } else {
        fail(d, InvokeError::FunctionNotFound)
    }
}

/// The effect of calling `f` with `args` on a second-version counter: its
/// new data, what it publishes, and the result.
pub open spec fn v2_step(d: Option<CounterDataV2>, f: Seq<char>, args: Seq<Val>) -> (
    Option<CounterDataV2>,
    Seq<CounterEvent>,
    Result<Val, InvokeError>,
) {
    if f == "initialize"@ {
        if args.len() == 2 && args[0] is Address && args[1] is U64 {
            quiet(
                Some(
                    CounterDataV2 {
                        value: 0,
                        owner: args[0]->Address_0,
                        max_value: args[1]->U64_0,
                        reset_count: 0,
                    },
                ),
                Val::Void,
            )
        } else {
            fail(d, InvokeError::InvalidArguments)
        }
    } else if f == "set_max_value"@ {
        if args.len() == 2 && args[0] is Address && args[1] is U64 {
            match d {
                None => fail(d, InvokeError::Failed(CounterError::NotInitialized)),
                Some(c) => if c.owner != args[0]->Address_0 {
                    fail(d, InvokeError::Failed(CounterError::Unauthorized))
                } else {
                    (
                        Some(CounterDataV2 { max_value: args[1]->U64_0, ..c }),
                        seq![CounterEvent::MaxValueSet { max_value: args[1]->U64_0 }],
                        Ok(Val::Void),
                    )
                },
            }
        } else {
            fail(d, InvokeError::InvalidArguments)
        }
    } else if f == "reset"@ {
        if args.len() == 1 && args[0] is Address {
            match d {
                None => fail(d, InvokeError::Failed(CounterError::NotInitialized)),
                Some(c) => if c.owner != args[0]->Address_0 {
                    fail(d, InvokeError::Failed(CounterError::Unauthorized))
                } else if c.reset_count == u32::MAX {
                    fail(d, InvokeError::Failed(CounterError::Overflow))
                } else {
                    (
                        Some(
                            CounterDataV2 {
                                value: 0,
                                reset_count: (c.reset_count + 1) as u32,
                                ..c
                            },
                        ),
                        seq![CounterEvent::ResetCounted { reset_count: (c.reset_count + 1) as u32 }],
                        Ok(Val::Void),
                    )
                },
            }
        } else {
            fail(d, InvokeError::InvalidArguments)
        }
    } else if f == "increment"@ || f == "get_value"@ || f == "get_owner"@ || f == "version"@
        || f == "get_max_value"@ || f == "get_reset_count"@ {
        if args.len() != 0 {
            fail(d, InvokeError::InvalidArguments)
        } else if f == "version"@ {
            quiet(d, Val::U32(2))
        } else {
            match d {
                None => fail(d, InvokeError::Failed(CounterError::NotInitialized)),
                Some(c) => if f == "get_value"@ {
                    quiet(d, Val::U64(c.value))
                } else if f == "get_owner"@ {
                    quiet(d, Val::Address(c.owner))
                } else if f == "get_max_value"@ {
                    quiet(d, Val::U64(c.max_value))
                } else if f == "get_reset_count"@ {
                    quiet(d, Val::U32(c.reset_count))
                } else if c.value >= c.max_value {
                    fail(d, InvokeError::Failed(CounterError::MaxValueReached))
                } else {
                    (
                        Some(CounterDataV2 { value: (c.value + 1) as u64, ..c }),
                        seq![CounterEvent::Incremented { value: (c.value + 1) as u64 }],
                        Ok(Val::U64((c.value + 1) as u64)),
                    )
                },
            }
        }
    } else {
        fail(d, InvokeError::FunctionNotFound)
    }
}

/// The effect of a call on any deployed contract: its new state and the result.
pub open spec fn call_step(m: DeployedModel, f: Seq<char>, args: Seq<Val>) -> (
    DeployedModel,
    Result<Val, InvokeError>,
) {
    match m {
        DeployedModel::CounterV1(d, ev) => {
            let (n, emitted, r) = v1_step(d, f, args);
            (DeployedModel::CounterV1(n, ev + emitted), r)
        },
        DeployedModel::CounterV2(d, ev) => {
            let (n, emitted, r) = v2_step(d, f, args);
            (DeployedModel::CounterV2(n, ev + emitted), r)
        },
    }
}

fn name_is(name: &String, literal: &str) -> (r: bool)
    ensures
        r == (name@ == literal@),
{
    *name == literal.to_owned()
}

fn lift<T>(r: Result<T, CounterError>) -> (out: Result<T, InvokeError>)
    ensures
        match r {
            Ok(v) => out == Ok::<T, InvokeError>(v),
            Err(e) => out == Err::<T, InvokeError>(InvokeError::Failed(e)),
        },
{
    match r {
        Ok(v) => Ok(v),
        Err(e) => Err(InvokeError::Failed(e)),
    }
}

fn call_v1(c: &mut ExampleImplementation, function: &String, args: &Vec<Val>) -> (r: Result<
    Val,
    InvokeError,
>)
    ensures
        ({
            let (n, emitted, res) = v1_step(old(c).spec_data(), function@, args@);
            final(c).spec_data() == n && final(c).spec_events() == old(c).spec_events() + emitted
                && r == res
        }),
{
    if name_is(function, "initialize") {
        if args.len() != 1 {
            return Err(InvokeError::InvalidArguments);
        }
        match args[0] {
            Val::Address(owner) => {
                c.initialize(owner);
                Ok(Val::Void)
            },
            _ => Err(InvokeError::InvalidArguments),
        }
    } else if name_is(function, "reset") {
        if args.len() != 1 {
            return Err(InvokeError::InvalidArguments);
        }
        match args[0] {
            Val::Address(caller) => match lift(c.reset(caller)) {
                Ok(_) => Ok(Val::Void),
                Err(e) => Err(e),
            },
            _ => Err(InvokeError::InvalidArguments),
        }
    } else if name_is(function, "increment") || name_is(function, "get_value") || name_is(
        function,
        "get_owner",
    ) || name_is(function, "version") {
        if args.len() != 0 {
            return Err(InvokeError::InvalidArguments);
        }
        if name_is(function, "version") {
            Ok(Val::U32(ExampleImplementation::version()))
        } else if name_is(function, "get_value") {
            match lift(c.get_value()) {
                Ok(v) => Ok(Val::U64(v)),
                Err(e) => Err(e),
            }
        } else if name_is(function, "get_owner") {
            match lift(c.get_owner()) {
                Ok(a) => Ok(Val::Address(a)),
                Err(e) => Err(e),
            }
        } else {
            match lift(c.increment()) {
                Ok(v) => Ok(Val::U64(v)),
                Err(e) => Err(e),
            }
        }
    } else {
        Err(InvokeError::FunctionNotFound)
    }
}

fn call_v2(c: &mut ExampleImplementationV2, function: &String, args: &Vec<Val>) -> (r: Result<
    Val,
    InvokeError,
>)
    ensures
        ({
            let (n, emitted, res) = v2_step(old(c).spec_data(), function@, args@);
            final(c).spec_data() == n && final(c).spec_events() == old(c).spec_events() + emitted
                && r == res
        }),
{
    if name_is(function, "initialize") {
        if args.len() != 2 {
            return Err(InvokeError::InvalidArguments);
        }
        match (args[0], args[1]) {
            (Val::Address(owner), Val::U64(max_value)) => {
                c.initialize(owner, max_value);
                Ok(Val::Void)
            },
            _ => Err(InvokeError::InvalidArguments),
        }
    } else if name_is(function, "set_max_value") {
        if args.len() != 2 {
            return Err(InvokeError::InvalidArguments);
        }
        match (args[0], args[1]) {
            (Val::Address(caller), Val::U64(new_max)) => match lift(
                c.set_max_value(caller, new_max),
            ) {
                Ok(_) => Ok(Val::Void),
                Err(e) => Err(e),
            },
            _ => Err(InvokeError::InvalidArguments),
        }
    } else if name_is(function, "reset") {
        if args.len() != 1 {
            return Err(InvokeError::InvalidArguments);
        }
        match args[0] {
            Val::Address(caller) => match lift(c.reset(caller)) {
                Ok(_) => Ok(Val::Void),
                Err(e) => Err(e),
            },
            _ => Err(InvokeError::InvalidArguments),
        }
    } else if name_is(function, "increment") || name_is(function, "get_value") || name_is(
        function,
        "get_owner",
    ) || name_is(function, "version") || name_is(function, "get_max_value") || name_is(
        function,
        "get_reset_count",
    ) {
        if args.len() != 0 {
            return Err(InvokeError::InvalidArguments);
        }
        if name_is(function, "version") {
            Ok(Val::U32(ExampleImplementationV2::version()))
        } else if name_is(function, "get_value") {
            match lift(c.get_value()) {
                Ok(v) => Ok(Val::U64(v)),
                Err(e) => Err(e),
            }
        } else if name_is(function, "get_owner") {
            match lift(c.get_owner()) {
                Ok(a) => Ok(Val::Address(a)),
                Err(e) => Err(e),
            }
        } else if name_is(function, "get_max_value") {
            match lift(c.get_max_value()) {
                Ok(v) => Ok(Val::U64(v)),
                Err(e) => Err(e),
            }
        } else if name_is(function, "get_reset_count") {
            match lift(c.get_reset_count()) {
                Ok(v) => Ok(Val::U32(v)),
                Err(e) => Err(e),
            }
        } else {
            match lift(c.increment()) {
                Ok(v) => Ok(Val::U64(v)),
                Err(e) => Err(e),
            }
        }
    } else {
        Err(InvokeError::FunctionNotFound)
    }
}

impl Deployed {
    /// Calls `function` with `args` on this contract.
    pub fn call(&mut self, function: &String, args: &Vec<Val>) -> (r: Result<Val, InvokeError>)
        ensures
            (final(self).model(), r) == call_step(old(self).model(), function@, args@),
    {
        match self {
            Deployed::CounterV1(c) => call_v1(c, function, args),
            Deployed::CounterV2(c) => call_v2(c, function, args),
        }
    }
}

/// The contracts deployed on the ledger, by address.
pub struct ContractHost {
    contracts: Table<Address, Deployed>,
}

impl ContractHost {
    pub closed spec fn spec_contracts(&self) -> Map<u64, Deployed> {
        self.contracts@
    }

    pub fn new() -> (r: Self)
        ensures
            r.spec_contracts() == Map::<u64, Deployed>::empty(),
    {
        ContractHost { contracts: Table::new() }
    }

    /// Places `contract` at `address`, replacing whatever was there.
    pub fn deploy(&mut self, address: Address, contract: Deployed)
        ensures
            final(self).spec_contracts() == old(self).spec_contracts().insert(address@, contract),
    {
        self.contracts.insert(address, contract);
    }

    pub fn get(&self, address: Address) -> (r: Option<&Deployed>)
        ensures
            match r {
                Some(d) => self.spec_contracts().contains_key(address@)
                    && self.spec_contracts()[address@] == *d,
                None => !self.spec_contracts().contains_key(address@),
            },
    {
        self.contracts.get(&address)
    }

    /// Calls `function` with `args` on the contract at `address`.
    pub fn invoke(&mut self, address: Address, function: &String, args: &Vec<Val>) -> (r: Result<
        Val,
        InvokeError,
    >)
        ensures
            !old(self).spec_contracts().contains_key(address@) ==> r == Err::<Val, InvokeError>(
                InvokeError::ContractNotFound,
            ) && final(self).spec_contracts() == old(self).spec_contracts(),
            old(self).spec_contracts().contains_key(address@) ==> {
                let step = call_step(
                    old(self).spec_contracts()[address@].model(),
                    function@,
                    args@,
                );
                &&& r == step.1
                &&& final(self).spec_contracts().dom() == old(self).spec_contracts().dom()
                &&& final(self).spec_contracts()[address@].model() == step.0
                &&& forall|a: u64|
                    a != address@ && #[trigger] old(self).spec_contracts().contains_key(a)
                        ==> final(self).spec_contracts()[a] == old(self).spec_contracts()[a]
            },
    {
        match self.contracts.remove(&address) {
            None => Err(InvokeError::ContractNotFound),
            Some(mut contract) => {
                let r = contract.call(function, args);
                self.contracts.insert(address, contract);
                proof {
                    assert(self.contracts@.dom() =~= old(self).contracts@.dom());
                }
                r
            },
        }
    }
}

} // verus!
