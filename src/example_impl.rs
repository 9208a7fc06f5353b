//! A counter contract served through the upgrade proxy (first version).

use vstd::prelude::*;
use crate::address::Address;

verus! {

#[derive(Clone, Copy, Debug, PartialEq, Eq, Structural)]
pub struct CounterData {
    pub value: u64,
    pub owner: Address,
}

#[derive(Clone, Copy, Debug, PartialEq, Eq, Structural)]
pub enum CounterError {
    NotInitialized,
    Unauthorized,
    Overflow,
    MaxValueReached,
}

/// What a counter publishes.
#[derive(Clone, Copy, Debug, PartialEq, Eq, Structural)]
pub enum CounterEvent {
    Incremented { value: u64 },
    Reset,
    ResetCounted { reset_count: u32 },
    MaxValueSet { max_value: u64 },
}

pub struct ExampleImplementation {
    data: Option<CounterData>,
    events: Vec<CounterEvent>,
}

impl ExampleImplementation {
    pub closed spec fn spec_data(&self) -> Option<CounterData> {
        self.data
    }

    pub closed spec fn spec_events(&self) -> Seq<CounterEvent> {
        self.events@
    }

    pub fn events(&self) -> (r: &Vec<CounterEvent>)
        ensures
            r@ == self.spec_events(),
    {
        &self.events
    }

    /// A deployed, not yet initialized counter.
    pub fn new() -> (r: Self)
        ensures
            r.spec_data() is None,
            r.spec_events() == Seq::<CounterEvent>::empty(),
    {
        ExampleImplementation { data: None, events: Vec::new() }
    }

    /// Starts the counter at zero under `owner`.
    pub fn initialize(&mut self, owner: Address)
        ensures
            final(self).spec_data() == Some(CounterData { value: 0, owner }),
            final(self).spec_events() == old(self).spec_events(),
    {
        self.data = Some(CounterData { value: 0, owner });
    }

    pub fn increment(&mut self) -> (r: Result<u64, CounterError>)
        ensures
            match old(self).spec_data() {
                None => r == Err::<u64, CounterError>(CounterError::NotInitialized),
                Some(d) => if d.value == u64::MAX {
                    r == Err::<u64, CounterError>(CounterError::Overflow)
                } else {
                    r == Ok::<u64, CounterError>((d.value + 1) as u64)
                        && final(self).spec_data() == Some(
                        CounterData { value: (d.value + 1) as u64, ..d },
                    ) && final(self).spec_events() == old(self).spec_events().push(
                        CounterEvent::Incremented { value: (d.value + 1) as u64 },
                    )
                },
            },
            r is Err ==> final(self).spec_data() == old(self).spec_data() && final(
                self).spec_events() == old(self).spec_events(),
    {
        match self.data {
            None => Err(CounterError::NotInitialized),
            Some(d) => {
                if d.value == u64::MAX {
                    return Err(CounterError::Overflow);
                }
                let value = d.value + 1;
                self.data = Some(CounterData { value, owner: d.owner });
                self.events.push(CounterEvent::Incremented { value });
                Ok(value)
            },
        }
    }

    pub fn get_value(&self) -> (r: Result<u64, CounterError>)
        ensures
            match self.spec_data() {
                None => r == Err::<u64, CounterError>(CounterError::NotInitialized),
                Some(d) => r == Ok::<u64, CounterError>(d.value),
            },
    {
        match self.data {
            None => Err(CounterError::NotInitialized),
            Some(d) => Ok(d.value),
        }
    }

    /// Sets the counter back to zero; only the owner may.
    pub fn reset(&mut self, caller: Address) -> (r: Result<(), CounterError>)
        ensures
            match old(self).spec_data() {
                None => r == Err::<(), CounterError>(CounterError::NotInitialized),
                Some(d) => if d.owner != caller {
                    r == Err::<(), CounterError>(CounterError::Unauthorized)
                } else {
                    r is Ok && final(self).spec_data() == Some(CounterData { value: 0, ..d })
                        && final(self).spec_events() == old(self).spec_events().push(
                        CounterEvent::Reset,
                    )
                },
            },
            r is Err ==> final(self).spec_data() == old(self).spec_data() && final(
                self).spec_events() == old(self).spec_events(),
    {
        match self.data {
            None => Err(CounterError::NotInitialized),
            Some(d) => {
                if d.owner.id != caller.id {
                    return Err(CounterError::Unauthorized);
                }
                self.data = Some(CounterData { value: 0, owner: d.owner });
                self.events.push(CounterEvent::Reset);
                Ok(())
            },
        }
    }

    pub fn get_owner(&self) -> (r: Result<Address, CounterError>)
        ensures
            match self.spec_data() {
                None => r == Err::<Address, CounterError>(CounterError::NotInitialized),
                Some(d) => r == Ok::<Address, CounterError>(d.owner),
            },
    {
        match self.data {
            None => Err(CounterError::NotInitialized),
            Some(d) => Ok(d.owner),
        }
    }

    pub fn version() -> (r: u32)
        ensures
            r == 1,
    {
        1
    }
}

} // verus!
