//! The second version of the counter: a maximum value and a reset count.

use vstd::prelude::*;
use crate::address::Address;
use crate::example_impl::{CounterError, CounterEvent};

verus! {

#[derive(Clone, Copy, Debug, PartialEq, Eq, Structural)]
pub struct CounterDataV2 {
    pub value: u64,
    pub owner: Address,
    pub max_value: u64,
    pub reset_count: u32,
}

pub struct ExampleImplementationV2 {
    data: Option<CounterDataV2>,
    events: Vec<CounterEvent>,
}

impl ExampleImplementationV2 {
    pub closed spec fn spec_data(&self) -> Option<CounterDataV2> {
        self.data
    }

    pub closed spec fn spec_events(&self) -> Seq<CounterEvent> {
        self.events@
    }

    pub fn events(&self) -> (r: &Vec<CounterEvent>)
        ensures
            r@ == self.spec_events(),
    {
        &self.events
    }

    /// A deployed, not yet initialized counter.
    pub fn new() -> (r: Self)
        ensures
            r.spec_data() is None,
            r.spec_events() == Seq::<CounterEvent>::empty(),
    {
        ExampleImplementationV2 { data: None, events: Vec::new() }
    }

    pub fn initialize(&mut self, owner: Address, max_value: u64)
        ensures
            final(self).spec_data() == Some(
                CounterDataV2 { value: 0, owner, max_value, reset_count: 0 },
            ),
            final(self).spec_events() == old(self).spec_events(),
    {
        self.data = Some(CounterDataV2 { value: 0, owner, max_value, reset_count: 0 });
    }

    /// Adds one, refusing to pass the maximum value.
    pub fn increment(&mut self) -> (r: Result<u64, CounterError>)
        ensures
            match old(self).spec_data() {
                None => r == Err::<u64, CounterError>(CounterError::NotInitialized),
                Some(d) => if d.value >= d.max_value {
                    r == Err::<u64, CounterError>(CounterError::MaxValueReached)
                } else {
                    r == Ok::<u64, CounterError>((d.value + 1) as u64)
                        && final(self).spec_data() == Some(
                        CounterDataV2 { value: (d.value + 1) as u64, ..d },
                    ) && final(self).spec_events() == old(self).spec_events().push(
                        CounterEvent::Incremented { value: (d.value + 1) as u64 },
                    )
                },
            },
            r is Err ==> final(self).spec_data() == old(self).spec_data() && final(
                self).spec_events() == old(self).spec_events(),
    {
        match self.data {
            None => Err(CounterError::NotInitialized),
            Some(d) => {
                if d.value >= d.max_value {
                    return Err(CounterError::MaxValueReached);
                }
                let value = d.value + 1;
                self.data = Some(CounterDataV2 { value, ..d });
                self.events.push(CounterEvent::Incremented { value });
                Ok(value)
            },
        }
    }

    pub fn get_value(&self) -> (r: Result<u64, CounterError>)
        ensures
            match self.spec_data() {
                None => r == Err::<u64, CounterError>(CounterError::NotInitialized),
                Some(d) => r == Ok::<u64, CounterError>(d.value),
            },
    {
        match self.data {
            None => Err(CounterError::NotInitialized),
            Some(d) => Ok(d.value),
        }
    }

    /// Sets the counter back to zero and counts the reset; only the owner may.
    pub fn reset(&mut self, caller: Address) -> (r: Result<(), CounterError>)
        ensures
            match old(self).spec_data() {
                None => r == Err::<(), CounterError>(CounterError::NotInitialized),
                Some(d) => if d.owner != caller {
                    r == Err::<(), CounterError>(CounterError::Unauthorized)
                } else if d.reset_count == u32::MAX {
                    r == Err::<(), CounterError>(CounterError::Overflow)
                } else {
                    r is Ok && final(self).spec_data() == Some(
                        CounterDataV2 { value: 0, reset_count: (d.reset_count + 1) as u32, ..d },
                    ) && final(self).spec_events() == old(self).spec_events().push(
                        CounterEvent::ResetCounted { reset_count: (d.reset_count + 1) as u32 },
                    )
                },
            },
            r is Err ==> final(self).spec_data() == old(self).spec_data() && final(
                self).spec_events() == old(self).spec_events(),
    {
        match self.data {
            None => Err(CounterError::NotInitialized),
            Some(d) => {
                if d.owner.id != caller.id {
                    return Err(CounterError::Unauthorized);
                }
                if d.reset_count == u32::MAX {
                    return Err(CounterError::Overflow);
                }
                self.data = Some(CounterDataV2 { value: 0, reset_count: d.reset_count + 1, ..d });
                self.events.push(CounterEvent::ResetCounted { reset_count: d.reset_count + 1 });
                Ok(())
            },
        }
    }

    /// Changes the maximum value; only the owner may.
    pub fn set_max_value(&mut self, caller: Address, new_max: u64) -> (r: Result<(), CounterError>)
        ensures
            match old(self).spec_data() {
                None => r == Err::<(), CounterError>(CounterError::NotInitialized),
                Some(d) => if d.owner != caller {
                    r == Err::<(), CounterError>(CounterError::Unauthorized)
                } else {
                    r is Ok && final(self).spec_data() == Some(
                        CounterDataV2 { max_value: new_max, ..d },
                    ) && final(self).spec_events() == old(self).spec_events().push(
                        CounterEvent::MaxValueSet { max_value: new_max },
                    )
                },
            },
            r is Err ==> final(self).spec_data() == old(self).spec_data() && final(
                self).spec_events() == old(self).spec_events(),
    {
        match self.data {
            None => Err(CounterError::NotInitialized),
            Some(d) => {
                if d.owner.id != caller.id {
                    return Err(CounterError::Unauthorized);
                }
                self.data = Some(CounterDataV2 { max_value: new_max, ..d });
                self.events.push(CounterEvent::MaxValueSet { max_value: new_max });
                Ok(())
            },
        }
    }

    pub fn get_max_value(&self) -> (r: Result<u64, CounterError>)
        ensures
            match self.spec_data() {
                None => r == Err::<u64, CounterError>(CounterError::NotInitialized),
                Some(d) => r == Ok::<u64, CounterError>(d.max_value),
            },
    {
        match self.data {
            None => Err(CounterError::NotInitialized),
            Some(d) => Ok(d.max_value),
        }
    }

    pub fn get_reset_count(&self) -> (r: Result<u32, CounterError>)
        ensures
            match self.spec_data() {
                None => r == Err::<u32, CounterError>(CounterError::NotInitialized),
                Some(d) => r == Ok::<u32, CounterError>(d.reset_count),
            },
    {
        match self.data {
            None => Err(CounterError::NotInitialized),
            Some(d) => Ok(d.reset_count),
        }
    }

    pub fn get_owner(&self) -> (r: Result<Address, CounterError>)
        ensures
            match self.spec_data() {
                None => r == Err::<Address, CounterError>(CounterError::NotInitialized),
                Some(d) => r == Ok::<Address, CounterError>(d.owner),
            },
    {
        match self.data {
            None => Err(CounterError::NotInitialized),
            Some(d) => Ok(d.owner),
        }
    }

    pub fn version() -> (r: u32)
        ensures
            r == 2,
    {
        2
    }
}

} // verus!
