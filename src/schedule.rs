//! The versioned table of gas costs and execution limits.

use crate::error::{ContractError, Event, Origin};
use crate::exec::Module;
use crate::gas::Gas;
use vstd::prelude::*;

verus! {

/// Gas costs and limits of the Wasm executor, under a version that only grows.
#[derive(Clone, Copy, Debug, PartialEq, Eq, Structural)]
pub struct Schedule {
    /// Version of the schedule.
    pub version: u32,
    /// Gas to grow memory by one page.
    pub grow_mem_cost: Gas,
    /// Gas of a regular operation.
    pub regular_op_cost: Gas,
    /// Gas per byte returned.
    pub return_data_per_byte_cost: Gas,
    /// Gas per byte of event data.
    pub event_data_per_byte_cost: Gas,
    /// Gas per event topic.
    pub event_per_topic_cost: Gas,
    /// Base gas of an event.
    pub event_base_cost: Gas,
    /// Base gas of a call.
    pub call_base_cost: Gas,
    /// Base gas of an instantiation.
    pub instantiate_base_cost: Gas,
    /// Gas per byte read from sandbox memory.
    pub sandbox_data_read_cost: Gas,
    /// Gas per byte written to sandbox memory.
    pub sandbox_data_write_cost: Gas,
    /// Most topics an event may carry.
    pub max_event_topics: u32,
    /// Largest stack height allowed.
    pub max_stack_height: u32,
    /// Most memory pages a contract may use.
    pub max_memory_pages: u32,
    /// Largest table a contract may declare.
    pub max_table_size: u32,
    /// Whether contracts may print; only for development chains.
    pub enable_println: bool,
    /// Longest subject accepted for random numbers.
    pub max_subject_len: u32,
}

/// The version-zero schedule.
pub open spec fn default_schedule() -> Schedule {
    Schedule {
        version: 0,
        grow_mem_cost: 1,
        regular_op_cost: 1,
        return_data_per_byte_cost: 1,
        event_data_per_byte_cost: 1,
        event_per_topic_cost: 1,
        event_base_cost: 1,
        call_base_cost: 135,
        instantiate_base_cost: 175,
        sandbox_data_read_cost: 1,
        sandbox_data_write_cost: 1,
        max_event_topics: 4,
        max_stack_height: 65536,
        max_memory_pages: 16,
        max_table_size: 16384,
        enable_println: false,
        max_subject_len: 32,
    }
}

impl Default for Schedule {
    fn default() -> (r: Schedule)
        ensures
            r == default_schedule(),
    {
        Schedule {
            version: 0,
            grow_mem_cost: 1,
            regular_op_cost: 1,
            return_data_per_byte_cost: 1,
            event_data_per_byte_cost: 1,
            event_per_topic_cost: 1,
            event_base_cost: 1,
            call_base_cost: 135,
            instantiate_base_cost: 175,
            sandbox_data_read_cost: 1,
            sandbox_data_write_cost: 1,
            max_event_topics: 4,
            max_stack_height: 64 * 1024,
            max_memory_pages: 16,
            max_table_size: 16 * 1024,
            enable_println: false,
            max_subject_len: 32,
        }
    }
}

impl Module {
    /// Replaces `current` by `new` when root asks and the version grows.
    /// On success the event to deposit is returned.
    pub fn update_schedule(origin: &Origin, current: &mut Schedule, new: Schedule) -> (r: Result<
        Event,
        ContractError,
    >)
        ensures
            !(*origin is Root) ==> r == Err::<Event, ContractError>(ContractError::BadOrigin),
            *origin is Root && old(current).version >= new.version ==> r == Err::<Event, ContractError>(
                ContractError::ScheduleStaleOrEqual,
            ),
            *origin is Root && old(current).version < new.version ==> r == Ok::<Event, ContractError>(
                Event::ScheduleUpdated(new.version),
            ),
            r is Ok ==> *final(current) == new,
            r is Err ==> *final(current) == *old(current),
    {
        match origin {
            Origin::Root => {},
            _ => {
                return Err(ContractError::BadOrigin);
            },
        }
        if current.version >= new.version {
            return Err(ContractError::ScheduleStaleOrEqual);
        }
        *current = new;
        Ok(Event::ScheduleUpdated(new.version))
    }
}

/// `x` when it fits in gas, `None` otherwise.
pub open spec fn fit_gas(x: int) -> Option<Gas> {
    if 0 <= x <= u64::MAX {
        Some(x as Gas)
    } else {
        None
    }
}

fn checked_mul_add(base: Gas, unit: Gas, count: u64) -> (r: Option<Gas>)
    ensures
        r == fit_gas(base + unit * count),
{
    assert(unit * count >= 0) by (nonlinear_arith);
    match unit.checked_mul(count) {
        None => {
            assert(base + unit * count > u64::MAX) by (nonlinear_arith)
                requires
                    unit * count > u64::MAX,
                    base >= 0,
            ;
            None
        },
        Some(p) => base.checked_add(p),
    }
}

impl Schedule {
    /// Gas to deposit an event with `num_topics` topics and `data_len` bytes
    /// of data; `None` when it does not fit in gas.
    pub fn event_cost(&self, num_topics: u64, data_len: u64) -> (r: Option<Gas>)
        ensures
            r == fit_gas(
                self.event_base_cost + self.event_per_topic_cost * num_topics
                    + self.event_data_per_byte_cost * data_len,
            ),
    {
        assert(self.event_per_topic_cost * num_topics >= 0 && self.event_data_per_byte_cost * data_len >= 0)
            by (nonlinear_arith);
        match checked_mul_add(self.event_base_cost, self.event_per_topic_cost, num_topics) {
            None => None,
            Some(with_topics) => checked_mul_add(with_topics, self.event_data_per_byte_cost, data_len),
        }
    }

    /// Gas to grow memory by `pages` pages.
    pub fn grow_mem_cost_of(&self, pages: u64) -> (r: Option<Gas>)
        ensures
            r == fit_gas(self.grow_mem_cost * pages),
    {
        checked_mul_add(0, self.grow_mem_cost, pages)
    }

    /// Gas to read `len` bytes from sandbox memory.
    pub fn sandbox_read_cost(&self, len: u64) -> (r: Option<Gas>)
        ensures
            r == fit_gas(self.sandbox_data_read_cost * len),
    {
        checked_mul_add(0, self.sandbox_data_read_cost, len)
    }

    /// Gas to write `len` bytes to sandbox memory.
    pub fn sandbox_write_cost(&self, len: u64) -> (r: Option<Gas>)
        ensures
            r == fit_gas(self.sandbox_data_write_cost * len),
    {
        checked_mul_add(0, self.sandbox_data_write_cost, len)
    }

    /// Gas to return `len` bytes of output.
    pub fn return_data_cost(&self, len: u64) -> (r: Option<Gas>)
        ensures
            r == fit_gas(self.return_data_per_byte_cost * len),
    {
        checked_mul_add(0, self.return_data_per_byte_cost, len)
    }
}

/// Of a run of updates from root, each one is accepted exactly when its version
/// exceeds every version seen before it (the starting one included); the
/// schedule that stands is the one with the highest version.
pub open spec fn accepted_updates(start: u32, versions: Seq<u32>) -> Seq<bool>
    decreases versions.len(),
{
    if versions.len() == 0 {
        Seq::empty()
    } else {
        let last = versions.last();
        let prefix = versions.drop_last();
        let top = highest_version(start, prefix);
        accepted_updates(start, prefix).push(top < last)
    }
}

/// The highest of `start` and `versions`.
pub open spec fn highest_version(start: u32, versions: Seq<u32>) -> u32
    decreases versions.len(),
{
    if versions.len() == 0 {
        start
    } else {
        let top = highest_version(start, versions.drop_last());
        if top < versions.last() {
            versions.last()
        } else {
            top
        }
    }
}

/// Applies a run of schedule updates from root and reports which were accepted.
pub fn apply_updates(current: &mut Schedule, updates: &Vec<Schedule>) -> (r: Vec<bool>)
    ensures
        r@ == accepted_updates(old(current).version, updates@.map_values(|s: Schedule| s.version)),
        final(current).version == highest_version(
            old(current).version,
            updates@.map_values(|s: Schedule| s.version),
        ),
{
    let ghost start = current.version;
    let mut r: Vec<bool> = Vec::new();
    let mut i: usize = 0;
    let root = Origin::Root;
    while i < updates.len()
        invariant
            i <= updates@.len(),
            root == Origin::Root,
            r@ == accepted_updates(start, updates@.subrange(0, i as int).map_values(|s: Schedule| s.version)),
            current.version == highest_version(
                start,
                updates@.subrange(0, i as int).map_values(|s: Schedule| s.version),
            ),
        decreases updates@.len() - i,
    {
        let ghost vs = updates@.subrange(0, i as int + 1).map_values(|s: Schedule| s.version);
        assert(vs.drop_last() =~= updates@.subrange(0, i as int).map_values(|s: Schedule| s.version));
        let res = Module::update_schedule(&root, current, updates[i]);
        r.push(res.is_ok());
        i = i + 1;
    }
    assert(updates@.subrange(0, i as int) =~= updates@);
    r
}

} // verus!
