//! The call stack: frames with their pending writes and deferred actions,
//! the depth bound, value transfers, and what a top-level call leaves behind.

use crate::contract_info::{AccountId, Balance, BlockNumber, CodeHash, ContractInfo, TrieId};
use crate::error::{ContractError, Event};
use crate::derive::{next_seed, trie_id_of, TrieIdFromParentCounter, TrieIdGenerator};
use crate::gas::GasMeter;
use crate::hashing::{blake2_256, blake2_256_of, bytes_eq};
use crate::schedule::Schedule;
use vstd::prelude::*;

verus! {

/// Configuration read once per top-level call.
#[derive(Clone, Copy, Debug, PartialEq, Eq, Structural)]
pub struct Config {
    pub schedule: Schedule,
    pub existential_deposit: Balance,
    pub max_depth: u32,
    pub max_value_size: u32,
    pub contract_account_instantiate_fee: Balance,
    pub account_create_fee: Balance,
    pub transfer_fee: Balance,
}

impl Config {
    /// Gathers the configuration of one top-level call.
    pub fn preload(
        schedule: Schedule,
        existential_deposit: Balance,
        max_depth: u32,
        max_value_size: u32,
        contract_account_instantiate_fee: Balance,
        account_create_fee: Balance,
        transfer_fee: Balance,
    ) -> (r: Config)
        ensures
            r == (Config {
                schedule,
                existential_deposit,
                max_depth,
                max_value_size,
                contract_account_instantiate_fee,
                account_create_fee,
                transfer_fee,
            }),
    {
        Config {
            schedule,
            existential_deposit,
            max_depth,
            max_value_size,
            contract_account_instantiate_fee,
            account_create_fee,
            transfer_fee,
        }
    }
}

/// A pending write of a frame: `None` deletes the key.
#[derive(Clone, Debug, PartialEq, Eq)]
pub struct StorageWrite {
    pub account: AccountId,
    pub key: Vec<u8>,
    pub value: Option<Vec<u8>>,
}

/// An effect replayed only after the top-level call succeeds.
#[derive(Clone, Debug, PartialEq, Eq)]
pub enum DeferredAction {
    DepositEvent { topics: Vec<Vec<u8>>, event: Event },
    DispatchRuntimeCall { origin: AccountId, call: Vec<u8> },
    RestoreTo {
        donor: AccountId,
        dest: AccountId,
        code_hash: CodeHash,
        rent_allowance: Balance,
        delta: Vec<Vec<u8>>,
    },
}

/// One frame of the call stack: its depth, its writes and its deferred actions.
#[derive(Debug)]
pub struct Frame {
    pub depth: u32,
    pub writes: Vec<StorageWrite>,
    pub deferred: Vec<DeferredAction>,
}

/// What a frame leaves in its parent: everything when it succeeded, nothing
/// when it reverted or trapped.
pub open spec fn merged<T>(parent: Seq<T>, child: Seq<T>, success: bool) -> Seq<T> {
    if success {
        parent + child
    } else {
        parent
    }
}

impl Frame {
    /// The root frame of a top-level call.
    pub fn top_level() -> (r: Frame)
        ensures
            r.depth == 0,
            r.writes@.len() == 0,
            r.deferred@.len() == 0,
    {
        Frame { depth: 0, writes: Vec::new(), deferred: Vec::new() }
    }

    /// Records a write of this frame.
    pub fn set_storage(&mut self, account: AccountId, key: Vec<u8>, value: Option<Vec<u8>>, cfg: &Config) -> (r:
        Result<(), ContractError>)
        ensures
            final(self).depth == old(self).depth,
            final(self).deferred == old(self).deferred,
            (value matches Some(v) && v@.len() > cfg.max_value_size) ==> r == Err::<(), ContractError>(
                ContractError::ValueTooLarge,
            ) && final(self).writes == old(self).writes,
            !(value matches Some(v) && v@.len() > cfg.max_value_size) ==> r == Ok::<(), ContractError>(())
                && final(self).writes@ == old(self).writes@.push(StorageWrite { account, key, value }),
    {
        if let Some(v) = &value {
            if v.len() > cfg.max_value_size as usize {
                return Err(ContractError::ValueTooLarge);
            }
        }
        self.writes.push(StorageWrite { account, key, value });
        Ok(())
    }

    /// Queues an action for after the top-level call.
    pub fn defer(&mut self, action: DeferredAction)
        ensures
            final(self).depth == old(self).depth,
            final(self).writes == old(self).writes,
            final(self).deferred@ == old(self).deferred@.push(action),
    {
        self.deferred.push(action);
    }

    /// Opens a frame one level deeper, unless that would pass the maximum depth.
    pub fn nested(&self, cfg: &Config) -> (r: Result<Frame, ContractError>)
        ensures
            self.depth + 1 > cfg.max_depth ==> (r matches Err(e) && e == ContractError::MaxCallDepthReached),
            self.depth + 1 <= cfg.max_depth ==> (r matches Ok(f) && f.depth == self.depth + 1
                && f.writes@.len() == 0 && f.deferred@.len() == 0),
    {
        if self.depth >= cfg.max_depth {
            return Err(ContractError::MaxCallDepthReached);
        }
        Ok(Frame { depth: self.depth + 1, writes: Vec::new(), deferred: Vec::new() })
    }

    /// Closes the nested frame `child`: its writes and deferred actions join
    /// this frame's when it succeeded and are dropped otherwise.
    pub fn conclude(&mut self, child: Frame, success: bool)
        ensures
            final(self).depth == old(self).depth,
            final(self).writes@ == merged(old(self).writes@, child.writes@, success),
            final(self).deferred@ == merged(old(self).deferred@, child.deferred@, success),
    {
        if success {
            let mut child = child;
            self.writes.append(&mut child.writes);
            self.deferred.append(&mut child.deferred);
        }
    }
}

/// The latest write of `writes` to `key` of `account`: `Some(value)` when
/// the key was written (`value` being `None` for a deletion), `None` when the
/// read falls through to what lies below.
pub open spec fn latest_write(writes: Seq<StorageWrite>, account: Seq<u8>, key: Seq<u8>) -> Option<
    Option<Seq<u8>>,
>
    decreases writes.len(),
{
    if writes.len() == 0 {
        None
    } else if writes.last().account@ == account && writes.last().key@ == key {
        Some(
            match writes.last().value {
                Some(v) => Some(v@),
                None => None,
            },
        )
    } else {
        latest_write(writes.drop_last(), account, key)
    }
}

impl Frame {
    /// What this frame's own writes say of `key` of `account`; `None` when
    /// the read falls through to the parent.
    pub fn read_own(&self, account: &[u8], key: &[u8]) -> (r: Option<Option<Vec<u8>>>)
        ensures
            latest_write(self.writes@, account@, key@) == match r {
                Some(Some(v)) => Some(Some(v@)),
                Some(None) => Some(None),
                None => None::<Option<Seq<u8>>>,
            },
    {
        let mut i: usize = self.writes.len();
        assert(self.writes@.subrange(0, i as int) =~= self.writes@);
        while i > 0
            invariant
                i <= self.writes@.len(),
                latest_write(self.writes@, account@, key@) == latest_write(
                    self.writes@.subrange(0, i as int),
                    account@,
                    key@,
                ),
            decreases i,
        {
            let w = &self.writes[i - 1];
            let ghost prefix = self.writes@.subrange(0, i as int);
            assert(prefix.drop_last() =~= self.writes@.subrange(0, i - 1));
            if bytes_eq(w.account.as_slice(), account) && bytes_eq(w.key.as_slice(), key) {
                return match &w.value {
                    Some(v) => Some(Some(v.clone())),
                    None => Some(None),
                };
            }
            i = i - 1;
        }
        assert(self.writes@.subrange(0, 0) =~= Seq::<StorageWrite>::empty());
        None
    }
}

/// After a successful sub-call, a read in the caller sees the sub-call's
/// latest write to the key when it made one, and the caller's own otherwise.
pub proof fn lemma_merged_reads(parent: Seq<StorageWrite>, child: Seq<StorageWrite>, account: Seq<u8>, key: Seq<u8>)
    ensures
        latest_write(merged(parent, child, true), account, key) == match latest_write(child, account, key) {
            Some(v) => Some(v),
            None => latest_write(parent, account, key),
        },
    decreases child.len(),
{
    if child.len() > 0 {
        lemma_merged_reads(parent, child.drop_last(), account, key);
        assert((parent + child).drop_last() =~= parent + child.drop_last());
    } else {
        assert(parent + child =~= parent);
    }
}

/// The stored size of a contract after one key goes from a value of
/// `old_len` bytes (`None`: absent) to one of `new_len` bytes; it never
/// drops below zero.
pub fn updated_storage_size(size: u32, old_len: Option<u32>, new_len: Option<u32>) -> (r: u32)
    ensures
        ({
            let old_bytes: int = match old_len {
                Some(n) => n as int,
                None => 0,
            };
            let new_bytes: int = match new_len {
                Some(n) => n as int,
                None => 0,
            };
            let exact = size + new_bytes - old_bytes;
            r == if exact < 0 {
                0
            } else if exact > u32::MAX {
                u32::MAX as int
            } else {
                exact
            }
        }),
{
    let old_bytes: u32 = match old_len {
        Some(n) => n,
        None => 0,
    };
    let new_bytes: u32 = match new_len {
        Some(n) => n,
        None => 0,
    };
    let without = size.saturating_sub(old_bytes);
    if size < old_bytes {
        if new_bytes <= old_bytes - size {
            0
        } else {
            new_bytes - (old_bytes - size)
        }
    } else {
        without.saturating_add(new_bytes)
    }
}

/// A sub-call that reverts or traps is invisible to its caller: the caller's
/// writes and deferred actions are as they were before it, whatever the
/// sub-call did.
pub proof fn lemma_failed_subcall_invisible<T>(parent: Seq<T>, child: Seq<T>)
    ensures
        merged(parent, child, false) == parent,
{
}

/// Frames concluded one after another keep the order in which their effects happened.
pub proof fn lemma_merge_keeps_order<T>(parent: Seq<T>, a: Seq<T>, b: Seq<T>)
    ensures
        merged(merged(parent, a, true), b, true) == parent + (a + b),
{
    assert(parent + a + b =~= parent + (a + b));
}

/// The balances of sender and receiver after moving `value`, or why the move
/// is refused: the sender lacks the value, the receiver would overflow, or a
/// new account would start below the existential deposit.
pub open spec fn transfer_result(
    from_balance: Balance,
    to_balance: Balance,
    value: Balance,
    to_is_new: bool,
    existential_deposit: Balance,
) -> Result<(Balance, Balance), ContractError> {
    if value > from_balance || to_balance + value > u128::MAX {
        Err(ContractError::BalanceTooLow)
    } else if to_is_new && value < existential_deposit {
        Err(ContractError::BelowExistentialDeposit)
    } else {
        Ok(((from_balance - value) as Balance, (to_balance + value) as Balance))
    }
}

/// The balances of caller and callee after moving `value` between them.
pub fn transfer(
    from_balance: Balance,
    to_balance: Balance,
    value: Balance,
    to_is_new: bool,
    cfg: &Config,
) -> (r: Result<(Balance, Balance), ContractError>)
    ensures
        r == transfer_result(from_balance, to_balance, value, to_is_new, cfg.existential_deposit),
{
    if value > from_balance {
        return Err(ContractError::BalanceTooLow);
    }
    if to_balance > u128::MAX - value {
        return Err(ContractError::BalanceTooLow);
    }
    if to_is_new && value < cfg.existential_deposit {
        return Err(ContractError::BelowExistentialDeposit);
    }
    Ok((from_balance - value, to_balance + value))
}

/// A frame entered by a call or an instantiation, with the balances of
/// caller and callee after the value moved.
#[derive(Debug)]
pub struct Entered {
    pub frame: Frame,
    pub caller_balance: Balance,
    pub callee_balance: Balance,
}

impl Frame {
    /// Enters a call from this frame into an account holding `to_balance`
    /// (`to_is_new` when it does not exist yet), moving `value` to it. Past
    /// the maximum depth nothing happens.
    pub fn begin_call(
        &self,
        cfg: &Config,
        from_balance: Balance,
        to_balance: Balance,
        value: Balance,
        to_is_new: bool,
    ) -> (r: Result<Entered, ContractError>)
        ensures
            self.depth + 1 > cfg.max_depth ==> r == Err::<Entered, ContractError>(
                ContractError::MaxCallDepthReached,
            ),
            self.depth + 1 <= cfg.max_depth ==> match transfer_result(
                from_balance,
                to_balance,
                value,
                to_is_new,
                cfg.existential_deposit,
            ) {
                Err(e) => r == Err::<Entered, ContractError>(e),
                Ok((f, t)) => r matches Ok(en) && en.caller_balance == f && en.callee_balance == t
                    && en.frame.depth == self.depth + 1 && en.frame.writes@.len() == 0
                    && en.frame.deferred@.len() == 0,
            },
    {
        let frame = match self.nested(cfg) {
            Ok(f) => f,
            Err(e) => {
                return Err(e);
            },
        };
        match transfer(from_balance, to_balance, value, to_is_new, cfg) {
            Ok((f, t)) => Ok(Entered { frame, caller_balance: f, callee_balance: t }),
            Err(e) => Err(e),
        }
    }

    /// Enters the instantiation of a contract at `address` (derived by the
    /// caller from code, input and origin) with `endowment`: the address must
    /// be free, a fresh trie id is drawn from `counter`, and the contract is
    /// recorded alive at `current_block` with `storage_size_offset` bytes.
    /// Past the maximum depth nothing happens, the counter included.
    pub fn begin_instantiate(
        &self,
        cfg: &Config,
        address: &[u8],
        address_exists: bool,
        counter: &mut u64,
        code_hash: CodeHash,
        rent_allowance: Balance,
        current_block: BlockNumber,
        storage_size_offset: u32,
        from_balance: Balance,
        endowment: Balance,
    ) -> (r: Result<(Entered, ContractInfo), ContractError>)
        ensures
            self.depth + 1 > cfg.max_depth ==> r == Err::<(Entered, ContractInfo), ContractError>(
                ContractError::MaxCallDepthReached,
            ) && *final(counter) == *old(counter),
            self.depth + 1 <= cfg.max_depth && address_exists ==> r == Err::<
                (Entered, ContractInfo),
                ContractError,
            >(ContractError::DuplicateContract) && *final(counter) == *old(counter),
            self.depth + 1 <= cfg.max_depth && !address_exists ==> *final(counter) == next_seed(
                *old(counter),
            ) && match transfer_result(from_balance, 0, endowment, true, cfg.existential_deposit) {
                Err(e) => r == Err::<(Entered, ContractInfo), ContractError>(e),
                Ok((f, t)) => r matches Ok((en, info)) && en.caller_balance == f && en.callee_balance
                    == t && en.frame.depth == self.depth + 1 && en.frame.writes@.len() == 0
                    && en.frame.deferred@.len() == 0 && (info matches ContractInfo::Alive(a)
                    && a.trie_id@ == trie_id_of(address@, *final(counter)) && a.code_hash == code_hash
                    && a.storage_size == storage_size_offset && a.rent_allowance == rent_allowance
                    && a.deduct_block == current_block && a.last_write is None),
            },
    {
        let frame = match self.nested(cfg) {
            Ok(f) => f,
            Err(e) => {
                return Err(e);
            },
        };
        if address_exists {
            return Err(ContractError::DuplicateContract);
        }
        let trie_id = TrieIdFromParentCounter::trie_id(counter, address);
        match transfer(from_balance, 0, endowment, true, cfg) {
            Ok((f, t)) => {
                let info = new_contract_info(trie_id, code_hash, rent_allowance, current_block, storage_size_offset);
                Ok((Entered { frame, caller_balance: f, callee_balance: t }, info))
            },
            Err(e) => Err(e),
        }
    }
}

/// What a top-level call leaves: the writes to commit and the actions to
/// replay (both only on success), and the gas report.
#[derive(Debug)]
pub struct TopLevelOutcome {
    pub commit: Vec<StorageWrite>,
    pub deferred: Vec<DeferredAction>,
    pub gas_left: u64,
    pub gas_spent: u64,
}

/// Ends a top-level call whose root frame is `root`: on success its writes
/// are committed and its deferred actions replayed in order; on failure
/// neither. The gas report is taken from `meter` either way.
pub fn conclude_top_level(root: Frame, success: bool, meter: &GasMeter) -> (r: TopLevelOutcome)
    requires
        meter.wf(),
    ensures
        r.commit@ == (if success {
            root.writes@
        } else {
            Seq::empty()
        }),
        r.deferred@ == (if success {
            root.deferred@
        } else {
            Seq::empty()
        }),
        r.gas_left == meter.left_spec(),
        r.gas_spent == meter.limit_spec() - meter.left_spec(),
{
    let gas_spent = meter.spent();
    let gas_left = meter.gas_left();
    if success {
        TopLevelOutcome { commit: root.writes, deferred: root.deferred, gas_left, gas_spent }
    } else {
        TopLevelOutcome { commit: Vec::new(), deferred: Vec::new(), gas_left, gas_spent }
    }
}

/// The public entry points of the contract module.
pub struct Module;

/// Why the storage of an account cannot be read.
#[derive(Clone, Copy, Debug, PartialEq, Eq, Structural)]
pub enum GetStorageError {
    /// The address holds no contract.
    ContractDoesntExist,
    /// The contract is a tombstone and holds no storage.
    IsTombstone,
}

impl Module {
    /// Where `key` of the contract recorded as `info` is stored: its trie and the
    /// hashed key.
    pub fn get_storage(info: Option<ContractInfo>, key: &[u8]) -> (r: Result<(TrieId, Vec<u8>), GetStorageError>)
        ensures
            info is None ==> r == Err::<(TrieId, Vec<u8>), GetStorageError>(GetStorageError::ContractDoesntExist),
            info matches Some(ContractInfo::Tombstone(_)) ==> r == Err::<(TrieId, Vec<u8>), GetStorageError>(
                GetStorageError::IsTombstone,
            ),
            info matches Some(ContractInfo::Alive(a)) ==> (r matches Ok((t, k)) && t == a.trie_id && k@
                == blake2_256_of(key@)),
    {
        match info {
            None => Err(GetStorageError::ContractDoesntExist),
            Some(ContractInfo::Tombstone(_)) => Err(GetStorageError::IsTombstone),
            Some(ContractInfo::Alive(a)) => Ok((a.trie_id, blake2_256(key))),
        }
    }

    /// The subtree to clear when the account recorded as `info` is reaped: its
    /// trie when alive, none otherwise.
    pub fn on_free_balance_zero(info: Option<ContractInfo>) -> (r: Option<TrieId>)
        ensures
            info matches Some(ContractInfo::Alive(a)) ==> r == Some(a.trie_id),
            !(info matches Some(ContractInfo::Alive(_))) ==> r is None,
    {
        match info {
            Some(ContractInfo::Alive(a)) => Some(a.trie_id),
            _ => None,
        }
    }
}

/// The record of a freshly instantiated contract.
pub fn new_contract_info(
    trie_id: TrieId,
    code_hash: CodeHash,
    rent_allowance: Balance,
    current_block: BlockNumber,
    storage_size_offset: u32,
) -> (r: ContractInfo)
    ensures
        r == ContractInfo::Alive(
            crate::contract_info::RawAliveContractInfo {
                trie_id,
                storage_size: storage_size_offset,
                code_hash,
                rent_allowance,
                deduct_block: current_block,
                last_write: None,
            },
        ),
{
    ContractInfo::Alive(
        crate::contract_info::RawAliveContractInfo {
            trie_id,
            storage_size: storage_size_offset,
            code_hash,
            rent_allowance,
            deduct_block: current_block,
            last_write: None,
        },
    )
}

} // verus!
