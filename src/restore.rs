//! Restoration of an evicted contract from a live donor whose subtree, less
//! the keys it gives up, hashes back to the tombstone.

use crate::contract_info::{
    Balance, BlockNumber, CodeHash, ContractInfo, RawAliveContractInfo, RawTombstoneContractInfo,
    tombstone_hash,
};
use crate::error::ContractError;
use crate::exec::Module;
use vstd::prelude::*;

verus! {

impl Module {
    /// Checks that `donor` may restore `dest` at `current_block`: the donor is
    /// alive and was not written in this block, and the destination is a
    /// tombstone. Returns both records.
    pub fn restore_preflight(
        donor: Option<ContractInfo>,
        dest: Option<ContractInfo>,
        current_block: BlockNumber,
    ) -> (r: Result<(RawAliveContractInfo, RawTombstoneContractInfo), ContractError>)
        ensures
            donor is None ==> r == Err::<(RawAliveContractInfo, RawTombstoneContractInfo), ContractError>(
                ContractError::ContractNotFound,
            ),
            donor matches Some(ContractInfo::Tombstone(_)) ==> r == Err::<
                (RawAliveContractInfo, RawTombstoneContractInfo),
                ContractError,
            >(ContractError::ContractIsTombstone),
            donor matches Some(ContractInfo::Alive(a)) ==> {
                if a.last_write == Some(current_block) {
                    r == Err::<(RawAliveContractInfo, RawTombstoneContractInfo), ContractError>(
                        ContractError::RestoreDonorWrittenThisBlock,
                    )
                } else {
                    match dest {
                        Some(ContractInfo::Tombstone(t)) => r == Ok::<
                            (RawAliveContractInfo, RawTombstoneContractInfo),
                            ContractError,
                        >((a, t)),
                        _ => r == Err::<(RawAliveContractInfo, RawTombstoneContractInfo), ContractError>(
                            ContractError::DestinationNotTombstone,
                        ),
                    }
                }
            },
    {
        let alive = match donor {
            None => {
                return Err(ContractError::ContractNotFound);
            },
            Some(ContractInfo::Tombstone(_)) => {
                return Err(ContractError::ContractIsTombstone);
            },
            Some(ContractInfo::Alive(a)) => a,
        };
        if let Some(w) = alive.last_write {
            if w == current_block {
                return Err(ContractError::RestoreDonorWrittenThisBlock);
            }
        }
        match dest {
            Some(ContractInfo::Tombstone(t)) => Ok((alive, t)),
            _ => Err(ContractError::DestinationNotTombstone),
        }
    }
}

/// The sum of a sequence of sizes.
pub open spec fn sum_sizes(s: Seq<u32>) -> int
    decreases s.len(),
{
    if s.len() == 0 {
        0
    } else {
        sum_sizes(s.drop_last()) + s.last()
    }
}

/// Whether the donor's subtree with root `root`, run by `code_hash`, reproduces `tombstone`.
pub open spec fn restore_accepts(tombstone: RawTombstoneContractInfo, root: Seq<u8>, code_hash: Seq<u8>) -> bool {
    tombstone.0@ == tombstone_hash(root, code_hash)
}

/// The record the destination gets when restoration succeeds.
pub open spec fn restored_info(
    donor: RawAliveContractInfo,
    code_hash: CodeHash,
    rent_allowance: Balance,
    delta_len: nat,
    taken_sizes: Seq<u32>,
    current_block: BlockNumber,
) -> RawAliveContractInfo {
    RawAliveContractInfo {
        trie_id: donor.trie_id,
        storage_size: if sum_sizes(taken_sizes) <= donor.storage_size {
            (donor.storage_size - sum_sizes(taken_sizes)) as u32
        } else {
            0
        },
        code_hash,
        rent_allowance,
        deduct_block: current_block,
        last_write: if delta_len > 0 {
            Some(current_block)
        } else {
            donor.last_write
        },
    }
}

/// Sums sizes, stopping at the largest `u64`.
fn total_size(sizes: &[u32]) -> (r: u64)
    ensures
        r == if sum_sizes(sizes@) <= u64::MAX {
            sum_sizes(sizes@)
        } else {
            u64::MAX as int
        },
{
    let mut total: u64 = 0;
    let mut saturated = false;
    let mut i: usize = 0;
    while i < sizes.len()
        invariant
            i <= sizes@.len(),
            saturated ==> total == u64::MAX && sum_sizes(sizes@.subrange(0, i as int)) >= u64::MAX,
            !saturated ==> total == sum_sizes(sizes@.subrange(0, i as int)),
        decreases sizes@.len() - i,
    {
        let ghost prefix = sizes@.subrange(0, i as int + 1);
        assert(prefix.drop_last() =~= sizes@.subrange(0, i as int));
        assert(sum_sizes(prefix) == sum_sizes(sizes@.subrange(0, i as int)) + sizes@[i as int]);
        let s = sizes[i] as u64;
        if !saturated {
            if total <= u64::MAX - s {
                total = total + s;
            } else {
                total = u64::MAX;
                saturated = true;
            }
        }
        i = i + 1;
    }
    assert(sizes@.subrange(0, i as int) =~= sizes@);
    total
}

impl Module {
    /// Finishes a restoration once the keys of `delta` (there are `delta_len`)
    /// have been taken out of the donor's subtree, holding values of
    /// `taken_sizes` octets, and `donor_root` is the root of what is left. When
    /// that root and `code_hash` reproduce the destination's tombstone, the
    /// destination becomes alive on the donor's subtree, less the taken octets,
    /// and its balance gains the donor's; otherwise the caller puts the taken
    /// values back.
    pub fn restore_to(
        donor: RawAliveContractInfo,
        dest_tombstone: &RawTombstoneContractInfo,
        code_hash: CodeHash,
        rent_allowance: Balance,
        delta_len: usize,
        taken_sizes: &[u32],
        donor_root: &[u8],
        donor_balance: Balance,
        dest_balance: Balance,
        current_block: BlockNumber,
    ) -> (r: Result<(RawAliveContractInfo, Balance), ContractError>)
        requires
            donor_root@.len() <= u32::MAX,
            donor_balance + dest_balance <= u128::MAX,
        ensures
            restore_accepts(*dest_tombstone, donor_root@, code_hash@) ==> r == Ok::<
                (RawAliveContractInfo, Balance),
                ContractError,
            >(
                (
                    restored_info(
                        donor,
                        code_hash,
                        rent_allowance,
                        delta_len as nat,
                        taken_sizes@,
                        current_block,
                    ),
                    (dest_balance + donor_balance) as Balance,
                ),
            ),
            !restore_accepts(*dest_tombstone, donor_root@, code_hash@) ==> r == Err::<
                (RawAliveContractInfo, Balance),
                ContractError,
            >(ContractError::TombstoneMismatch),
    {
        let tombstone = RawTombstoneContractInfo::new(donor_root, code_hash.as_slice());
        if !tombstone.same_as(dest_tombstone) {
            return Err(ContractError::TombstoneMismatch);
        }
        let last_write = if delta_len > 0 {
            Some(current_block)
        } else {
            donor.last_write
        };
        let taken = total_size(taken_sizes);
        let storage_size = if taken <= donor.storage_size as u64 {
            (donor.storage_size as u64 - taken) as u32
        } else {
            0
        };
        let info = RawAliveContractInfo {
            trie_id: donor.trie_id,
            storage_size,
            code_hash,
            rent_allowance,
            deduct_block: current_block,
            last_write,
        };
        Ok((info, dest_balance + donor_balance))
    }
}

/// A contract evicted with subtree root `root` and code `code_hash` is
/// restored by any donor whose subtree, after the delta is taken out, has
/// that root again and who names the same code hash.
pub proof fn lemma_tombstone_round_trip(root: Seq<u8>, code_hash: Seq<u8>, evicted: ContractInfo)
    requires
        evicted matches ContractInfo::Tombstone(t) && t.0@ == tombstone_hash(root, code_hash),
    ensures
        restore_accepts(evicted->Tombstone_0, root, code_hash),
{
}

} // verus!
