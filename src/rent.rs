//! Rent: a per-block charge on a contract's balance for the storage it holds,
//! and eviction into a tombstone when the balance cannot pay it.

use crate::contract_info::{
    AccountId, Balance, BlockNumber, ContractInfo, RawAliveContractInfo, RawTombstoneContractInfo,
    tombstone_hash,
};
use crate::error::{ContractError, Origin};
use crate::exec::Module;
use vstd::prelude::*;

verus! {

/// The module's rent constants.
#[derive(Clone, Copy, Debug, PartialEq, Eq, Structural)]
pub struct RentConfig {
    /// Balance that must remain to leave a tombstone.
    pub tombstone_deposit: Balance,
    /// Price of one byte of storage per block.
    pub rent_byte_fee: Balance,
    /// Balance that frees one byte of storage from rent.
    pub rent_deposit_offset: Balance,
    /// Reward for whoever causes an eviction.
    pub surcharge_reward: Balance,
    /// How many blocks back a signed surcharge claim is judged.
    pub signed_claim_handicap: BlockNumber,
}

/// The default rent constants.
pub open spec fn default_rent_config() -> RentConfig {
    RentConfig {
        tombstone_deposit: 16,
        rent_byte_fee: 4,
        rent_deposit_offset: 1000,
        surcharge_reward: 150,
        signed_claim_handicap: 2,
    }
}

impl Default for RentConfig {
    fn default() -> (r: RentConfig)
        ensures
            r == default_rent_config(),
    {
        RentConfig {
            tombstone_deposit: 16,
            rent_byte_fee: 4,
            rent_deposit_offset: 1000,
            surcharge_reward: 150,
            signed_claim_handicap: 2,
        }
    }
}

/// `x`, or the largest balance where it is larger.
pub open spec fn sat(x: int) -> int {
    if x > u128::MAX {
        u128::MAX as int
    } else {
        x
    }
}

/// The stored bytes that the balance does not offset.
pub open spec fn effective_size(storage_size: int, balance: int, offset: int) -> int {
    let free = if offset == 0 {
        0
    } else {
        balance / offset
    };
    if storage_size > free {
        storage_size - free
    } else {
        0
    }
}

/// Rent owed for one block by a contract of `storage_size` bytes holding `balance`.
pub open spec fn rent_per_block(storage_size: int, balance: int, cfg: RentConfig) -> int {
    sat(effective_size(storage_size, balance, cfg.rent_deposit_offset as int) * cfg.rent_byte_fee)
}

/// Rent owed for `blocks` blocks: the per-block rent, but at most the
/// allowance, for each block.
pub open spec fn rent_owed(storage_size: int, balance: int, allowance: int, blocks: int, cfg: RentConfig) -> int {
    let dues = sat(rent_per_block(storage_size, balance, cfg) * blocks);
    let cap = sat(allowance * blocks);
    if dues <= cap {
        dues
    } else {
        cap
    }
}

/// Whether a contract holding `balance` that owes `owed` is evicted: it owes
/// more than its balance above the tombstone deposit.
pub open spec fn evicts(owed: int, balance: int, cfg: RentConfig) -> bool {
    owed > balance - cfg.tombstone_deposit
}

/// The outcome of touching a contract for rent.
#[derive(Clone, Copy, Debug, PartialEq, Eq, Structural)]
pub enum RentOutcome {
    /// The contract is not alive; nothing was done.
    NotAlive,
    /// Rent was paid up to the block (possibly nothing was due).
    Paid,
    /// The contract could not pay and is now a tombstone.
    Evicted,
}

/// Saturating product of two balances.
fn mul_sat(a: u128, b: u128) -> (r: u128)
    ensures
        r == sat(a * b),
{
    match a.checked_mul(b) {
        Some(p) => p,
        None => u128::MAX,
    }
}

/// Rent owed by `alive` holding `balance` for the blocks after `deduct_block`
/// up to `block`.
pub fn compute_rent(alive: &RawAliveContractInfo, balance: Balance, block: BlockNumber, cfg: &RentConfig) -> (r: Balance)
    requires
        alive.deduct_block <= block,
    ensures
        r == rent_owed(
            alive.storage_size as int,
            balance as int,
            alive.rent_allowance as int,
            block - alive.deduct_block,
            *cfg,
        ),
{
    let free: u128 = if cfg.rent_deposit_offset == 0 {
        0
    } else {
        balance / cfg.rent_deposit_offset
    };
    let size = alive.storage_size as u128;
    let eff: u128 = if size > free {
        size - free
    } else {
        0
    };
    let per_block = mul_sat(eff, cfg.rent_byte_fee);
    let blocks = (block - alive.deduct_block) as u128;
    let dues = mul_sat(per_block, blocks);
    let cap = mul_sat(alive.rent_allowance, blocks);
    if dues <= cap {
        dues
    } else {
        cap
    }
}

/// The block at which a touch with `handicap` judges rent.
pub open spec fn judged_block(current_block: BlockNumber, handicap: BlockNumber) -> BlockNumber {
    if current_block >= handicap {
        (current_block - handicap) as BlockNumber
    } else {
        0
    }
}

/// Whether touching `info`, holding `balance`, for rent at `block` evicts it.
pub open spec fn will_evict(info: ContractInfo, balance: Balance, block: BlockNumber, cfg: RentConfig) -> bool {
    match info {
        ContractInfo::Tombstone(_) => false,
        ContractInfo::Alive(a) => block > a.deduct_block && evicts(
            rent_owed(
                a.storage_size as int,
                balance as int,
                a.rent_allowance as int,
                block - a.deduct_block,
                cfg,
            ),
            balance as int,
            cfg,
        ),
    }
}

/// Touches a contract for rent at `current_block` pushed back by `handicap`.
/// Rent is due for the blocks after `deduct_block`. When it is no more than
/// the balance above the tombstone deposit it is paid and `deduct_block`
/// advances; otherwise the balance drops to the deposit (or stays, when
/// below it) and the contract becomes the tombstone of `storage_root`, the
/// root of its subtree before the subtree is cleared.
pub fn try_evict(
    info: &mut ContractInfo,
    balance: &mut Balance,
    current_block: BlockNumber,
    handicap: BlockNumber,
    storage_root: &[u8],
    cfg: &RentConfig,
) -> (r: RentOutcome)
    requires
        storage_root@.len() <= u32::MAX,
    ensures
        (r == RentOutcome::Evicted) == will_evict(
            *old(info),
            *old(balance),
            judged_block(current_block, handicap),
            *cfg,
        ),
        ({
            let block = judged_block(current_block, handicap);
            match *old(info) {
                ContractInfo::Tombstone(_) => r == RentOutcome::NotAlive && *final(info) == *old(info)
                    && *final(balance) == *old(balance),
                ContractInfo::Alive(a) => if block <= a.deduct_block {
                    r == RentOutcome::Paid && *final(info) == *old(info) && *final(balance) == *old(balance)
                } else {
                    let owed = rent_owed(
                        a.storage_size as int,
                        *old(balance) as int,
                        a.rent_allowance as int,
                        block - a.deduct_block,
                        *cfg,
                    );
                    if evicts(owed, *old(balance) as int, *cfg) {
                        r == RentOutcome::Evicted && (*final(info) matches ContractInfo::Tombstone(t)
                            && t.0@ == tombstone_hash(storage_root@, a.code_hash@))
                            && *final(balance) == if *old(balance) > cfg.tombstone_deposit {
                            cfg.tombstone_deposit
                        } else {
                            *old(balance)
                        }
                    } else {
                        r == RentOutcome::Paid && *final(balance) == *old(balance) - owed
                            && *final(info) == ContractInfo::Alive(
                            RawAliveContractInfo { deduct_block: block, ..a },
                        )
                    }
                },
            }
        }),
{
    let block = if current_block >= handicap {
        current_block - handicap
    } else {
        0
    };
    let outcome = match info {
        ContractInfo::Tombstone(_) => {
            return RentOutcome::NotAlive;
        },
        ContractInfo::Alive(alive) => {
            if block <= alive.deduct_block {
                return RentOutcome::Paid;
            }
            let owed = compute_rent(alive, *balance, block, cfg);
            let evict = *balance < cfg.tombstone_deposit || owed > *balance - cfg.tombstone_deposit;
            if evict {
                let tombstone = RawTombstoneContractInfo::new(storage_root, alive.code_hash.as_slice());
                if *balance > cfg.tombstone_deposit {
                    *balance = cfg.tombstone_deposit;
                }
                Some(tombstone)
            } else {
                *balance = *balance - owed;
                alive.deduct_block = block;
                None
            }
        },
    };
    match outcome {
        Some(tombstone) => {
            *info = ContractInfo::Tombstone(tombstone);
            RentOutcome::Evicted
        },
        None => RentOutcome::Paid,
    }
}

/// Who is rewarded for a surcharge claim, and how far back the claim is
/// judged: a signed sender without an auxiliary sender is judged
/// `signed_claim_handicap` blocks back; an unsigned claim names the auxiliary
/// sender to reward and is judged at the current block.
pub fn surcharge_claimant(origin: &Origin, aux_sender: Option<AccountId>, cfg: &RentConfig) -> (r: Result<
    (AccountId, BlockNumber),
    ContractError,
>)
    ensures
        match (*origin, aux_sender) {
            (Origin::Signed(who), None) => r matches Ok((w, h)) && w@ == who@ && h
                == cfg.signed_claim_handicap,
            (Origin::Unsigned, Some(aux)) => r matches Ok((w, h)) && w@ == aux@ && h == 0,
            _ => r == Err::<(AccountId, BlockNumber), ContractError>(
                ContractError::InvalidOriginForSurcharge,
            ),
        },
{
    match (origin, aux_sender) {
        (Origin::Signed(who), None) => Ok((who.clone(), cfg.signed_claim_handicap)),
        (Origin::Unsigned, Some(aux)) => Ok((aux, 0)),
        _ => Err(ContractError::InvalidOriginForSurcharge),
    }
}

impl Module {
    /// Lets a sender force a rent touch of `info` and be rewarded when it
    /// evicts the contract. A signed sender is judged
    /// `signed_claim_handicap` blocks back, so block producers (unsigned,
    /// naming an auxiliary sender) have the first chance. Returns the account
    /// to reward and the reward, or `None` when nothing was evicted.
    pub fn claim_surcharge(
        origin: &Origin,
        aux_sender: Option<AccountId>,
        info: &mut ContractInfo,
        balance: &mut Balance,
        current_block: BlockNumber,
        storage_root: &[u8],
        cfg: &RentConfig,
    ) -> (r: Result<Option<(AccountId, Balance)>, ContractError>)
        requires
            storage_root@.len() <= u32::MAX,
        ensures
            !((*origin is Signed && aux_sender is None) || (*origin is Unsigned && aux_sender is Some))
                ==> r == Err::<Option<(AccountId, Balance)>, ContractError>(
                ContractError::InvalidOriginForSurcharge,
            ) && *final(info) == *old(info) && *final(balance) == *old(balance),
            (*origin is Signed && aux_sender is None) ==> ((r matches Ok(Some((w, reward))) && w@
                == origin->Signed_0@ && reward == cfg.surcharge_reward) == will_evict(
                *old(info),
                *old(balance),
                judged_block(current_block, cfg.signed_claim_handicap),
                *cfg,
            )) && r is Ok,
            (*origin is Unsigned && aux_sender is Some) ==> ((r matches Ok(Some((w, reward))) && w@
                == aux_sender->Some_0@ && reward == cfg.surcharge_reward) == will_evict(
                *old(info),
                *old(balance),
                current_block,
                *cfg,
            )) && r is Ok,
    {
        let (rewarded, handicap) = match surcharge_claimant(origin, aux_sender, cfg) {
            Ok(c) => c,
            Err(e) => {
                return Err(e);
            },
        };
        proof {
            assert(judged_block(current_block, 0) == current_block);
        }
        if try_evict(info, balance, current_block, handicap, storage_root, cfg) == RentOutcome::Evicted {
            Ok(Some((rewarded, cfg.surcharge_reward)))
        } else {
            Ok(None)
        }
    }
}

/// Rent paid over consecutive touches adds up: with the per-block rent the
/// same at every balance passed through (no top-ups, constant storage) and
/// within the allowance, touching at block `b1` and then at `b2` leaves the
/// same balance as being `k = b2 - d` blocks of that rent poorer, as long as
/// neither touch evicts.
pub proof fn lemma_rent_monotone(
    storage_size: int,
    allowance: int,
    balance: int,
    d: int,
    b1: int,
    b2: int,
    rate: int,
    cfg: RentConfig,
)
    requires
        0 <= storage_size,
        0 <= balance <= u128::MAX,
        0 <= allowance,
        d <= b1 <= b2,
        rate == rent_per_block(storage_size, balance, cfg),
        rate == rent_per_block(
            storage_size,
            balance - rent_owed(storage_size, balance, allowance, b1 - d, cfg),
            cfg,
        ),
        rate <= allowance,
        rate * (b2 - d) <= u128::MAX,
        !evicts(rent_owed(storage_size, balance, allowance, b1 - d, cfg), balance, cfg),
        !evicts(
            rent_owed(
                storage_size,
                balance - rent_owed(storage_size, balance, allowance, b1 - d, cfg),
                allowance,
                b2 - b1,
                cfg,
            ),
            balance - rent_owed(storage_size, balance, allowance, b1 - d, cfg),
            cfg,
        ),
    ensures
        balance - rent_owed(storage_size, balance, allowance, b1 - d, cfg) - rent_owed(
            storage_size,
            balance - rent_owed(storage_size, balance, allowance, b1 - d, cfg),
            allowance,
            b2 - b1,
            cfg,
        ) == balance - rate * (b2 - d),
{
    let k1 = b1 - d;
    let k2 = b2 - b1;
    assert(0 <= rate) by {
        assert(effective_size(storage_size, balance, cfg.rent_deposit_offset as int) >= 0);
        assert(effective_size(storage_size, balance, cfg.rent_deposit_offset as int) * cfg.rent_byte_fee >= 0) by (nonlinear_arith)
            requires
                effective_size(storage_size, balance, cfg.rent_deposit_offset as int) >= 0,
                cfg.rent_byte_fee >= 0,
        ;
    }
    assert(rate * k1 <= rate * (b2 - d) && rate * k2 <= rate * (b2 - d)) by (nonlinear_arith)
        requires
            0 <= rate,
            0 <= k1,
            0 <= k2,
            k1 + k2 == b2 - d,
    ;
    assert(rate * k1 <= allowance * k1 && rate * k2 <= allowance * k2) by (nonlinear_arith)
        requires
            rate <= allowance,
            0 <= k1,
            0 <= k2,
    ;
    assert(rate * k1 + rate * k2 == rate * (b2 - d)) by (nonlinear_arith)
        requires
            k1 + k2 == b2 - d,
    ;
}

} // verus!
