//! The gas broker: turns a transaction's gas limit into a fee before
//! dispatch and refunds the unspent part afterwards.

use crate::contract_info::Balance;
use crate::error::ContractError;
use crate::gas::Gas;
use vstd::prelude::*;

verus! {

/// Block weight.
pub type Weight = u32;

/// Checks that a gas-carrying transaction fits in the block, buys its gas
/// before dispatch and refunds what is left after.
pub struct CheckBlockGasLimit;

/// The linear conversion of weight into a fee.
#[derive(Clone, Copy, Debug, PartialEq, Eq, Structural)]
pub struct WeightToFee {
    /// Fee for one unit of weight.
    pub fee_per_weight: u64,
}

/// The fee for `w` units of weight.
pub open spec fn fee_of(conv: WeightToFee, w: int) -> int {
    w * conv.fee_per_weight
}

impl WeightToFee {
    /// The fee for `w` units of weight.
    pub fn convert(&self, w: Weight) -> (r: Balance)
        ensures
            r == fee_of(*self, w as int),
    {
        assert(w as int * self.fee_per_weight as int <= u128::MAX) by (nonlinear_arith)
            requires
                w <= u32::MAX,
                self.fee_per_weight <= u64::MAX,
        ;
        (w as u128) * (self.fee_per_weight as u128)
    }
}

/// The dispatchable calls, as far as the broker cares.
#[derive(Clone, Copy, Debug, PartialEq, Eq, Structural)]
pub enum CallKind {
    /// A call into an account, with its gas limit.
    Call { gas_limit: Gas },
    /// An instantiation, with its gas limit.
    Instantiate { gas_limit: Gas },
    /// A call that carries no gas (schedule update, code upload, surcharge claim).
    Other,
}

/// What a transaction bought before dispatch, kept until it is settled.
#[derive(Clone, Copy, Debug, PartialEq, Eq, Structural)]
pub struct DynamicWeightData {
    /// The gas limit, as weight.
    pub gas_weight_limit: Weight,
    /// The fee withdrawn for it.
    pub fee: Balance,
    /// The price of one unit of gas for this transaction.
    pub gas_price: Balance,
    /// The signer's balance after the withdrawal.
    pub balance_after: Balance,
}

/// The price of one unit of gas: the fee divided by the weight, at least 1.
pub open spec fn gas_price_of(fee: int, weight: int) -> int {
    if weight == 0 || fee / weight < 1 {
        1
    } else {
        fee / weight
    }
}

impl CheckBlockGasLimit {
    /// Checks that a call fits in the block and buys its gas from a signer with
    /// `balance`, who must keep at least `existential_deposit`.
    pub fn perform_pre_dispatch_checks(
        call: &CallKind,
        max_block_weight: Weight,
        all_extrinsics_weight: Weight,
        conv: &WeightToFee,
        balance: Balance,
        existential_deposit: Balance,
    ) -> (r: Result<Option<DynamicWeightData>, ContractError>)
        ensures
            match *call {
                CallKind::Other => r == Ok::<Option<DynamicWeightData>, ContractError>(None),
                CallKind::Call { gas_limit } | CallKind::Instantiate { gas_limit } => {
                    let available = if max_block_weight >= all_extrinsics_weight {
                        max_block_weight - all_extrinsics_weight
                    } else {
                        0
                    };
                    let fee = fee_of(*conv, gas_limit as int);
                    if gas_limit > available {
                        r == Err::<Option<DynamicWeightData>, ContractError>(ContractError::ExhaustsResources)
                    } else if balance < fee + existential_deposit {
                        r == Err::<Option<DynamicWeightData>, ContractError>(ContractError::Payment)
                    } else {
                        r == Ok::<Option<DynamicWeightData>, ContractError>(
                            Some(
                                DynamicWeightData {
                                    gas_weight_limit: gas_limit as Weight,
                                    fee: fee as Balance,
                                    gas_price: gas_price_of(fee, gas_limit as int) as Balance,
                                    balance_after: (balance - fee) as Balance,
                                },
                            ),
                        )
                    }
                },
            },
    {
        let gas_limit = match call {
            CallKind::Other => {
                return Ok(None);
            },
            CallKind::Call { gas_limit } => *gas_limit,
            CallKind::Instantiate { gas_limit } => *gas_limit,
        };
        if gas_limit > u32::MAX as u64 {
            return Err(ContractError::ExhaustsResources);
        }
        let gas_weight_limit = gas_limit as u32;
        let available = max_block_weight.saturating_sub(all_extrinsics_weight);
        if gas_weight_limit > available {
            return Err(ContractError::ExhaustsResources);
        }
        let fee = conv.convert(gas_weight_limit);
        let gas_price = if gas_weight_limit == 0 {
            1
        } else {
            let p = fee / (gas_weight_limit as u128);
            if p < 1 {
                1
            } else {
                p
            }
        };
        if balance < fee || balance - fee < existential_deposit {
            return Err(ContractError::Payment);
        }
        Ok(Some(DynamicWeightData { gas_weight_limit, fee, gas_price, balance_after: balance - fee }))
    }
}

/// What happens after dispatch.
#[derive(Clone, Copy, Debug, PartialEq, Eq, Structural)]
pub struct GasSettlement {
    /// The fee for the unspent gas, given back to the signer.
    pub refund: Balance,
    /// The signer's balance after the refund.
    pub balance_after: Balance,
    /// What the signer paid for in the end, sent to the gas-payment sink.
    pub burned: Balance,
    /// Weight registered as used by the block.
    pub spent_weight: Weight,
}

impl CheckBlockGasLimit {
    /// Settles a transaction that bought gas with `charge`: the signer, now at
    /// `balance`, gets back the fee of `gas_left`, and `gas_spent` is booked
    /// as block weight.
    pub fn post_dispatch(charge: &DynamicWeightData, gas_left: Gas, gas_spent: Gas, conv: &WeightToFee, balance: Balance) -> (r:
        GasSettlement)
        requires
            gas_left + gas_spent == charge.gas_weight_limit,
            charge.fee == fee_of(*conv, charge.gas_weight_limit as int),
            balance + charge.fee <= u128::MAX,
        ensures
            r.refund == fee_of(*conv, gas_left as int),
            r.balance_after == balance + r.refund,
            r.burned == fee_of(*conv, gas_spent as int),
            r.spent_weight == gas_spent,
    {
        let unused_weight = gas_left as Weight;
        let spent_weight = gas_spent as Weight;
        let refund = conv.convert(unused_weight);
        proof {
            lemma_fee_additive(*conv, gas_left as int, gas_spent as int);
        }
        let burned = charge.fee - refund;
        GasSettlement { refund, balance_after: balance + refund, burned, spent_weight }
    }
}

/// The fee of two amounts of weight is the sum of their fees.
pub proof fn lemma_fee_additive(conv: WeightToFee, a: int, b: int)
    ensures
        fee_of(conv, a + b) == fee_of(conv, a) + fee_of(conv, b),
{
    assert((a + b) * conv.fee_per_weight == a * conv.fee_per_weight + b * conv.fee_per_weight)
        by (nonlinear_arith);
}

/// For a completed top-level call, the signer's balance falls by exactly the
/// fee of the gas spent plus the value it transferred out: the fee for the
/// whole limit is withdrawn before dispatch and the fee of what was left is
/// refunded after.
pub proof fn lemma_gas_conservation(
    conv: WeightToFee,
    gas_limit: int,
    gas_left: int,
    gas_spent: int,
    pre_balance: int,
    transfers_out: int,
)
    requires
        gas_left + gas_spent == gas_limit,
        0 <= gas_left,
        0 <= gas_spent,
    ensures
        ({
            let after_withdrawal = pre_balance - fee_of(conv, gas_limit);
            let after_call = after_withdrawal - transfers_out;
            let post_balance = after_call + fee_of(conv, gas_left);
            pre_balance - post_balance == fee_of(conv, gas_spent) + transfers_out
        }),
{
    lemma_fee_additive(conv, gas_left, gas_spent);
}

/// Computes the dispatch fee of a call from its encoded length.
#[derive(Clone, Copy, Debug, PartialEq, Eq, Structural)]
pub struct DefaultDispatchFeeComputor {
    /// Fee of any transaction.
    pub transaction_base_fee: Balance,
    /// Fee per encoded byte.
    pub transaction_byte_fee: Balance,
}

impl DefaultDispatchFeeComputor {
    /// The base fee plus the byte fee for each of `encoded_len` bytes.
    pub fn compute_dispatch_fee(&self, encoded_len: u32) -> (r: Balance)
        requires
            self.transaction_base_fee + self.transaction_byte_fee * encoded_len <= u128::MAX,
        ensures
            r == self.transaction_base_fee + self.transaction_byte_fee * encoded_len,
    {
        assert(0 <= self.transaction_byte_fee * encoded_len) by (nonlinear_arith);
        self.transaction_base_fee + self.transaction_byte_fee * (encoded_len as u128)
    }
}

} // verus!
