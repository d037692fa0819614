use paint_contracts::broker::{
    CallKind, CheckBlockGasLimit, DefaultDispatchFeeComputor, WeightToFee,
};
use paint_contracts::contract_info::{ContractInfo, RawAliveContractInfo, RawTombstoneContractInfo};
use paint_contracts::derive::{
    ContractAddressFor, SimpleAddressDeterminator, TrieIdFromParentCounter, TrieIdGenerator,
};
use paint_contracts::error::{ContractError, Event, Origin};
use paint_contracts::exec::{
    conclude_top_level, new_contract_info, transfer, updated_storage_size, Config, DeferredAction,
    Frame, GetStorageError, Module,
};
use paint_contracts::gas::{GasMeter, GasMeterResult};
use paint_contracts::hashing::{bytes_eq, u64_to_le_bytes};
use paint_contracts::rent::{compute_rent, surcharge_claimant, try_evict, RentConfig, RentOutcome};
use paint_contracts::schedule::{apply_updates, Schedule};
use parity_scale_codec::Encode;
use std::collections::HashSet;

const EMPTY_BLAKE2_256: [u8; 32] = [
    0x0e, 0x57, 0x51, 0xc0, 0x26, 0xe5, 0x43, 0xb2, 0xe8, 0xab, 0x2e, 0xb0, 0x60, 0x99, 0xda, 0xa1,
    0xd1, 0xe5, 0xdf, 0x47, 0x77, 0x8f, 0x77, 0x87, 0xfa, 0xab, 0x45, 0xcd, 0xf1, 0x2f, 0xe3, 0xa8,
];

fn config(max_depth: u32) -> Config {
    Config::preload(Schedule::default(), 1, max_depth, 16_384, 0, 0, 0)
}

fn alive(trie: u8, storage_size: u32, allowance: u128, deduct_block: u64) -> RawAliveContractInfo {
    RawAliveContractInfo {
        trie_id: vec![trie; 4],
        storage_size,
        code_hash: vec![7u8; 32],
        rent_allowance: allowance,
        deduct_block,
        last_write: None,
    }
}

#[test]
fn schedule_defaults_are_version_zero() {
    let s = Schedule::default();
    assert_eq!(s.version, 0);
    assert_eq!(s.call_base_cost, 135);
    assert_eq!(s.instantiate_base_cost, 175);
    assert_eq!(s.max_stack_height, 65_536);
    assert_eq!(s.max_memory_pages, 16);
    assert_eq!(s.max_table_size, 16_384);
    assert_eq!(s.max_event_topics, 4);
    assert_eq!(s.max_subject_len, 32);
    assert!(!s.enable_println);
}

#[test]
fn schedule_update_ordering() {
    let mut current = Schedule::default();
    let mut events = Vec::new();
    for version in [0u32, 1, 1] {
        let new = Schedule { version, ..Schedule::default() };
        match Module::update_schedule(&Origin::Root, &mut current, new) {
            Ok(e) => events.push(e),
            Err(e) => assert_eq!(e, ContractError::ScheduleStaleOrEqual),
        }
    }
    assert_eq!(events, vec![Event::ScheduleUpdated(1)]);
    assert_eq!(current.version, 1);
}

#[test]
fn schedule_update_needs_root() {
    let mut current = Schedule::default();
    let new = Schedule { version: 5, ..Schedule::default() };
    let r = Module::update_schedule(&Origin::Signed(vec![1]), &mut current, new);
    assert_eq!(r, Err(ContractError::BadOrigin));
    assert_eq!(current.version, 0);
}

#[test]
fn schedule_run_of_updates() {
    let mut current = Schedule::default();
    let updates: Vec<Schedule> =
        [0u32, 1, 1, 3, 2, 4].iter().map(|v| Schedule { version: *v, ..Schedule::default() }).collect();
    let accepted = apply_updates(&mut current, &updates);
    assert_eq!(accepted, vec![false, true, false, true, false, true]);
    assert_eq!(current.version, 4);
}

#[test]
fn gas_meter_charges_and_sticks_when_exhausted() {
    let mut m = GasMeter::with_limit(100, 2);
    assert_eq!(m.charge(30), GasMeterResult::Proceed);
    assert_eq!(m.gas_left(), 70);
    assert_eq!(m.spent(), 30);
    assert_eq!(m.charge(71), GasMeterResult::OutOfGas);
    assert_eq!(m.gas_left(), 0);
    assert_eq!(m.charge(0), GasMeterResult::OutOfGas);
    assert_eq!(m.spent(), 100);
    assert_eq!(m.gas_price(), 2);
}

#[test]
fn nested_meter_is_bounded_by_what_is_left() {
    let mut m = GasMeter::with_limit(100, 1);
    assert_eq!(m.charge(60), GasMeterResult::Proceed);
    let child = m.nested(500);
    assert_eq!(child.gas_left(), 40);
    assert_eq!(m.gas_left(), 0);
    let spent = m.absorb_nested(child);
    assert_eq!(spent, 0);
    assert_eq!(m.gas_left(), 40);
}

#[test]
fn out_of_gas_subcall_is_isolated() {
    let cfg = config(32);
    let mut meter = GasMeter::with_limit(10_000, 1);
    let mut a = Frame::top_level();
    // A instantiates B, which succeeds.
    let mut b = a.nested(&cfg).unwrap();
    b.set_storage(vec![2], vec![1], Some(vec![9]), &cfg).unwrap();
    a.conclude(b, true);
    a.set_storage(vec![1], vec![1], Some(vec![1]), &cfg).unwrap();
    a.defer(DeferredAction::DepositEvent { topics: vec![], event: Event::Contract(vec![1], vec![]) });
    // A calls B with gas 1; B runs out of gas.
    let mut b_meter = meter.nested(1);
    let mut b = a.nested(&cfg).unwrap();
    assert_eq!(b_meter.charge(5), GasMeterResult::OutOfGas);
    b.set_storage(vec![2], vec![1], Some(vec![0]), &cfg).unwrap();
    b.defer(DeferredAction::DepositEvent { topics: vec![], event: Event::Contract(vec![2], vec![]) });
    a.conclude(b, false);
    assert_eq!(meter.absorb_nested(b_meter), 1);
    assert_eq!(meter.spent(), 1);
    let out = conclude_top_level(a, true, &meter);
    assert_eq!(out.commit.len(), 2);
    assert_eq!(out.commit[0].value, Some(vec![9]));
    assert_eq!(out.commit[1].account, vec![1]);
    assert_eq!(out.deferred.len(), 1);
    assert_eq!(out.gas_spent, 1);
    assert_eq!(out.gas_left, 9_999);
}

#[test]
fn recursion_beyond_max_depth_fails() {
    let cfg = config(3);
    let cost = cfg.schedule.call_base_cost;
    let mut meter = GasMeter::with_limit(10_000, 1);
    let mut frames = vec![Frame::top_level()];
    let mut error = None;
    loop {
        match frames.last().unwrap().nested(&cfg) {
            Ok(f) => {
                assert_eq!(meter.charge(cost), GasMeterResult::Proceed);
                frames.push(f);
            }
            Err(e) => {
                error = Some(e);
                break;
            }
        }
    }
    assert_eq!(error, Some(ContractError::MaxCallDepthReached));
    assert_eq!(frames.len(), 4);
    assert_eq!(meter.spent(), 3 * 135);
    while frames.len() > 1 {
        let child = frames.pop().unwrap();
        frames.last_mut().unwrap().conclude(child, false);
    }
    let out = conclude_top_level(frames.pop().unwrap(), false, &meter);
    assert!(out.commit.is_empty());
    assert!(out.deferred.is_empty());
}

#[test]
fn value_too_large_is_refused() {
    let cfg = config(32);
    let mut f = Frame::top_level();
    let r = f.set_storage(vec![1], vec![1], Some(vec![0u8; 16_385]), &cfg);
    assert_eq!(r, Err(ContractError::ValueTooLarge));
    assert!(f.writes.is_empty());
    assert_eq!(f.set_storage(vec![1], vec![1], Some(vec![0u8; 16_384]), &cfg), Ok(()));
}

#[test]
fn failed_top_level_commits_nothing() {
    let cfg = config(32);
    let meter = GasMeter::with_limit(50, 1);
    let mut root = Frame::top_level();
    root.set_storage(vec![1], vec![1], None, &cfg).unwrap();
    let out = conclude_top_level(root, false, &meter);
    assert!(out.commit.is_empty());
    assert_eq!(out.gas_left, 50);
    assert_eq!(out.gas_spent, 0);
}

#[test]
fn transfer_rules() {
    let cfg = config(32);
    assert_eq!(transfer(1_000, 0, 100, false, &cfg), Ok((900, 100)));
    assert_eq!(transfer(50, 0, 100, false, &cfg), Err(ContractError::BalanceTooLow));
    assert_eq!(transfer(50, 0, 0, true, &cfg), Err(ContractError::BelowExistentialDeposit));
    assert_eq!(transfer(50, u128::MAX, 1, false, &cfg), Err(ContractError::BalanceTooLow));
}

#[test]
fn simple_transfer_via_call() {
    let cfg = config(32);
    let conv = WeightToFee { fee_per_weight: 0 };
    let call = CallKind::Call { gas_limit: 10_000 };
    let charge = CheckBlockGasLimit::perform_pre_dispatch_checks(&call, 1_000_000, 0, &conv, 1_000, 1).unwrap().unwrap();
    assert_eq!(charge.fee, 0);
    assert_eq!(charge.gas_price, 1);
    let mut meter = GasMeter::with_limit(10_000, charge.gas_price);
    assert_eq!(meter.charge(cfg.schedule.call_base_cost), GasMeterResult::Proceed);
    let (s, c) = transfer(charge.balance_after, 0, 100, false, &cfg).unwrap();
    assert_eq!(c, 100);
    let mut root = Frame::top_level();
    root.defer(DeferredAction::DepositEvent {
        topics: vec![],
        event: Event::Transfer(vec![1], vec![2], 100),
    });
    let out = conclude_top_level(root, true, &meter);
    let settled = CheckBlockGasLimit::post_dispatch(&charge, out.gas_left, out.gas_spent, &conv, s);
    assert_eq!(settled.balance_after, 900);
    assert_eq!(out.deferred.len(), 1);
}

#[test]
fn gas_fee_and_refund_add_up() {
    let conv = WeightToFee { fee_per_weight: 3 };
    let call = CallKind::Instantiate { gas_limit: 1_000 };
    let charge = CheckBlockGasLimit::perform_pre_dispatch_checks(&call, 5_000, 1_000, &conv, 10_000, 1).unwrap().unwrap();
    assert_eq!(charge.fee, 3_000);
    assert_eq!(charge.gas_price, 3);
    assert_eq!(charge.balance_after, 7_000);
    let settled = CheckBlockGasLimit::post_dispatch(&charge, 600, 400, &conv, charge.balance_after);
    assert_eq!(settled.refund, 1_800);
    assert_eq!(settled.burned, 1_200);
    assert_eq!(settled.balance_after, 8_800);
    assert_eq!(settled.spent_weight, 400);
    assert_eq!(10_000 - settled.balance_after, conv.convert(400));
}

#[test]
fn pre_dispatch_rejections() {
    let conv = WeightToFee { fee_per_weight: 1 };
    let big = CallKind::Call { gas_limit: 5_000 };
    assert_eq!(
        CheckBlockGasLimit::perform_pre_dispatch_checks(&big, 10_000, 6_000, &conv, 1_000_000, 1),
        Err(ContractError::ExhaustsResources)
    );
    let huge = CallKind::Call { gas_limit: u64::MAX };
    assert_eq!(
        CheckBlockGasLimit::perform_pre_dispatch_checks(&huge, u32::MAX, 0, &conv, 1_000_000, 1),
        Err(ContractError::ExhaustsResources)
    );
    assert_eq!(
        CheckBlockGasLimit::perform_pre_dispatch_checks(&big, 10_000, 0, &conv, 5_000, 1),
        Err(ContractError::Payment)
    );
    assert_eq!(CheckBlockGasLimit::perform_pre_dispatch_checks(&CallKind::Other, 0, 0, &conv, 0, 0), Ok(None));
    let zero = CallKind::Call { gas_limit: 0 };
    let c = CheckBlockGasLimit::perform_pre_dispatch_checks(&zero, 10, 0, &conv, 10, 1).unwrap().unwrap();
    assert_eq!(c.gas_price, 1);
}

#[test]
fn dispatch_fee_is_base_plus_bytes() {
    let f = DefaultDispatchFeeComputor { transaction_base_fee: 10, transaction_byte_fee: 3 };
    assert_eq!(f.compute_dispatch_fee(7), 31);
}

#[test]
fn rent_eviction() {
    let cfg = RentConfig::default();
    let code_hash = vec![7u8; 32];
    let root = vec![5u8; 32];
    let mut info = ContractInfo::Alive(alive(1, 100, 1_000, 0));
    let mut balance: u128 = 20;
    let out = try_evict(&mut info, &mut balance, 1, 0, &root, &cfg);
    assert_eq!(out, RentOutcome::Evicted);
    assert_eq!(balance, 16);
    let expected = RawTombstoneContractInfo::new(&root, &code_hash);
    assert_eq!(info, ContractInfo::Tombstone(expected));
    assert_eq!(try_evict(&mut info, &mut balance, 2, 0, &root, &cfg), RentOutcome::NotAlive);
}

#[test]
fn rent_is_paid_per_block() {
    let cfg = RentConfig::default();
    let root = vec![5u8; 32];
    let mut info = ContractInfo::Alive(alive(1, 10, 1_000, 0));
    let mut balance: u128 = 500;
    assert_eq!(try_evict(&mut info, &mut balance, 1, 0, &root, &cfg), RentOutcome::Paid);
    assert_eq!(balance, 460);
    assert_eq!(try_evict(&mut info, &mut balance, 3, 0, &root, &cfg), RentOutcome::Paid);
    assert_eq!(balance, 500 - 3 * 40);
    assert_eq!(info.as_alive().unwrap().deduct_block, 3);
    // Judged two blocks back: nothing more is due.
    assert_eq!(try_evict(&mut info, &mut balance, 5, 2, &root, &cfg), RentOutcome::Paid);
    assert_eq!(balance, 380);
}

#[test]
fn rent_respects_deposit_offset_and_allowance() {
    let cfg = RentConfig::default();
    // 2 000 balance frees 2 bytes: 8 effective bytes, 32 per block.
    assert_eq!(compute_rent(&alive(1, 10, 1_000, 0), 2_000, 2, &cfg), 64);
    // The allowance caps each block's rent.
    assert_eq!(compute_rent(&alive(1, 10, 5, 0), 500, 2, &cfg), 10);
    // Fully offset storage pays nothing.
    assert_eq!(compute_rent(&alive(1, 10, 1_000, 0), 10_000, 9, &cfg), 0);
}

#[test]
fn surcharge_claims() {
    let cfg = RentConfig::default();
    assert_eq!(surcharge_claimant(&Origin::Signed(vec![1]), None, &cfg), Ok((vec![1], 2)));
    assert_eq!(surcharge_claimant(&Origin::Unsigned, Some(vec![3]), &cfg), Ok((vec![3], 0)));
    assert_eq!(
        surcharge_claimant(&Origin::Signed(vec![1]), Some(vec![3]), &cfg),
        Err(ContractError::InvalidOriginForSurcharge)
    );
    assert_eq!(
        surcharge_claimant(&Origin::Root, None, &cfg),
        Err(ContractError::InvalidOriginForSurcharge)
    );
}

#[test]
fn restore_from_donor() {
    let code_hash = vec![7u8; 32];
    let root = vec![42u8; 32];
    let donor = alive(9, 120, 0, 3);
    let tombstone = RawTombstoneContractInfo::new(&root, &code_hash);
    let (d, t) = Module::restore_preflight(
        Some(ContractInfo::Alive(donor.clone())),
        Some(ContractInfo::Tombstone(tombstone.clone())),
        10,
    )
    .unwrap();
    let (info, balance) = Module::restore_to(d, &t, code_hash.clone(), 0, 0, &[], &root, 300, 16, 10).unwrap();
    assert_eq!(info.trie_id, donor.trie_id);
    assert_eq!(info.storage_size, 120);
    assert_eq!(info.code_hash, code_hash);
    assert_eq!(info.deduct_block, 10);
    assert_eq!(info.last_write, None);
    assert_eq!(balance, 316);
}

#[test]
fn restore_with_delta_reduces_size() {
    let code_hash = vec![7u8; 32];
    let root = vec![42u8; 32];
    let tombstone = RawTombstoneContractInfo::new(&root, &code_hash);
    let (info, _) =
        Module::restore_to(alive(9, 120, 0, 3), &tombstone, code_hash, 5, 2, &[30, 10], &root, 0, 0, 11).unwrap();
    assert_eq!(info.storage_size, 80);
    assert_eq!(info.last_write, Some(11));
    assert_eq!(info.rent_allowance, 5);
}

#[test]
fn restore_mismatch_and_refusals() {
    let code_hash = vec![7u8; 32];
    let root = vec![42u8; 32];
    let tombstone = RawTombstoneContractInfo::new(&root, &code_hash);
    let mut perturbed = root.clone();
    perturbed[0] ^= 1;
    assert_eq!(
        Module::restore_to(alive(9, 120, 0, 3), &tombstone, code_hash.clone(), 0, 1, &[4], &perturbed, 0, 0, 10),
        Err(ContractError::TombstoneMismatch)
    );
    let tomb = Some(ContractInfo::Tombstone(tombstone.clone()));
    assert_eq!(Module::restore_preflight(None, tomb.clone(), 1), Err(ContractError::ContractNotFound));
    assert_eq!(
        Module::restore_preflight(tomb.clone(), tomb.clone(), 1),
        Err(ContractError::ContractIsTombstone)
    );
    let mut written = alive(9, 1, 0, 0);
    written.last_write = Some(4);
    assert_eq!(
        Module::restore_preflight(Some(ContractInfo::Alive(written)), tomb.clone(), 4),
        Err(ContractError::RestoreDonorWrittenThisBlock)
    );
    assert_eq!(
        Module::restore_preflight(
            Some(ContractInfo::Alive(alive(9, 1, 0, 0))),
            Some(ContractInfo::Alive(alive(8, 1, 0, 0))),
            4
        ),
        Err(ContractError::DestinationNotTombstone)
    );
}

#[test]
fn tombstone_hashes_encoded_root_and_code_hash() {
    let root = vec![1u8, 2, 3];
    let code_hash = vec![4u8; 32];
    let t = RawTombstoneContractInfo::new(&root, &code_hash);
    let mut buf = root.as_slice().encode();
    assert_eq!(buf[0], 12);
    buf.extend_from_slice(&code_hash);
    assert_eq!(t.0, sp_crypto_hashing::blake2_256(&buf).to_vec());
    assert!(t.same_as(&t.clone()));
}

#[test]
fn address_is_deterministic() {
    let code = vec![1u8; 32];
    let a1 = SimpleAddressDeterminator::contract_address_for(&code, b"input", b"origin");
    let a2 = SimpleAddressDeterminator::contract_address_for(&code, b"input", b"origin");
    let a3 = SimpleAddressDeterminator::contract_address_for(&code, b"inpuT", b"origin");
    let a4 = SimpleAddressDeterminator::contract_address_for(&code, b"input", b"origiN");
    assert_eq!(a1, a2);
    assert_eq!(a1.len(), 32);
    assert_ne!(a1, a3);
    assert_ne!(a1, a4);
    let mut buf = code.clone();
    buf.extend_from_slice(&sp_crypto_hashing::blake2_256(b"input"));
    buf.extend_from_slice(b"origin");
    assert_eq!(a1, sp_crypto_hashing::blake2_256(&buf).to_vec());
}

#[test]
fn trie_ids_are_prefixed_and_fresh() {
    let mut counter: u64 = 0;
    let id = TrieIdFromParentCounter::trie_id(&mut counter, b"alice");
    assert_eq!(counter, 1);
    assert!(id.starts_with(b":child_storage:default:"));
    assert_eq!(id.len(), 23 + 32);
    let mut buf = b"alice".to_vec();
    buf.extend_from_slice(&1u64.to_le_bytes());
    assert_eq!(&id[23..], &sp_crypto_hashing::blake2_256(&buf)[..]);
    let mut wrap: u64 = u64::MAX;
    TrieIdFromParentCounter::trie_id(&mut wrap, b"alice");
    assert_eq!(wrap, 0);
}

#[test]
fn trie_ids_do_not_repeat() {
    let mut counter: u64 = 0;
    let mut seen = HashSet::new();
    for _ in 0..100_000 {
        assert!(seen.insert(TrieIdFromParentCounter::trie_id(&mut counter, b"deployer")));
    }
}

#[test]
fn le_bytes_and_equality_helpers() {
    assert_eq!(u64_to_le_bytes(0x0102030405060708), 0x0102030405060708u64.to_le_bytes().to_vec());
    assert!(bytes_eq(b"abc", b"abc"));
    assert!(!bytes_eq(b"abc", b"abd"));
    assert!(!bytes_eq(b"abc", b"ab"));
}

#[test]
fn storage_lookup() {
    let info = ContractInfo::Alive(alive(3, 0, 0, 0));
    let (trie, key) = Module::get_storage(Some(info.clone()), b"").unwrap();
    assert_eq!(trie, vec![3u8; 4]);
    assert_eq!(key, EMPTY_BLAKE2_256.to_vec());
    assert!(matches!(Module::get_storage(None, b""), Err(GetStorageError::ContractDoesntExist)));
    let tomb = ContractInfo::Tombstone(RawTombstoneContractInfo(vec![0; 32]));
    assert!(matches!(Module::get_storage(Some(tomb.clone()), b""), Err(GetStorageError::IsTombstone)));
    assert_eq!(Module::on_free_balance_zero(Some(info)), Some(vec![3u8; 4]));
    assert_eq!(Module::on_free_balance_zero(Some(tomb)), None);
    assert_eq!(Module::on_free_balance_zero(None), None);
}

#[test]
fn contract_info_accessors() {
    let mut info = new_contract_info(vec![1], vec![2], 10, 7, 8);
    assert_eq!(info.as_alive().unwrap().storage_size, 8);
    assert_eq!(info.as_alive().unwrap().last_write, None);
    assert!(info.as_tombstone().is_none());
    info.as_alive_mut().unwrap().storage_size = 20;
    assert_eq!(info.clone().get_alive().unwrap().storage_size, 20);
    assert!(info.clone().get_tombstone().is_none());
    let mut tomb = ContractInfo::Tombstone(RawTombstoneContractInfo(vec![1]));
    assert!(tomb.as_alive_mut().is_none());
    tomb.as_tombstone_mut().unwrap().0 = vec![2];
    assert_eq!(tomb.get_tombstone(), Some(RawTombstoneContractInfo(vec![2])));
}

#[test]
fn surcharge_claim_rewards_eviction() {
    let cfg = RentConfig::default();
    let root = vec![5u8; 32];
    // Judged two blocks back, a signed claim at block 2 sees nothing due.
    let mut info = ContractInfo::Alive(alive(1, 100, 1_000, 0));
    let mut balance: u128 = 20;
    let r = Module::claim_surcharge(&Origin::Signed(vec![1]), None, &mut info, &mut balance, 2, &root, &cfg);
    assert_eq!(r, Ok(None));
    assert!(info.as_alive().is_some());
    let r = Module::claim_surcharge(&Origin::Signed(vec![1]), None, &mut info, &mut balance, 3, &root, &cfg);
    assert_eq!(r, Ok(Some((vec![1], 150))));
    assert!(info.as_tombstone().is_some());
    let mut info = ContractInfo::Alive(alive(1, 100, 1_000, 0));
    let mut balance: u128 = 20;
    let r = Module::claim_surcharge(&Origin::Unsigned, Some(vec![4]), &mut info, &mut balance, 1, &root, &cfg);
    assert_eq!(r, Ok(Some((vec![4], 150))));
    assert_eq!(balance, 16);
    let r = Module::claim_surcharge(&Origin::Unsigned, None, &mut info, &mut balance, 1, &root, &cfg);
    assert_eq!(r, Err(ContractError::InvalidOriginForSurcharge));
}

#[test]
fn call_enters_frame_and_moves_value() {
    let cfg = config(2);
    let root = Frame::top_level();
    let entered = root.begin_call(&cfg, 1_000, 0, 100, true).unwrap();
    assert_eq!(entered.frame.depth, 1);
    assert_eq!((entered.caller_balance, entered.callee_balance), (900, 100));
    assert_eq!(root.begin_call(&cfg, 10, 0, 100, false).err(), Some(ContractError::BalanceTooLow));
    let second = entered.frame.begin_call(&cfg, 900, 100, 0, false).unwrap();
    assert_eq!(second.frame.depth, 2);
    assert_eq!(
        second.frame.begin_call(&cfg, 900, 100, 0, false).err(),
        Some(ContractError::MaxCallDepthReached)
    );
}

#[test]
fn instantiate_enters_frame_with_fresh_contract() {
    let cfg = config(1);
    let root = Frame::top_level();
    let code_hash = vec![7u8; 32];
    let address = SimpleAddressDeterminator::contract_address_for(&code_hash, b"", b"alice");
    let mut counter: u64 = 41;
    let (entered, info) = root
        .begin_instantiate(&cfg, &address, false, &mut counter, code_hash.clone(), 50, 9, 8, 1_000, 300)
        .unwrap();
    assert_eq!(counter, 42);
    assert_eq!((entered.caller_balance, entered.callee_balance), (700, 300));
    let a = info.as_alive().unwrap();
    assert_eq!(a.storage_size, 8);
    assert_eq!(a.deduct_block, 9);
    assert_eq!(a.rent_allowance, 50);
    assert_eq!(a.last_write, None);
    let mut c2: u64 = 41;
    assert_eq!(a.trie_id, TrieIdFromParentCounter::trie_id(&mut c2, &address));
    let dup = root.begin_instantiate(&cfg, &address, true, &mut counter, code_hash.clone(), 0, 9, 8, 1_000, 300);
    assert_eq!(dup.err(), Some(ContractError::DuplicateContract));
    assert_eq!(counter, 42);
    let deep = entered.frame.begin_instantiate(&cfg, &address, false, &mut counter, code_hash.clone(), 0, 9, 8, 1_000, 300);
    assert_eq!(deep.err(), Some(ContractError::MaxCallDepthReached));
    assert_eq!(counter, 42);
    let poor = root.begin_instantiate(&cfg, &address, false, &mut counter, code_hash, 0, 9, 8, 1_000, 0);
    assert_eq!(poor.err(), Some(ContractError::BelowExistentialDeposit));
}

#[test]
fn schedule_cost_formulas() {
    let s = Schedule::default();
    assert_eq!(s.event_cost(2, 10), Some(1 + 2 + 10));
    assert_eq!(s.grow_mem_cost_of(3), Some(3));
    assert_eq!(s.sandbox_read_cost(7), Some(7));
    assert_eq!(s.sandbox_write_cost(0), Some(0));
    assert_eq!(s.return_data_cost(64), Some(64));
    let pricey = Schedule { event_per_topic_cost: u64::MAX, ..Schedule::default() };
    assert_eq!(pricey.event_cost(2, 0), None);
    assert_eq!(pricey.event_cost(1, 0), None);
    assert_eq!(pricey.event_cost(0, 5), Some(6));
}

#[test]
fn unaffordable_cost_runs_meter_out() {
    let s = Schedule { grow_mem_cost: u64::MAX, ..Schedule::default() };
    let mut m = GasMeter::with_limit(1_000, 1);
    assert_eq!(m.charge_cost(Schedule::default().event_cost(1, 4)), GasMeterResult::Proceed);
    assert_eq!(m.gas_left(), 994);
    assert_eq!(m.charge_cost(s.grow_mem_cost_of(2)), GasMeterResult::OutOfGas);
    assert_eq!(m.gas_left(), 0);
    assert_eq!(m.charge(0), GasMeterResult::OutOfGas);
}

#[test]
fn reads_see_latest_write_of_frame() {
    let cfg = config(8);
    let mut parent = Frame::top_level();
    parent.set_storage(vec![1], vec![5], Some(vec![10]), &cfg).unwrap();
    parent.set_storage(vec![1], vec![6], Some(vec![11]), &cfg).unwrap();
    assert_eq!(parent.read_own(&[1], &[5]), Some(Some(vec![10])));
    assert_eq!(parent.read_own(&[2], &[5]), None);
    let mut child = parent.nested(&cfg).unwrap();
    child.set_storage(vec![1], vec![5], None, &cfg).unwrap();
    assert_eq!(child.read_own(&[1], &[6]), None);
    parent.conclude(child, true);
    assert_eq!(parent.read_own(&[1], &[5]), Some(None));
    assert_eq!(parent.read_own(&[1], &[6]), Some(Some(vec![11])));
    let mut reverted = parent.nested(&cfg).unwrap();
    reverted.set_storage(vec![1], vec![6], Some(vec![99]), &cfg).unwrap();
    parent.conclude(reverted, false);
    assert_eq!(parent.read_own(&[1], &[6]), Some(Some(vec![11])));
}

#[test]
fn storage_size_accounting() {
    assert_eq!(updated_storage_size(100, None, Some(20)), 120);
    assert_eq!(updated_storage_size(100, Some(30), Some(20)), 90);
    assert_eq!(updated_storage_size(100, Some(30), None), 70);
    assert_eq!(updated_storage_size(10, Some(30), Some(5)), 0);
    assert_eq!(updated_storage_size(10, Some(30), Some(25)), 5);
    assert_eq!(updated_storage_size(u32::MAX, None, Some(1)), u32::MAX);
}
