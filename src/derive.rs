//! Deterministic identities: contract addresses and child-trie ids.

use crate::contract_info::{AccountId, TrieId};
use crate::hashing::{append_bytes, blake2_256, blake2_256_of, le_bytes, u64_to_le_bytes};
use vstd::prelude::*;

verus! {

/// The address of a contract made from `code_hash` with constructor input
/// `data` by `origin`: `H(code_hash ++ H(data) ++ origin)`.
pub open spec fn contract_address(code_hash: Seq<u8>, data: Seq<u8>, origin: Seq<u8>) -> Seq<u8> {
    blake2_256_of(code_hash + blake2_256_of(data) + origin)
}

/// Derives the address of a new contract.
pub trait ContractAddressFor {
    /// The address of the contract that `origin` makes from `code_hash` with `data`.
    fn contract_address_for(code_hash: &[u8], data: &[u8], origin: &[u8]) -> AccountId;
}

/// Derives contract addresses from code, constructor input and instantiator.
pub struct SimpleAddressDeterminator;

impl ContractAddressFor for SimpleAddressDeterminator {
    /// The address of the contract that `origin` makes from `code_hash` with `data`.
    fn contract_address_for(code_hash: &[u8], data: &[u8], origin: &[u8]) -> (r: AccountId)
        ensures
            r@ == contract_address(code_hash@, data@, origin@),
    {
        let data_hash = blake2_256(data);
        let mut buf: Vec<u8> = Vec::new();
        append_bytes(&mut buf, code_hash);
        append_bytes(&mut buf, data_hash.as_slice());
        append_bytes(&mut buf, origin);
        assert(buf@ == code_hash@ + blake2_256_of(data@) + origin@);
        blake2_256(buf.as_slice())
    }
}

/// The reserved child-storage marker followed by `default:`.
pub open spec fn child_trie_prefix() -> Seq<u8> {
    seq![
        58u8, 99, 104, 105, 108, 100, 95, 115, 116, 111, 114, 97, 103, 101, 58,
        100, 101, 102, 97, 117, 108, 116, 58,
    ]
}

/// The counter value after one more instantiation.
pub open spec fn next_seed(counter: u64) -> u64 {
    if counter == u64::MAX {
        0
    } else {
        (counter + 1) as u64
    }
}

/// The bytes hashed to name the subtree of `account` for counter value `seed`.
pub open spec fn trie_preimage(account: Seq<u8>, seed: u64) -> Seq<u8> {
    account + le_bytes(seed as nat, 8)
}

/// The trie id of `account` for counter value `seed`.
pub open spec fn trie_id_of(account: Seq<u8>, seed: u64) -> Seq<u8> {
    child_trie_prefix() + blake2_256_of(trie_preimage(account, seed))
}

/// Names the private subtree of a new contract; two calls never give the
/// same id, and every id starts with the child-storage marker.
pub trait TrieIdGenerator {
    /// Advances `counter` and names a fresh subtree for `account_id`.
    fn trie_id(counter: &mut u64, account_id: &[u8]) -> TrieId;
}

/// Makes child-trie ids from a running counter and the owning account.
pub struct TrieIdFromParentCounter;

impl TrieIdGenerator for TrieIdFromParentCounter {
    /// Advances `counter` (wrapping) and names a fresh subtree for `account_id`.
    fn trie_id(counter: &mut u64, account_id: &[u8]) -> (r: TrieId)
        ensures
            *final(counter) == next_seed(*old(counter)),
            r@ == trie_id_of(account_id@, *final(counter)),
    {
        let new_seed = counter.wrapping_add(1);
        *counter = new_seed;
        let mut buf: Vec<u8> = Vec::new();
        append_bytes(&mut buf, account_id);
        let seed_bytes = u64_to_le_bytes(new_seed);
        append_bytes(&mut buf, seed_bytes.as_slice());
        let digest = blake2_256(buf.as_slice());
        let mut r: Vec<u8> = vec![
            58u8, 99, 104, 105, 108, 100, 95, 115, 116, 111, 114, 97, 103, 101, 58,
            100, 101, 102, 97, 117, 108, 116, 58,
        ];
        append_bytes(&mut r, digest.as_slice());
        assert(r@ == trie_id_of(account_id@, new_seed));
        r
    }
}

/// `256` to the power `n`.
pub open spec fn pow256(n: nat) -> nat
    decreases n,
{
    if n == 0 {
        1
    } else {
        256 * pow256((n - 1) as nat)
    }
}

proof fn lemma_pow256_pos(n: nat)
    ensures
        pow256(n) >= 1,
    decreases n,
{
    if n > 0 {
        lemma_pow256_pos((n - 1) as nat);
    }
}

proof fn lemma_le_bytes_injective(a: nat, b: nat, n: nat)
    requires
        a < pow256(n),
        b < pow256(n),
        le_bytes(a, n) == le_bytes(b, n),
    ensures
        a == b,
    decreases n,
{
    if n == 0 {
    } else {
        let m = (n - 1) as nat;
        lemma_pow256_pos(m);
        assert(le_bytes(a, n)[0] == (a % 256) as u8);
        assert(le_bytes(b, n)[0] == (b % 256) as u8);
        assert(le_bytes(a, n)[0] == le_bytes(b, n)[0]);
        assert(a % 256 == b % 256);
        assert(le_bytes(a / 256, m) =~= le_bytes(a, n).subrange(1, le_bytes(a, n).len() as int));
        assert(le_bytes(b / 256, m) =~= le_bytes(b, n).subrange(1, le_bytes(b, n).len() as int));
        assert(a / 256 < pow256(m)) by (nonlinear_arith)
            requires
                a < 256 * pow256(m),
        ;
        assert(b / 256 < pow256(m)) by (nonlinear_arith)
            requires
                b < 256 * pow256(m),
        ;
        lemma_le_bytes_injective(a / 256, b / 256, m);
        assert(a == 256 * (a / 256) + a % 256) by (nonlinear_arith);
        assert(b == 256 * (b / 256) + b % 256) by (nonlinear_arith);
    }
}

proof fn lemma_le_bytes_len(v: nat, n: nat)
    ensures
        le_bytes(v, n).len() == n,
    decreases n,
{
    if n > 0 {
        lemma_le_bytes_len(v / 256, (n - 1) as nat);
    }
}

/// The counter value after `k` instantiations starting from `start`.
pub open spec fn seed_after(start: u64, k: nat) -> u64 {
    ((start as nat + k) % 0x1_0000_0000_0000_0000) as u64
}

/// Within one run of at most 2^64 instantiations, no two of them hash the
/// same bytes to name a subtree, whichever accounts (of one length) own them:
/// the trie ids differ unless the 256-bit digest collides.
pub proof fn lemma_trie_preimages_distinct(
    account_i: Seq<u8>,
    account_j: Seq<u8>,
    start: u64,
    i: nat,
    j: nat,
)
    requires
        1 <= i < j <= 0x1_0000_0000_0000_0000,
        account_i.len() == account_j.len(),
    ensures
        trie_preimage(account_i, seed_after(start, i)) != trie_preimage(account_j, seed_after(start, j)),
{
    let si = seed_after(start, i);
    let sj = seed_after(start, j);
    assert(si != sj) by (nonlinear_arith)
        requires
            si == ((start as nat + i) % 0x1_0000_0000_0000_0000) as u64,
            sj == ((start as nat + j) % 0x1_0000_0000_0000_0000) as u64,
            1 <= i < j <= 0x1_0000_0000_0000_0000,
    ;
    if trie_preimage(account_i, si) == trie_preimage(account_j, sj) {
        let pi = trie_preimage(account_i, si);
        let pj = trie_preimage(account_j, sj);
        let n = account_i.len();
        lemma_le_bytes_len(si as nat, 8);
        lemma_le_bytes_len(sj as nat, 8);
        assert(pi.subrange(n as int, n as int + 8) =~= le_bytes(si as nat, 8));
        assert(pj.subrange(n as int, n as int + 8) =~= le_bytes(sj as nat, 8));
        assert(pow256(8) == 0x1_0000_0000_0000_0000) by {
            reveal_with_fuel(pow256, 9);
        }
        lemma_le_bytes_injective(si as nat, sj as nat, 8);
    }
}

/// Each step of the counter is the next value modulo 2^64, so a run of
/// calls to `trie_id` draws the seeds `seed_after(start, 1)`, `seed_after(start, 2)`, ...
pub proof fn lemma_next_seed_steps(start: u64, k: nat)
    ensures
        next_seed(seed_after(start, k)) == seed_after(start, k + 1),
{
    let s = seed_after(start, k);
    assert(next_seed(s) == seed_after(start, k + 1)) by (nonlinear_arith)
        requires
            s == ((start as nat + k) % 0x1_0000_0000_0000_0000) as u64,
            next_seed(s) == (if s == u64::MAX { 0 } else { (s + 1) as u64 }),
            seed_after(start, k + 1) == ((start as nat + k + 1) % 0x1_0000_0000_0000_0000) as u64,
    ;
}

} // verus!
