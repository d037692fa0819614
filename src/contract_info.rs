//! What the chain records for each contract account: a live contract with its
//! child trie, or the tombstone left after eviction.

use crate::hashing::{append_bytes, blake2_256, blake2_256_of, scale_bytes, scale_encode_bytes};
use vstd::prelude::*;

verus! {

/// Name of a contract's private key/value subtree.
pub type TrieId = Vec<u8>;

/// Digest of a contract's pristine code.
pub type CodeHash = Vec<u8>;

/// Identity of an account.
pub type AccountId = Vec<u8>;

/// An amount of currency.
pub type Balance = u128;

/// A block height.
pub type BlockNumber = u64;

/// A live contract.
#[derive(Clone, Debug, PartialEq, Eq)]
pub struct RawAliveContractInfo {
    /// Unique id of the contract's subtree.
    pub trie_id: TrieId,
    /// Octets stored, used for rent.
    pub storage_size: u32,
    /// The code run on a call.
    pub code_hash: CodeHash,
    /// The most rent the contract pays before it is evicted.
    pub rent_allowance: Balance,
    /// The block through which rent has been paid.
    pub deduct_block: BlockNumber,
    /// The last block in which the child storage was written.
    pub last_write: Option<BlockNumber>,
}

/// The hash left behind by an evicted contract.
#[derive(Clone, Debug, PartialEq, Eq)]
pub struct RawTombstoneContractInfo(pub Vec<u8>);

/// A contract account: alive, or a tombstone.
#[derive(Clone, Debug, PartialEq, Eq)]
pub enum ContractInfo {
    Alive(RawAliveContractInfo),
    Tombstone(RawTombstoneContractInfo),
}

/// The tombstone hash of a subtree with root `root` and code `code_hash`:
/// the digest of the encoded root followed by the code hash.
pub open spec fn tombstone_hash(root: Seq<u8>, code_hash: Seq<u8>) -> Seq<u8> {
    blake2_256_of(scale_bytes(root) + code_hash)
}

impl RawTombstoneContractInfo {
    /// The tombstone of a subtree whose root is `storage_root`, run by `code_hash`.
    pub fn new(storage_root: &[u8], code_hash: &[u8]) -> (r: Self)
        requires
            storage_root@.len() <= u32::MAX,
        ensures
            r.0@ == tombstone_hash(storage_root@, code_hash@),
    {
        let mut buf = scale_encode_bytes(storage_root);
        append_bytes(&mut buf, code_hash);
        RawTombstoneContractInfo(blake2_256(buf.as_slice()))
    }

    /// Whether two tombstones hold the same hash.
    pub fn same_as(&self, other: &RawTombstoneContractInfo) -> (r: bool)
        ensures
            r == (self.0@ == other.0@),
    {
        crate::hashing::bytes_eq(self.0.as_slice(), other.0.as_slice())
    }
}

impl ContractInfo {
    /// The live record, if the contract is alive.
    pub fn get_alive(self) -> (r: Option<RawAliveContractInfo>)
        ensures
            r == (match self {
                ContractInfo::Alive(a) => Some(a),
                ContractInfo::Tombstone(_) => None,
            }),
    {
        if let ContractInfo::Alive(alive) = self {
            Some(alive)
        } else {
            None
        }
    }

    /// A reference to the live record, if the contract is alive.
    pub fn as_alive(&self) -> (r: Option<&RawAliveContractInfo>)
        ensures
            r == (match self {
                ContractInfo::Alive(a) => Some(a),
                ContractInfo::Tombstone(_) => None,
            }),
    {
        if let ContractInfo::Alive(alive) = self {
            Some(alive)
        } else {
            None
        }
    }

    /// A mutable reference to the live record, if the contract is alive.
    pub fn as_alive_mut(&mut self) -> (r: Option<&mut RawAliveContractInfo>)
        ensures
            (*old(self) is Alive) == (r is Some),
            r matches Some(a) ==> *a == (*old(self))->Alive_0 && *final(self) == ContractInfo::Alive(*final(a)),
            r is None ==> *final(self) == *old(self),
    {
        if let ContractInfo::Alive(alive) = self {
            Some(alive)
        } else {
            None
        }
    }

    /// The tombstone, if the contract was evicted.
    pub fn get_tombstone(self) -> (r: Option<RawTombstoneContractInfo>)
        ensures
            r == (match self {
                ContractInfo::Alive(_) => None,
                ContractInfo::Tombstone(t) => Some(t),
            }),
    {
        if let ContractInfo::Tombstone(tombstone) = self {
            Some(tombstone)
        } else {
            None
        }
    }

    /// A reference to the tombstone, if the contract was evicted.
    pub fn as_tombstone(&self) -> (r: Option<&RawTombstoneContractInfo>)
        ensures
            r == (match self {
                ContractInfo::Alive(_) => None,
                ContractInfo::Tombstone(t) => Some(t),
            }),
    {
        if let ContractInfo::Tombstone(tombstone) = self {
            Some(tombstone)
        } else {
            None
        }
    }

    /// A mutable reference to the tombstone, if the contract was evicted.
    pub fn as_tombstone_mut(&mut self) -> (r: Option<&mut RawTombstoneContractInfo>)
        ensures
            (*old(self) is Tombstone) == (r is Some),
            r matches Some(t) ==> *t == (*old(self))->Tombstone_0 && *final(self) == ContractInfo::Tombstone(*final(t)),
            r is None ==> *final(self) == *old(self),
    {
        if let ContractInfo::Tombstone(tombstone) = self {
            Some(tombstone)
        } else {
            None
        }
    }
}

} // verus!
