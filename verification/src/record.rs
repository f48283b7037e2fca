//! The records of a wallet as they lie on disk, one for an unsharded wallet
//! or one for each shard.

use vstd::prelude::*;

verus! {

/// The place of a shard among the shards of its wallet.
#[derive(Clone, Copy, Debug, PartialEq, Eq, Structural)]
pub struct Sharding {
    /// The abscissa of the share; never zero in a valid shard.
    pub share_index: u8,
    /// The number of shards that reconstruct the wallet.
    pub threshold: u8,
    /// The number of shards that the wallet was split into.
    pub total_shares: u8,
}

/// The cost parameters of the key derivation.
#[derive(Clone, Copy, Debug, PartialEq, Eq, Structural)]
pub struct KdfParams {
    /// Memory, in KiB.
    pub memory_kib: u32,
    /// Number of passes.
    pub iterations: u32,
    /// Number of lanes.
    pub parallelism: u32,
}

/// One unit on disk. In a shard, `ciphertext` holds the shard's share of the
/// encrypted payload, byte for byte.
#[derive(Debug)]
pub struct WalletRecord {
    /// The tag of the file format.
    pub format: u8,
    /// The public key, with its type tag.
    pub public_key: Vec<u8>,
    /// `None` for an unsharded wallet.
    pub sharding: Option<Sharding>,
    /// The salt of the key derivation.
    pub salt: Vec<u8>,
    /// The cost of the key derivation.
    pub kdf: KdfParams,
    /// The nonce of the authenticated cipher.
    pub nonce: Vec<u8>,
    /// The encrypted payload with its tag, or a share of it.
    pub ciphertext: Vec<u8>,
    /// The stored fingerprint of the password derivation.
    pub pwhash: Vec<u8>,
}

/// The shards that were loaded for one wallet, in the order given.
#[derive(Debug)]
pub struct ShardSet {
    /// The records of the shards.
    pub records: Vec<WalletRecord>,
}

impl WalletRecord {
    /// Whether the record is a shard.
    pub open spec fn sharded(&self) -> bool {
        self.sharding is Some
    }

    /// The abscissa of the shard; 0 for a record that is no shard.
    pub open spec fn share_x(&self) -> u8 {
        match self.sharding {
            Some(s) => s.share_index,
            None => 0,
        }
    }

    /// The threshold of the shard; 0 for a record that is no shard.
    pub open spec fn threshold(&self) -> u8 {
        match self.sharding {
            Some(s) => s.threshold,
            None => 0,
        }
    }

    /// Whether the record is a shard.
    pub fn is_sharded(&self) -> (b: bool)
        ensures
            b == self.sharded(),
    {
        self.sharding.is_some()
    }
}

/// The bytes of an optional vector.
pub open spec fn option_bytes(o: Option<Vec<u8>>) -> Option<Seq<u8>> {
    match o {
        Some(v) => Some(v@),
        None => None,
    }
}

/// Whether two byte strings are equal.
pub fn bytes_eq(a: &[u8], b: &[u8]) -> (r: bool)
    ensures
        r == (a@ == b@),
{
    if a.len() != b.len() {
        return false;
    }
    let mut i: usize = 0;
    while i < a.len()
        invariant
            i <= a@.len(),
            a@.len() == b@.len(),
            forall|k: int| 0 <= k < i ==> a@[k] == b@[k],
        decreases a.len() - i,
    {
        if a[i] != b[i] {
            return false;
        }
        i = i + 1;
    }
    assert(a@ =~= b@);
    true
}

} // verus!
