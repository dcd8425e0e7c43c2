use vstd::prelude::*;

use crate::key::Key;

verus! {

/// How many destinations a whitelist can hold.
pub const WHITELIST_CAPACITY: usize = 10;

/// A delegation record: who owns it, who may transfer through it, who may
/// switch it off, and where transfers may go.
#[derive(Clone, Copy, Debug)]
pub struct BaseAccount {
    pub active: bool,
    pub bump: u8,
    pub whitelist_len: u8,
    pub owner: Key,
    pub transfer_authority: Key,
    pub deactivation_authority: Key,
    pub whitelisted_targets: [Key; 10],
}

impl BaseAccount {
    /// Bytes a record takes in storage: discriminator, flags, bump, whitelist
    /// length, three keys and the whitelist.
    pub const LEN: usize = 8 + 1 + 1 + 1 + 32 + 32 + 32 + (32 * 10);

    /// `to` is one of the destinations supplied at creation: it stands in one
    /// of the first `whitelist_len` slots.
    pub open spec fn whitelists(self, to: Key) -> bool {
        exists|i: int|
            0 <= i < self.whitelist_len && i < WHITELIST_CAPACITY
                && #[trigger] self.whitelisted_targets@[i] == to
    }

    /// The whitelist holds `candidates` in order, and the sentinel after them.
    pub open spec fn holds_whitelist(self, candidates: Seq<Key>) -> bool {
        &&& candidates.len() <= WHITELIST_CAPACITY
        &&& self.whitelist_len == candidates.len()
        &&& forall|i: int|
            0 <= i < WHITELIST_CAPACITY ==> if i < candidates.len() {
                #[trigger] self.whitelisted_targets@[i] == candidates[i]
            } else {
                self.whitelisted_targets@[i].is_sentinel()
            }
    }

    /// Whether a transfer to `to` is allowed by the whitelist.
    pub fn is_whitelisted(&self, to: &Key) -> (r: bool)
        ensures
            r == self.whitelists(*to),
    {
        let mut i: usize = 0;
        while i < self.whitelist_len as usize && i < WHITELIST_CAPACITY
            invariant
                i <= WHITELIST_CAPACITY,
                forall|j: int| 0 <= j < i ==> self.whitelisted_targets@[j] != *to,
            decreases WHITELIST_CAPACITY - i,
        {
            if self.whitelisted_targets[i] == *to {
                return true;
            }
            i = i + 1;
        }
        false
    }
}

} // verus!
