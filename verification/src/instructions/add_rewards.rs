//! Paying rewards into a pool.

use vstd::prelude::*;

use crate::state::Pool;

verus! {

/// The accounts that paying rewards reads and writes.
#[derive(Clone, Copy, Debug, PartialEq, Eq)]
pub struct AddReward {
    pub pool: Pool,
}

impl AddReward {
    /// Adds `reward` to the pool's accumulated rewards; the reward tokens
    /// themselves move from the admin into the pool.
    pub fn process(&mut self, reward: u64)
        requires
            old(self).pool.accumulated_reward + reward <= u64::MAX,
        ensures
            final(self).pool == (Pool {
                accumulated_reward: (old(self).pool.accumulated_reward + reward) as u64,
                ..old(self).pool
            }),
    {
        self.pool.accumulated_reward = self.pool.accumulated_reward + reward;
    }
}

} // verus!
