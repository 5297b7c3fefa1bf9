//! Withdrawing an unbonding request.

use vstd::prelude::*;

use crate::error::ErrorCode;
use crate::state::{PoolConfig, UserUnboundRequest};

verus! {

/// The accounts that a withdrawal reads and writes.
#[derive(Clone, Copy, Debug, PartialEq, Eq)]
pub struct WithDraw {
    /// The pool configuration, which signs the payout.
    pub pool_config: PoolConfig,
    pub user_unbound_request: UserUnboundRequest,
}

impl WithDraw {
    /// Withdraws the user's request at time `now`.
    ///
    /// Refused with `UnboundDelayNotPassed`, changing nothing, before the
    /// request's release time. Otherwise returns the underlying tokens to
    /// pay out to the user, the amount that the request held, and clears
    /// the request.
    pub fn process(&mut self, now: i64) -> (r: Result<u64, ErrorCode>)
        ensures
            final(self).pool_config == old(self).pool_config,
            r is Err <==> now < old(self).user_unbound_request.withdraw_timestamp,
            r matches Err(e) ==> e == ErrorCode::UnboundDelayNotPassed
                && final(self).user_unbound_request == old(self).user_unbound_request,
            r matches Ok(paid) ==> {
                &&& paid == old(self).user_unbound_request.amount
                &&& final(self).user_unbound_request.amount == 0
                &&& final(self).user_unbound_request.withdraw_timestamp == 0
                &&& !final(self).user_unbound_request.is_unstaked
                &&& final(self).user_unbound_request.owner == old(self).user_unbound_request.owner
                &&& final(self).user_unbound_request.pool_config
                    == old(self).user_unbound_request.pool_config
            },
            match old(self).user_unbound_request.after_withdraw(now) {
                Ok((request, paid)) => {
                    &&& r == Ok::<u64, ErrorCode>(paid)
                    &&& final(self).user_unbound_request == request
                },
                Err(e) => {
                    &&& r == Err::<u64, ErrorCode>(e)
                    &&& final(self).user_unbound_request == old(self).user_unbound_request
                },
            },
    {
        let current_time = now;
        let amount = self.user_unbound_request.amount;
        if !(current_time >= self.user_unbound_request.withdraw_timestamp) {
            return Err(ErrorCode::UnboundDelayNotPassed);
        }
        self.user_unbound_request.is_unstaked = false;
        self.user_unbound_request.amount = 0;
        self.user_unbound_request.withdraw_timestamp = 0;
        Ok(amount)
    }
}

} // verus!
