//! The poll-until-paid protocol used while waiting for a mint quote.
//!
//! After a mint quote is issued, the wallet repeatedly queries the quote's
//! payment status. While the mint reports the quote unpaid, the only thing
//! to do is wait a fixed interval and query again; the final mint (redeem)
//! call may be issued only once a status query has reported the quote paid.
//! The shell performs the queries, the sleeps and the mint call; this module
//! decides, from each status result, which of those to do next.

use vstd::prelude::*;

verus! {

/// Seconds between two successive status queries.
pub const POLL_INTERVAL_SECS: u64 = 5;

/// What the shell must do next after a status query came back.
#[derive(Clone, Copy, PartialEq, Eq, Debug)]
pub enum PollAction {
    /// The quote is not paid yet: sleep this many seconds, then query again.
    Requery { delay_secs: u64 },
    /// The quote is paid: issue the mint (redeem) call.
    Mint,
}

/// Progress of one poll-until-paid run.
#[derive(Clone, Copy, Debug)]
pub struct MintPoll {
    /// Whether some status query has reported the quote paid.
    paid_seen: bool,
}

impl View for MintPoll {
    type V = bool;

    closed spec fn view(&self) -> bool {
        self.paid_seen
    }
}

/// The action taken for a given status-query result.
pub open spec fn poll_action(paid: bool) -> PollAction {
    if paid {
        PollAction::Mint
    } else {
        (PollAction::Requery { delay_secs: POLL_INTERVAL_SECS })
    }
}

impl MintPoll {
    /// A run that has not yet observed any status result.
    pub fn start() -> (r: MintPoll)
        ensures
            !r@,
    {
        MintPoll { paid_seen: false }
    }

    /// Record one status-query result and decide what the shell does next:
    /// an unpaid quote means waiting the fixed interval and querying again;
    /// a paid quote means issuing the mint call.
    pub fn on_status(&mut self, paid: bool) -> (r: PollAction)
        ensures
            r == poll_action(paid),
            final(self)@ == (old(self)@ || paid),
    {
        if paid {
            self.paid_seen = true;
            PollAction::Mint
        } else {
            PollAction::Requery { delay_secs: POLL_INTERVAL_SECS }
        }
    }
}

/// Law: the mint call is gated on payment. The decision is `Mint` exactly
/// when the status query reported paid, and every unpaid result leads to a
/// requery after the fixed interval, never to a mint.
pub proof fn lemma_mint_only_after_paid(paid: bool)
    ensures
        (poll_action(paid) is Mint) <==> paid,
        !paid ==> poll_action(paid) == (PollAction::Requery {
            delay_secs: POLL_INTERVAL_SECS,
        }),
{
}

} // verus!
