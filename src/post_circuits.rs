//! The agree/disagree circuits of confidential opinion posts. A post's tally has the
//! shape of a poll's yes/no tally, and its contracts are stated through that shape.
use vstd::prelude::*;
use crate::circuits::{VoteStats, can_count_vote, majority_yes, vote_applied};

verus! {

/// Tracks the encrypted opinion tallies for a post.
#[derive(Clone, Copy, Debug, PartialEq, Eq, Structural)]
pub struct OpinionStats {
    pub agree: u64,
    pub disagree: u64,
}

/// Represents a single encrypted opinion submission.
#[derive(Clone, Copy, Debug, PartialEq, Eq, Structural)]
pub struct OpinionVote {
    pub support: bool,
}

impl OpinionStats {
    /// The tally read as yes (agree) and no (disagree) counters.
    pub open spec fn as_tally(self) -> VoteStats {
        VoteStats { yes: self.agree, no: self.disagree }
    }
}

/// Initializes opinion counters for a new post, both at zero.
pub fn init_opinion_stats() -> (r: OpinionStats)
    ensures
        r.agree == 0,
        r.disagree == 0,
{
    OpinionStats { agree: 0, disagree: 0 }
}

/// Adds one opinion to the counter it names.
pub fn submit_opinion(opinion_ctxt: OpinionVote, opinion_stats_ctxt: OpinionStats) -> (r: OpinionStats)
    requires
        can_count_vote(opinion_stats_ctxt.as_tally(), opinion_ctxt.support),
    ensures
        vote_applied(opinion_stats_ctxt.as_tally(), opinion_ctxt.support, r.as_tally()),
{
    let mut opinion_stats = opinion_stats_ctxt;
    if opinion_ctxt.support {
        opinion_stats.agree = opinion_stats.agree + 1;
    } else {
        opinion_stats.disagree = opinion_stats.disagree + 1;
    }
    opinion_stats
}

/// Reveals only whether strictly more opinions agreed than disagreed.
pub fn reveal_opinion(opinion_stats_ctxt: OpinionStats) -> (r: bool)
    ensures
        r == majority_yes(opinion_stats_ctxt.as_tally()),
{
    opinion_stats_ctxt.agree > opinion_stats_ctxt.disagree
}

} // verus!
