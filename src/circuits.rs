//! The aggregation circuits that the computation cluster evaluates under encryption,
//! stated over the plaintext values they act on: a yes/no tally for polls, and
//! count, sum and histogram statistics for 1-5 ratings of opinions and of posts.
use vstd::prelude::*;

verus! {

/// Number of `true` entries.
pub open spec fn count_true(bs: Seq<bool>) -> nat
    decreases bs.len(),
{
    if bs.len() == 0 {
        0
    } else {
        count_true(bs.drop_last()) + if bs.last() {
            1nat
        } else {
            0nat
        }
    }
}

/// Number of `false` entries.
pub open spec fn count_false(bs: Seq<bool>) -> nat
    decreases bs.len(),
{
    if bs.len() == 0 {
        0
    } else {
        count_false(bs.drop_last()) + if bs.last() {
            0nat
        } else {
            1nat
        }
    }
}

/// Tracks the encrypted vote tallies for a poll.
#[derive(Clone, Copy, Debug, PartialEq, Eq, Structural)]
pub struct VoteStats {
    pub yes: u64,
    pub no: u64,
}

/// Represents a single encrypted vote.
#[derive(Clone, Copy, Debug, PartialEq, Eq, Structural)]
pub struct UserVote {
    pub vote: bool,
}

impl VoteStats {
    /// The tally counts exactly the ballots of `votes`.
    pub open spec fn tallies(self, votes: Seq<bool>) -> bool {
        self.yes == count_true(votes) && self.no == count_false(votes)
    }
}

/// `r` is `s` with the ballot `v` counted.
pub open spec fn vote_applied(s: VoteStats, v: bool, r: VoteStats) -> bool {
    if v {
        r.yes == s.yes + 1 && r.no == s.no
    } else {
        r.yes == s.yes && r.no == s.no + 1
    }
}

/// The counter that the ballot `v` increments has room for one more.
pub open spec fn can_count_vote(s: VoteStats, v: bool) -> bool {
    if v {
        s.yes < u64::MAX
    } else {
        s.no < u64::MAX
    }
}

/// The revealed result of a tally: strictly more yes than no; a tie is `false`.
pub open spec fn majority_yes(s: VoteStats) -> bool {
    s.yes > s.no
}

/// Initializes vote counters for a new poll, both at zero.
pub fn init_vote_stats() -> (r: VoteStats)
    ensures
        r.yes == 0,
        r.no == 0,
        r.tallies(Seq::empty()),
{
    VoteStats { yes: 0, no: 0 }
}

/// Adds one ballot to the counter it names.
pub fn vote(vote_ctxt: UserVote, vote_stats_ctxt: VoteStats) -> (r: VoteStats)
    requires
        can_count_vote(vote_stats_ctxt, vote_ctxt.vote),
    ensures
        vote_applied(vote_stats_ctxt, vote_ctxt.vote, r),
{
    let mut vote_stats = vote_stats_ctxt;
    if vote_ctxt.vote {
        vote_stats.yes = vote_stats.yes + 1;
    } else {
        vote_stats.no = vote_stats.no + 1;
    }
    vote_stats
}

/// Reveals only whether strictly more ballots said yes than no.
pub fn reveal_result(vote_stats_ctxt: VoteStats) -> (r: bool)
    ensures
        r == majority_yes(vote_stats_ctxt),
{
    vote_stats_ctxt.yes > vote_stats_ctxt.no
}

/// Counting ballots one at a time from a fresh tally yields a tally of exactly those
/// ballots, and its reveal is `true` exactly when strictly more of them said yes than
/// no (a tie reveals `false`).
pub proof fn lemma_reveal_is_strict_majority(votes: Seq<bool>, trace: Seq<VoteStats>)
    requires
        trace.len() == votes.len() + 1,
        trace[0].yes == 0,
        trace[0].no == 0,
        forall|i: int| 0 <= i < votes.len() ==> vote_applied(#[trigger] trace[i], votes[i], trace[i + 1]),
    ensures
        trace.last().tallies(votes),
        majority_yes(trace.last()) == (count_true(votes) > count_false(votes)),
    decreases votes.len(),
{
    if votes.len() > 0 {
        let n = votes.len() - 1;
        let head = votes.drop_last();
        let prefix = trace.drop_last();
        assert forall|i: int| 0 <= i < head.len() implies vote_applied(
            #[trigger] prefix[i],
            head[i],
            prefix[i + 1],
        ) by {
            assert(vote_applied(trace[i], votes[i], trace[i + 1]));
        }
        lemma_reveal_is_strict_majority(head, prefix);
        assert(vote_applied(trace[n], votes[n], trace[n + 1]));
    }
}

/// Counting two ballots in either order gives the same tally.
pub proof fn lemma_votes_commute(
    s: VoteStats,
    a: bool,
    b: bool,
    after_a: VoteStats,
    after_ab: VoteStats,
    after_b: VoteStats,
    after_ba: VoteStats,
)
    requires
        vote_applied(s, a, after_a),
        vote_applied(after_a, b, after_ab),
        vote_applied(s, b, after_b),
        vote_applied(after_b, a, after_ba),
    ensures
        after_ab == after_ba,
{
}

/// A rating that lands in a histogram bucket.
pub open spec fn rating_in_range(r: u8) -> bool {
    1 <= r && r <= 5
}

/// Sum of the in-range ratings; an out-of-range rating adds nothing.
pub open spec fn in_range_sum(rs: Seq<u8>) -> nat
    decreases rs.len(),
{
    if rs.len() == 0 {
        0
    } else {
        in_range_sum(rs.drop_last()) + if rating_in_range(rs.last()) {
            rs.last() as nat
        } else {
            0nat
        }
    }
}

/// Number of entries equal to `rating`.
pub open spec fn rating_occurrences(rs: Seq<u8>, rating: int) -> nat
    decreases rs.len(),
{
    if rs.len() == 0 {
        0
    } else {
        rating_occurrences(rs.drop_last(), rating) + if rs.last() == rating {
            1nat
        } else {
            0nat
        }
    }
}

/// Rating statistics (`total`, `sum`, `counts`) summarize exactly the accepted
/// ratings `rs`: every rating is counted in `total`, only the in-range ones in `sum`,
/// and bucket `k` counts the ratings equal to `k + 1`.
pub open spec fn summarizes(total: u32, sum: u32, counts: Seq<u32>, rs: Seq<u8>) -> bool {
    &&& total == rs.len()
    &&& sum == in_range_sum(rs)
    &&& counts.len() == 5
    &&& forall|k: int| 0 <= k < 5 ==> #[trigger] counts[k] == rating_occurrences(rs, k + 1)
}

/// The statistics after folding in `rating`: the total always grows by one; an
/// in-range rating is added to the sum and to its bucket, any other leaves both alone.
pub open spec fn rating_applied(
    total: u32,
    sum: u32,
    counts: Seq<u32>,
    rating: u8,
    total2: u32,
    sum2: u32,
    counts2: Seq<u32>,
) -> bool {
    &&& total2 == total + 1
    &&& if rating_in_range(rating) {
        &&& sum2 == sum + rating
        &&& counts2[rating - 1] == counts[rating - 1] + 1
        &&& counts2 == counts.update(rating - 1, counts2[rating - 1])
    } else {
        &&& sum2 == sum
        &&& counts2 == counts
    }
}

/// The counters that `rating` touches have room for it.
pub open spec fn can_add_rating(total: u32, sum: u32, counts: Seq<u32>, rating: u8) -> bool {
    &&& total < u32::MAX
    &&& rating_in_range(rating) ==> sum + rating <= u32::MAX && counts[rating - 1] < u32::MAX
}

/// Folds one rating into count, sum and histogram.
fn add_rating(total: u32, sum: u32, counts: [u32; 5], rating: u8) -> (r: (u32, u32, [u32; 5]))
    requires
        can_add_rating(total, sum, counts@, rating),
    ensures
        rating_applied(total, sum, counts@, rating, r.0, r.1, r.2@),
{
    let mut counts = counts;
    let mut sum = sum;
    if rating >= 1 && rating <= 5 {
        let k = (rating - 1) as usize;
        sum = sum + rating as u32;
        counts[k] = counts[k] + 1;
    }
    (total + 1, sum, counts)
}

/// Tracks aggregated opinion statistics (1-5 ratings).
#[derive(Clone, Copy, Debug)]
pub struct OpinionStats {
    pub total_responses: u32,
    pub sum_ratings: u32,
    /// Count for each rating 1-5.
    pub rating_counts: [u32; 5],
}

/// Represents a single encrypted opinion response.
#[derive(Clone, Copy, Debug, PartialEq, Eq, Structural)]
pub struct OpinionResponse {
    pub rating: u8,
}

/// Represents a single encrypted feedback response.
#[derive(Clone, Copy, Debug, PartialEq, Eq, Structural)]
pub struct FeedbackResponse {
    pub rating: u8,
}

/// Tracks aggregated feedback statistics for an opinion post.
#[derive(Clone, Copy, Debug)]
pub struct FeedbackStats {
    pub total_feedback: u32,
    pub sum_ratings: u32,
    /// Count for each rating 1-5.
    pub rating_counts: [u32; 5],
}

impl OpinionStats {
    pub open spec fn summarizes(self, rs: Seq<u8>) -> bool {
        summarizes(self.total_responses, self.sum_ratings, self.rating_counts@, rs)
    }

    pub open spec fn applied(self, rating: u8, r: OpinionStats) -> bool {
        rating_applied(
            self.total_responses,
            self.sum_ratings,
            self.rating_counts@,
            rating,
            r.total_responses,
            r.sum_ratings,
            r.rating_counts@,
        )
    }

    pub open spec fn can_add(self, rating: u8) -> bool {
        can_add_rating(self.total_responses, self.sum_ratings, self.rating_counts@, rating)
    }
}

impl FeedbackStats {
    pub open spec fn summarizes(self, rs: Seq<u8>) -> bool {
        summarizes(self.total_feedback, self.sum_ratings, self.rating_counts@, rs)
    }

    pub open spec fn applied(self, rating: u8, r: FeedbackStats) -> bool {
        rating_applied(
            self.total_feedback,
            self.sum_ratings,
            self.rating_counts@,
            rating,
            r.total_feedback,
            r.sum_ratings,
            r.rating_counts@,
        )
    }

    pub open spec fn can_add(self, rating: u8) -> bool {
        can_add_rating(self.total_feedback, self.sum_ratings, self.rating_counts@, rating)
    }
}

/// Initializes opinion statistics for a new opinion poll, all at zero.
pub fn init_opinion_stats() -> (r: OpinionStats)
    ensures
        r.total_responses == 0,
        r.sum_ratings == 0,
        r.rating_counts@ == seq![0u32, 0u32, 0u32, 0u32, 0u32],
        r.summarizes(Seq::empty()),
{
    let r = OpinionStats { total_responses: 0, sum_ratings: 0, rating_counts: [0u32, 0, 0, 0, 0] };
    assert(r.rating_counts@ =~= seq![0u32, 0u32, 0u32, 0u32, 0u32]);
    r
}

/// Folds one opinion rating into the statistics.
pub fn submit_opinion(response_ctxt: OpinionResponse, stats_ctxt: OpinionStats) -> (r: OpinionStats)
    requires
        stats_ctxt.can_add(response_ctxt.rating),
    ensures
        stats_ctxt.applied(response_ctxt.rating, r),
{
    let (total_responses, sum_ratings, rating_counts) = add_rating(
        stats_ctxt.total_responses,
        stats_ctxt.sum_ratings,
        stats_ctxt.rating_counts,
        response_ctxt.rating,
    );
    OpinionStats { total_responses, sum_ratings, rating_counts }
}

/// Reveals the aggregated opinion statistics in full.
pub fn reveal_opinion_stats(stats_ctxt: OpinionStats) -> (r: OpinionStats)
    ensures
        r.total_responses == stats_ctxt.total_responses,
        r.sum_ratings == stats_ctxt.sum_ratings,
        r.rating_counts@ == stats_ctxt.rating_counts@,
{
    stats_ctxt
}

/// Initializes feedback statistics for an opinion post, all at zero.
pub fn init_feedback_stats() -> (r: FeedbackStats)
    ensures
        r.total_feedback == 0,
        r.sum_ratings == 0,
        r.rating_counts@ == seq![0u32, 0u32, 0u32, 0u32, 0u32],
        r.summarizes(Seq::empty()),
{
    let r = FeedbackStats { total_feedback: 0, sum_ratings: 0, rating_counts: [0u32, 0, 0, 0, 0] };
    assert(r.rating_counts@ =~= seq![0u32, 0u32, 0u32, 0u32, 0u32]);
    r
}

/// Folds one feedback rating into the statistics.
pub fn submit_feedback(feedback_ctxt: FeedbackResponse, stats_ctxt: FeedbackStats) -> (r: FeedbackStats)
    requires
        stats_ctxt.can_add(feedback_ctxt.rating),
    ensures
        stats_ctxt.applied(feedback_ctxt.rating, r),
{
    let (total_feedback, sum_ratings, rating_counts) = add_rating(
        stats_ctxt.total_feedback,
        stats_ctxt.sum_ratings,
        stats_ctxt.rating_counts,
        feedback_ctxt.rating,
    );
    FeedbackStats { total_feedback, sum_ratings, rating_counts }
}

/// Reveals the aggregated feedback statistics in full.
pub fn reveal_feedback_stats(stats_ctxt: FeedbackStats) -> (r: FeedbackStats)
    ensures
        r.total_feedback == stats_ctxt.total_feedback,
        r.sum_ratings == stats_ctxt.sum_ratings,
        r.rating_counts@ == stats_ctxt.rating_counts@,
{
    stats_ctxt
}

/// Folding ratings one at a time into zeroed statistics yields statistics that
/// summarize exactly those ratings: `total` counts every accepted rating, in range or
/// not, while `sum` and the histogram see only the ratings in 1-5.
pub proof fn lemma_ratings_summarized(
    rs: Seq<u8>,
    totals: Seq<u32>,
    sums: Seq<u32>,
    counts: Seq<Seq<u32>>,
)
    requires
        totals.len() == rs.len() + 1,
        sums.len() == rs.len() + 1,
        counts.len() == rs.len() + 1,
        totals[0] == 0,
        sums[0] == 0,
        counts[0] == seq![0u32, 0u32, 0u32, 0u32, 0u32],
        forall|i: int|
            0 <= i < rs.len() ==> rating_applied(
                #[trigger] totals[i],
                sums[i],
                counts[i],
                rs[i],
                totals[i + 1],
                sums[i + 1],
                counts[i + 1],
            ),
    ensures
        summarizes(totals.last(), sums.last(), counts.last(), rs),
    decreases rs.len(),
{
    if rs.len() == 0 {
        assert(summarizes(totals[0], sums[0], counts[0], rs));
    } else {
        let n = rs.len() - 1;
        let head = rs.drop_last();
        assert forall|i: int| 0 <= i < head.len() implies rating_applied(
            #[trigger] totals.drop_last()[i],
            sums.drop_last()[i],
            counts.drop_last()[i],
            head[i],
            totals.drop_last()[i + 1],
            sums.drop_last()[i + 1],
            counts.drop_last()[i + 1],
        ) by {
            assert(rating_applied(
                totals[i],
                sums[i],
                counts[i],
                rs[i],
                totals[i + 1],
                sums[i + 1],
                counts[i + 1],
            ));
        }
        lemma_ratings_summarized(head, totals.drop_last(), sums.drop_last(), counts.drop_last());
        assert(rating_applied(
            totals[n],
            sums[n],
            counts[n],
            rs[n],
            totals[n + 1],
            sums[n + 1],
            counts[n + 1],
        ));
        assert(head == rs.drop_last());
        assert forall|k: int| 0 <= k < 5 implies #[trigger] counts.last()[k] == rating_occurrences(
            rs,
            k + 1,
        ) by {
            assert(counts.drop_last().last() == counts[n]);
            assert(counts[n][k] == rating_occurrences(head, k + 1));
            assert(rating_occurrences(rs, k + 1) == rating_occurrences(head, k + 1) + if rs[n] == k
                + 1 {
                1nat
            } else {
                0nat
            });
            assert(counts.last() == counts[n + 1]);
        }
    }
}

/// Folding two ratings in either order gives the same statistics.
pub proof fn lemma_ratings_commute(
    total: u32,
    sum: u32,
    counts: Seq<u32>,
    a: u8,
    b: u8,
    after_a: (u32, u32, Seq<u32>),
    after_ab: (u32, u32, Seq<u32>),
    after_b: (u32, u32, Seq<u32>),
    after_ba: (u32, u32, Seq<u32>),
)
    requires
        counts.len() == 5,
        rating_applied(total, sum, counts, a, after_a.0, after_a.1, after_a.2),
        rating_applied(after_a.0, after_a.1, after_a.2, b, after_ab.0, after_ab.1, after_ab.2),
        rating_applied(total, sum, counts, b, after_b.0, after_b.1, after_b.2),
        rating_applied(after_b.0, after_b.1, after_b.2, a, after_ba.0, after_ba.1, after_ba.2),
    ensures
        after_ab == after_ba,
{
    assert(after_ab.2 =~= after_ba.2);
}

} // verus!
