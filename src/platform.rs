//! The opinion platform: polls with a yes/no tally, opinions and post feedback with
//! 1-5 rating statistics, and plain posts with comments. Each tally lives in a
//! record that is created, fed and revealed through the validated two-phase path of
//! `orchestrator`; each callback consumes its request before it touches the record
//! and yields the notification that the platform publishes.
use vstd::prelude::*;
use crate::circuits::{FeedbackStats, OpinionStats};
use crate::computation::{CallbackOutput, ComputationRequest, Key, SealedAggregate};
use crate::orchestrator::{
    Domain,
    FlowError,
    PollRecord,
    complete_init,
    complete_response,
    complete_reveal,
    init_completed,
    open_record,
    opened,
    outcome,
    request_response,
    request_reveal,
    response_completed,
    response_requested,
    reveal_completed,
    reveal_requested,
};
use crate::pending::PendingTable;

verus! {

/// A poll: its encrypted yes and no counters, with their nonce, and its metadata.
pub type PollAccount = PollRecord<2>;

/// An opinion: its encrypted rating statistics (count, sum and five histogram
/// buckets), with their nonce, and its metadata.
pub type OpinionAccount = PollRecord<7>;

/// The feedback on a post: its encrypted rating statistics, with their nonce, and
/// its metadata.
pub type FeedbackStatsAccount = PollRecord<7>;

pub struct OpinionPostAccount {
    pub post_id: u64,
    pub encrypted_title: [u8; 32],
    pub encrypted_content: [u8; 128],
    pub encrypted_topic: [u8; 16],
    pub author: Key,
    pub created_at: i64,
    pub total_comments: u32,
    pub total_feedback: u32,
}

pub struct CommentAccount {
    pub comment_id: u64,
    pub post_id: u64,
    pub encrypted_content: [u8; 64],
    pub author: Key,
    pub created_at: i64,
}

pub struct VoteSubmittedEvent {
    pub poll_id: u64,
    pub submitter: Key,
}

pub struct PollResultRevealedEvent {
    pub poll_id: u64,
    pub majority_yes: bool,
}

pub struct OpinionSubmittedEvent {
    pub opinion_id: u64,
    pub submitter: Key,
}

pub struct OpinionStatsRevealedEvent {
    pub opinion_id: u64,
    pub total_responses: u32,
    /// Mean rating in tenths, kept to its low byte.
    pub average_rating: u8,
    pub rating_distribution: [u32; 5],
}

pub struct OpinionPostCreatedEvent {
    pub post_id: u64,
    pub author: Key,
}

pub struct CommentAddedEvent {
    pub comment_id: u64,
    pub post_id: u64,
    pub author: Key,
}

pub struct FeedbackSubmittedEvent {
    pub post_id: u64,
    pub submitter: Key,
}

pub struct FeedbackStatsRevealedEvent {
    pub post_id: u64,
    pub total_feedback: u32,
    /// Mean rating in tenths, kept to its low byte.
    pub average_rating: u8,
    pub rating_distribution: [u32; 5],
}

/// Mean rating in tenths, `sum * 10 / count`, with an empty count read as one.
pub open spec fn average_tenths(sum: u32, count: u32) -> int {
    (sum * 10) / if count == 0 {
        1int
    } else {
        count as int
    }
}

/// Mean rating in tenths, truncated to a byte.
fn average_rating(sum: u32, count: u32) -> (r: u8)
    requires
        sum * 10 <= u32::MAX,
    ensures
        r == average_tenths(sum, count) % 256,
{
    let divisor: u32 = if count == 0 {
        1
    } else {
        count
    };
    let avg: u32 = (sum * 10) / divisor;
    (avg % 256) as u8
}

/// Creates a poll record at `now` for `payer`, stored at `key`, with the request
/// that seals its zeroed aggregate, recorded as in flight under `computation_offset`.
///
/// Rejected when the title is over 200 bytes, else when the deadline is not
/// strictly after `now`, else when the token is already in flight.
pub fn init_vote_stats(
    table: &mut PendingTable,
    now: i64,
    payer: Key,
    key: Key,
    bump: u8,
    computation_offset: u64,
    poll_id: u64,
    title: String,
    content_hash: String,
    storage_cid: String,
    deadline: i64,
    nonce: u128,
) -> (r: Result<(PollRecord<2>, ComputationRequest), FlowError>)
    requires
        old(table).wf(),
    ensures
        final(table).wf(),
        opened(
            Domain::Vote,
            old(table)@,
            final(table)@,
            now,
            payer,
            key,
            bump,
            computation_offset,
            poll_id,
            title@,
            content_hash@,
            storage_cid@,
            deadline,
            nonce,
            r,
        ),
{
    open_record(
        table,
        Domain::Vote,
        now,
        payer,
        key,
        bump,
        computation_offset,
        poll_id,
        title,
        content_hash,
        storage_cid,
        deadline,
        nonce,
    )
}

/// The request that folds one encrypted ballot into the poll's aggregate,
/// recorded as in flight against its current nonce.
///
/// Rejected, with no request, when the poll is not `Active`, else when `now` is at
/// or past the deadline, else when the token is already in flight.
pub fn vote(
    table: &mut PendingTable,
    record: &PollRecord<2>,
    key: Key,
    now: i64,
    computation_offset: u64,
    ciphertext: [u8; 32],
    pub_key: Key,
    nonce: u128,
) -> (r: Result<ComputationRequest, FlowError>)
    requires
        old(table).wf(),
    ensures
        final(table).wf(),
        response_requested(
            Domain::Vote,
            old(table)@,
            final(table)@,
            *record,
            key,
            now,
            computation_offset,
            ciphertext,
            pub_key,
            nonce,
            r,
        ),
{
    request_response(table, Domain::Vote, record, key, now, computation_offset, ciphertext, pub_key, nonce)
}

/// The request that reveals the poll's result.
///
/// Rejected, with no request, unless `payer` is the authority, then unless the poll
/// is `Active`, then unless `now` has reached the deadline, then when the token is
/// already in flight.
pub fn reveal_result(
    table: &mut PendingTable,
    record: &PollRecord<2>,
    key: Key,
    payer: Key,
    now: i64,
    computation_offset: u64,
) -> (r: Result<ComputationRequest, FlowError>)
    requires
        old(table).wf(),
    ensures
        final(table).wf(),
        reveal_requested(
            Domain::Vote,
            old(table)@,
            final(table)@,
            *record,
            key,
            payer,
            now,
            computation_offset,
            r,
        ),
{
    request_reveal(table, Domain::Vote, record, key, payer, now, computation_offset)
}

/// Answers the sealing request `token`: stores the sealed zeroed aggregate.
pub fn init_vote_stats_callback(
    table: &mut PendingTable,
    record: &mut PollRecord<2>,
    key: Key,
    token: u64,
    output: CallbackOutput<SealedAggregate<2>>,
) -> (r: Result<(), FlowError>)
    requires
        old(table).wf(),
    ensures
        final(table).wf(),
        init_completed(old(table)@, final(table)@, *old(record), *final(record), key, token, output, r),
{
    complete_init(table, record, key, token, output)
}

/// Answers the submission request `token`: stores the aggregate with the
/// ballot folded in, counts it, and yields the submission notice.
pub fn vote_callback(
    table: &mut PendingTable,
    record: &mut PollRecord<2>,
    key: Key,
    token: u64,
    submitter: Key,
    output: CallbackOutput<SealedAggregate<2>>,
) -> (r: Result<VoteSubmittedEvent, FlowError>)
    requires
        old(table).wf(),
        output is Success ==> old(record).response_count < u32::MAX,
    ensures
        final(table).wf(),
        response_completed(
            old(table)@,
            final(table)@,
            *old(record),
            *final(record),
            key,
            token,
            output,
            outcome(r),
        ),
        r matches Ok(ev) ==> ev == (VoteSubmittedEvent { poll_id: old(record).id, submitter }),
{
    let id = record.id;
    match complete_response(table, record, key, token, output) {
        Ok(()) => Ok(VoteSubmittedEvent { poll_id: id, submitter }),
        Err(e) => Err(e),
    }
}

/// Answers the reveal request `token`: marks the poll `Revealed` at `now` and yields
/// the notice carrying whether strictly more ballots said yes than no.
pub fn reveal_result_callback(
    table: &mut PendingTable,
    poll: &mut PollAccount,
    key: Key,
    token: u64,
    now: i64,
    output: CallbackOutput<bool>,
) -> (r: Result<PollResultRevealedEvent, FlowError>)
    requires
        old(table).wf(),
    ensures
        final(table).wf(),
        reveal_completed(
            old(table)@,
            final(table)@,
            *old(poll),
            *final(poll),
            key,
            token,
            now,
            output,
            outcome(r),
        ),
        r matches Ok(ev) ==> (output matches CallbackOutput::Success(result) && ev == (
        PollResultRevealedEvent { poll_id: old(poll).id, majority_yes: result })),
{
    let poll_id = poll.id;
    match complete_reveal(table, poll, key, token, now, output) {
        Ok(result) => Ok(PollResultRevealedEvent { poll_id, majority_yes: result }),
        Err(e) => Err(e),
    }
}

/// Creates a opinion record at `now` for `payer`, stored at `key`, with the request
/// that seals its zeroed aggregate, recorded as in flight under `computation_offset`.
///
/// Rejected when the title is over 200 bytes, else when the deadline is not
/// strictly after `now`, else when the token is already in flight.
pub fn init_opinion_stats(
    table: &mut PendingTable,
    now: i64,
    payer: Key,
    key: Key,
    bump: u8,
    computation_offset: u64,
    opinion_id: u64,
    title: String,
    content_hash: String,
    storage_cid: String,
    deadline: i64,
    nonce: u128,
) -> (r: Result<(PollRecord<7>, ComputationRequest), FlowError>)
    requires
        old(table).wf(),
    ensures
        final(table).wf(),
        opened(
            Domain::Opinion,
            old(table)@,
            final(table)@,
            now,
            payer,
            key,
            bump,
            computation_offset,
            opinion_id,
            title@,
            content_hash@,
            storage_cid@,
            deadline,
            nonce,
            r,
        ),
{
    open_record(
        table,
        Domain::Opinion,
        now,
        payer,
        key,
        bump,
        computation_offset,
        opinion_id,
        title,
        content_hash,
        storage_cid,
        deadline,
        nonce,
    )
}

/// The request that folds one encrypted rating into the opinion's aggregate,
/// recorded as in flight against its current nonce.
///
/// Rejected, with no request, when the opinion is not `Active`, else when `now` is at
/// or past the deadline, else when the token is already in flight.
pub fn submit_opinion_response(
    table: &mut PendingTable,
    record: &PollRecord<7>,
    key: Key,
    now: i64,
    computation_offset: u64,
    ciphertext: [u8; 32],
    pub_key: Key,
    nonce: u128,
) -> (r: Result<ComputationRequest, FlowError>)
    requires
        old(table).wf(),
    ensures
        final(table).wf(),
        response_requested(
            Domain::Opinion,
            old(table)@,
            final(table)@,
            *record,
            key,
            now,
            computation_offset,
            ciphertext,
            pub_key,
            nonce,
            r,
        ),
{
    request_response(table, Domain::Opinion, record, key, now, computation_offset, ciphertext, pub_key, nonce)
}

/// The request that reveals the opinion's result.
///
/// Rejected, with no request, unless `payer` is the authority, then unless the opinion
/// is `Active`, then unless `now` has reached the deadline, then when the token is
/// already in flight.
pub fn reveal_opinion_stats(
    table: &mut PendingTable,
    record: &PollRecord<7>,
    key: Key,
    payer: Key,
    now: i64,
    computation_offset: u64,
) -> (r: Result<ComputationRequest, FlowError>)
    requires
        old(table).wf(),
    ensures
        final(table).wf(),
        reveal_requested(
            Domain::Opinion,
            old(table)@,
            final(table)@,
            *record,
            key,
            payer,
            now,
            computation_offset,
            r,
        ),
{
    request_reveal(table, Domain::Opinion, record, key, payer, now, computation_offset)
}

/// Answers the sealing request `token`: stores the sealed zeroed aggregate.
pub fn init_opinion_stats_callback(
    table: &mut PendingTable,
    record: &mut PollRecord<7>,
    key: Key,
    token: u64,
    output: CallbackOutput<SealedAggregate<7>>,
) -> (r: Result<(), FlowError>)
    requires
        old(table).wf(),
    ensures
        final(table).wf(),
        init_completed(old(table)@, final(table)@, *old(record), *final(record), key, token, output, r),
{
    complete_init(table, record, key, token, output)
}

/// Answers the submission request `token`: stores the aggregate with the
/// rating folded in, counts it, and yields the submission notice.
pub fn submit_opinion_callback(
    table: &mut PendingTable,
    record: &mut PollRecord<7>,
    key: Key,
    token: u64,
    submitter: Key,
    output: CallbackOutput<SealedAggregate<7>>,
) -> (r: Result<OpinionSubmittedEvent, FlowError>)
    requires
        old(table).wf(),
        output is Success ==> old(record).response_count < u32::MAX,
    ensures
        final(table).wf(),
        response_completed(
            old(table)@,
            final(table)@,
            *old(record),
            *final(record),
            key,
            token,
            output,
            outcome(r),
        ),
        r matches Ok(ev) ==> ev == (OpinionSubmittedEvent { opinion_id: old(record).id, submitter }),
{
    let id = record.id;
    match complete_response(table, record, key, token, output) {
        Ok(()) => Ok(OpinionSubmittedEvent { opinion_id: id, submitter }),
        Err(e) => Err(e),
    }
}

/// Answers the reveal request `token`: marks the opinion `Revealed` at `now` and
/// yields the notice carrying the count, the mean in tenths and the histogram.
pub fn reveal_opinion_stats_callback(
    table: &mut PendingTable,
    opinion: &mut OpinionAccount,
    key: Key,
    token: u64,
    now: i64,
    output: CallbackOutput<OpinionStats>,
) -> (r: Result<OpinionStatsRevealedEvent, FlowError>)
    requires
        old(table).wf(),
        output matches CallbackOutput::Success(stats) ==> stats.sum_ratings * 10 <= u32::MAX,
    ensures
        final(table).wf(),
        reveal_completed(
            old(table)@,
            final(table)@,
            *old(opinion),
            *final(opinion),
            key,
            token,
            now,
            output,
            outcome(r),
        ),
        r matches Ok(ev) ==> (output matches CallbackOutput::Success(stats) && ev.opinion_id
            == old(opinion).id && ev.total_responses == stats.total_responses && ev.average_rating
            == average_tenths(stats.sum_ratings, stats.total_responses) % 256
            && ev.rating_distribution@ == stats.rating_counts@),
{
    let opinion_id = opinion.id;
    match complete_reveal(table, opinion, key, token, now, output) {
        Ok(stats) => Ok(
            OpinionStatsRevealedEvent {
                opinion_id,
                total_responses: stats.total_responses,
                average_rating: average_rating(stats.sum_ratings, stats.total_responses),
                rating_distribution: stats.rating_counts,
            },
        ),
        Err(e) => Err(e),
    }
}

/// Creates a post's feedback record at `now` for `payer`, stored at `key`, with the request
/// that seals its zeroed aggregate, recorded as in flight under `computation_offset`.
///
/// Rejected when the title is over 200 bytes, else when the deadline is not
/// strictly after `now`, else when the token is already in flight.
pub fn init_feedback_stats(
    table: &mut PendingTable,
    now: i64,
    payer: Key,
    key: Key,
    bump: u8,
    computation_offset: u64,
    post_id: u64,
    title: String,
    content_hash: String,
    storage_cid: String,
    deadline: i64,
    nonce: u128,
) -> (r: Result<(PollRecord<7>, ComputationRequest), FlowError>)
    requires
        old(table).wf(),
    ensures
        final(table).wf(),
        opened(
            Domain::Feedback,
            old(table)@,
            final(table)@,
            now,
            payer,
            key,
            bump,
            computation_offset,
            post_id,
            title@,
            content_hash@,
            storage_cid@,
            deadline,
            nonce,
            r,
        ),
{
    open_record(
        table,
        Domain::Feedback,
        now,
        payer,
        key,
        bump,
        computation_offset,
        post_id,
        title,
        content_hash,
        storage_cid,
        deadline,
        nonce,
    )
}

/// The request that folds one encrypted rating into the post's feedback's aggregate,
/// recorded as in flight against its current nonce.
///
/// Rejected, with no request, when the post's feedback is not `Active`, else when `now` is at
/// or past the deadline, else when the token is already in flight.
pub fn submit_feedback_response(
    table: &mut PendingTable,
    record: &PollRecord<7>,
    key: Key,
    now: i64,
    computation_offset: u64,
    ciphertext: [u8; 32],
    pub_key: Key,
    nonce: u128,
) -> (r: Result<ComputationRequest, FlowError>)
    requires
        old(table).wf(),
    ensures
        final(table).wf(),
        response_requested(
            Domain::Feedback,
            old(table)@,
            final(table)@,
            *record,
            key,
            now,
            computation_offset,
            ciphertext,
            pub_key,
            nonce,
            r,
        ),
{
    request_response(table, Domain::Feedback, record, key, now, computation_offset, ciphertext, pub_key, nonce)
}

/// The request that reveals the post's feedback's result.
///
/// Rejected, with no request, unless `payer` is the authority, then unless the post's feedback
/// is `Active`, then unless `now` has reached the deadline, then when the token is
/// already in flight.
pub fn reveal_feedback_stats(
    table: &mut PendingTable,
    record: &PollRecord<7>,
    key: Key,
    payer: Key,
    now: i64,
    computation_offset: u64,
) -> (r: Result<ComputationRequest, FlowError>)
    requires
        old(table).wf(),
    ensures
        final(table).wf(),
        reveal_requested(
            Domain::Feedback,
            old(table)@,
            final(table)@,
            *record,
            key,
            payer,
            now,
            computation_offset,
            r,
        ),
{
    request_reveal(table, Domain::Feedback, record, key, payer, now, computation_offset)
}

/// Answers the sealing request `token`: stores the sealed zeroed aggregate.
pub fn init_feedback_stats_callback(
    table: &mut PendingTable,
    record: &mut PollRecord<7>,
    key: Key,
    token: u64,
    output: CallbackOutput<SealedAggregate<7>>,
) -> (r: Result<(), FlowError>)
    requires
        old(table).wf(),
    ensures
        final(table).wf(),
        init_completed(old(table)@, final(table)@, *old(record), *final(record), key, token, output, r),
{
    complete_init(table, record, key, token, output)
}

/// Answers the submission request `token`: stores the aggregate with the
/// rating folded in, counts it, and yields the submission notice.
pub fn submit_feedback_callback(
    table: &mut PendingTable,
    record: &mut PollRecord<7>,
    key: Key,
    token: u64,
    submitter: Key,
    output: CallbackOutput<SealedAggregate<7>>,
) -> (r: Result<FeedbackSubmittedEvent, FlowError>)
    requires
        old(table).wf(),
        output is Success ==> old(record).response_count < u32::MAX,
    ensures
        final(table).wf(),
        response_completed(
            old(table)@,
            final(table)@,
            *old(record),
            *final(record),
            key,
            token,
            output,
            outcome(r),
        ),
        r matches Ok(ev) ==> ev == (FeedbackSubmittedEvent { post_id: old(record).id, submitter }),
{
    let id = record.id;
    match complete_response(table, record, key, token, output) {
        Ok(()) => Ok(FeedbackSubmittedEvent { post_id: id, submitter }),
        Err(e) => Err(e),
    }
}

/// Answers the reveal request `token`: marks the feedback `Revealed` at `now` and
/// yields the notice carrying the count, the mean in tenths and the histogram.
pub fn reveal_feedback_stats_callback(
    table: &mut PendingTable,
    feedback: &mut FeedbackStatsAccount,
    key: Key,
    token: u64,
    now: i64,
    output: CallbackOutput<FeedbackStats>,
) -> (r: Result<FeedbackStatsRevealedEvent, FlowError>)
    requires
        old(table).wf(),
        output matches CallbackOutput::Success(stats) ==> stats.sum_ratings * 10 <= u32::MAX,
    ensures
        final(table).wf(),
        reveal_completed(
            old(table)@,
            final(table)@,
            *old(feedback),
            *final(feedback),
            key,
            token,
            now,
            output,
            outcome(r),
        ),
        r matches Ok(ev) ==> (output matches CallbackOutput::Success(stats) && ev.post_id
            == old(feedback).id && ev.total_feedback == stats.total_feedback && ev.average_rating
            == average_tenths(stats.sum_ratings, stats.total_feedback) % 256
            && ev.rating_distribution@ == stats.rating_counts@),
{
    let post_id = feedback.id;
    match complete_reveal(table, feedback, key, token, now, output) {
        Ok(stats) => Ok(
            FeedbackStatsRevealedEvent {
                post_id,
                total_feedback: stats.total_feedback,
                average_rating: average_rating(stats.sum_ratings, stats.total_feedback),
                rating_distribution: stats.rating_counts,
            },
        ),
        Err(e) => Err(e),
    }
}

/// Creates a plain post written by `author` at `now`, with no comments or feedback yet.
pub fn create_opinion_post(
    post_id: u64,
    encrypted_title: [u8; 32],
    encrypted_content: [u8; 128],
    encrypted_topic: [u8; 16],
    author: Key,
    now: i64,
) -> (r: (OpinionPostAccount, OpinionPostCreatedEvent))
    ensures
        r.0 == (OpinionPostAccount {
            post_id,
            encrypted_title,
            encrypted_content,
            encrypted_topic,
            author,
            created_at: now,
            total_comments: 0,
            total_feedback: 0,
        }),
        r.1 == (OpinionPostCreatedEvent { post_id, author }),
{
    let post = OpinionPostAccount {
        post_id,
        encrypted_title,
        encrypted_content,
        encrypted_topic,
        author,
        created_at: now,
        total_comments: 0,
        total_feedback: 0,
    };
    (post, OpinionPostCreatedEvent { post_id, author })
}

/// Adds a comment by `author` at `now` to `post`, and counts it on the post.
pub fn add_comment(
    post: &mut OpinionPostAccount,
    comment_id: u64,
    encrypted_content: [u8; 64],
    author: Key,
    now: i64,
) -> (r: (CommentAccount, CommentAddedEvent))
    requires
        old(post).total_comments < u32::MAX,
    ensures
        *final(post) == (OpinionPostAccount {
            total_comments: (old(post).total_comments + 1) as u32,
            ..*old(post)
        }),
        r.0 == (CommentAccount {
            comment_id,
            post_id: old(post).post_id,
            encrypted_content,
            author,
            created_at: now,
        }),
        r.1 == (CommentAddedEvent { comment_id, post_id: old(post).post_id, author }),
{
    let comment = CommentAccount {
        comment_id,
        post_id: post.post_id,
        encrypted_content,
        author,
        created_at: now,
    };
    post.total_comments = post.total_comments + 1;
    (comment, CommentAddedEvent { comment_id, post_id: post.post_id, author })
}

} // verus!
