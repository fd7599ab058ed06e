//! Confidential opinion posts: a post collects encrypted agree/disagree opinions and
//! reveals only whether the opinions agree by majority.
//!
//! Lifecycle of a post: `Active` accepts opinions until its deadline; after the
//! deadline its authority may request the reveal, whose callback moves it to the
//! terminal `Revealed`. Every callback first consumes the request it answers, so a
//! stale, replayed or aborted result leaves the post exactly as it was.
use vstd::prelude::*;
pub use crate::orchestrator::{ErrorCode, PostStatus};
use crate::computation::{CallbackOutput, ComputationRequest, Key, SealedAggregate};
use crate::orchestrator::{
    Domain,
    FlowError,
    PollRecord,
    complete_init,
    complete_response,
    complete_reveal,
    init_completed,
    open_record,
    opened,
    outcome,
    request_response,
    request_reveal,
    response_completed,
    response_requested,
    reveal_completed,
    reveal_requested,
};
use crate::pending::PendingTable;

verus! {

/// A confidential opinion post: its encrypted agree and disagree counters, with
/// their nonce, and its metadata.
pub type PostAccount = PollRecord<2>;

/// Notification that a post's encrypted counters are in place.
pub struct PostCreated {
    pub post_key: Key,
    pub authority: Key,
    pub title: String,
    pub created_at: i64,
}

/// Notification that an opinion was committed to a post.
pub struct OpinionSubmitted {
    pub post_key: Key,
    pub timestamp: i64,
}

/// Notification of a post's revealed result.
pub struct ResultsRevealed {
    pub post_key: Key,
    pub majority_agrees: bool,
    pub revealed_at: i64,
}

/// Creates a post at time `now` for `payer`, stored at `post_key`, and the request
/// that has the cluster seal its zeroed counters, recorded as in flight under
/// `computation_offset`.
///
/// Rejected when the title is over 200 bytes, else when the deadline is not
/// strictly after `now`, else when the token is already in flight.
pub fn create_post(
    table: &mut PendingTable,
    now: i64,
    payer: Key,
    post_key: Key,
    bump: u8,
    computation_offset: u64,
    post_id: u64,
    title: String,
    content_hash: String,
    storage_cid: String,
    deadline: i64,
    nonce: u128,
) -> (r: Result<(PostAccount, ComputationRequest), FlowError>)
    requires
        old(table).wf(),
    ensures
        final(table).wf(),
        opened(
            Domain::Post,
            old(table)@,
            final(table)@,
            now,
            payer,
            post_key,
            bump,
            computation_offset,
            post_id,
            title@,
            content_hash@,
            storage_cid@,
            deadline,
            nonce,
            r,
        ),
{
    open_record(
        table,
        Domain::Post,
        now,
        payer,
        post_key,
        bump,
        computation_offset,
        post_id,
        title,
        content_hash,
        storage_cid,
        deadline,
        nonce,
    )
}

/// The request that folds one encrypted opinion into the post's counters, recorded
/// as in flight against the post's current nonce.
///
/// Rejected, with no request, when the post is not `Active`, else when `now` is at
/// or past the deadline, else when the token is already in flight.
pub fn submit_opinion(
    table: &mut PendingTable,
    post: &PostAccount,
    post_key: Key,
    now: i64,
    computation_offset: u64,
    opinion: [u8; 32],
    opinion_encryption_pubkey: Key,
    opinion_nonce: u128,
) -> (r: Result<ComputationRequest, FlowError>)
    requires
        old(table).wf(),
    ensures
        final(table).wf(),
        response_requested(
            Domain::Post,
            old(table)@,
            final(table)@,
            *post,
            post_key,
            now,
            computation_offset,
            opinion,
            opinion_encryption_pubkey,
            opinion_nonce,
            r,
        ),
{
    request_response(
        table,
        Domain::Post,
        post,
        post_key,
        now,
        computation_offset,
        opinion,
        opinion_encryption_pubkey,
        opinion_nonce,
    )
}

/// The request that reveals whether the post's opinions agree by majority.
///
/// Rejected, with no request, unless `payer` is the post's authority, then unless the
/// post is `Active`, then unless `now` has reached the deadline, then when the token
/// is already in flight.
pub fn reveal_opinion(
    table: &mut PendingTable,
    post: &PostAccount,
    post_key: Key,
    payer: Key,
    now: i64,
    computation_offset: u64,
) -> (r: Result<ComputationRequest, FlowError>)
    requires
        old(table).wf(),
    ensures
        final(table).wf(),
        reveal_requested(
            Domain::Post,
            old(table)@,
            final(table)@,
            *post,
            post_key,
            payer,
            now,
            computation_offset,
            r,
        ),
{
    request_reveal(table, Domain::Post, post, post_key, payer, now, computation_offset)
}

/// Answers the sealing request `token`: stores the sealed zeroed counters and yields
/// the creation notice.
pub fn init_opinion_stats_callback(
    table: &mut PendingTable,
    post: &mut PostAccount,
    post_key: Key,
    token: u64,
    output: CallbackOutput<SealedAggregate<2>>,
) -> (r: Result<PostCreated, FlowError>)
    requires
        old(table).wf(),
    ensures
        final(table).wf(),
        init_completed(
            old(table)@,
            final(table)@,
            *old(post),
            *final(post),
            post_key,
            token,
            output,
            outcome(r),
        ),
        r matches Ok(ev) ==> ev.post_key == post_key && ev.authority == old(post).authority
            && ev.title@ == old(post).title@ && ev.created_at == old(post).created_at,
{
    match complete_init(table, post, post_key, token, output) {
        Ok(()) => Ok(
            PostCreated {
                post_key,
                authority: post.authority,
                title: post.title.clone(),
                created_at: post.created_at,
            },
        ),
        Err(e) => Err(e),
    }
}

/// Answers the submission request `token`: stores the counters with the opinion
/// folded in, counts it, and yields the submission notice stamped `now`.
pub fn submit_opinion_callback(
    table: &mut PendingTable,
    post: &mut PostAccount,
    post_key: Key,
    token: u64,
    now: i64,
    output: CallbackOutput<SealedAggregate<2>>,
) -> (r: Result<OpinionSubmitted, FlowError>)
    requires
        old(table).wf(),
        output is Success ==> old(post).response_count < u32::MAX,
    ensures
        final(table).wf(),
        response_completed(
            old(table)@,
            final(table)@,
            *old(post),
            *final(post),
            post_key,
            token,
            output,
            outcome(r),
        ),
        r matches Ok(ev) ==> ev == (OpinionSubmitted { post_key, timestamp: now }),
{
    match complete_response(table, post, post_key, token, output) {
        Ok(()) => Ok(OpinionSubmitted { post_key, timestamp: now }),
        Err(e) => Err(e),
    }
}

/// Answers the reveal request `token`: marks the post `Revealed` at `now` and yields
/// the notice carrying the result.
pub fn reveal_opinion_callback(
    table: &mut PendingTable,
    post: &mut PostAccount,
    post_key: Key,
    token: u64,
    now: i64,
    output: CallbackOutput<bool>,
) -> (r: Result<ResultsRevealed, FlowError>)
    requires
        old(table).wf(),
    ensures
        final(table).wf(),
        reveal_completed(
            old(table)@,
            final(table)@,
            *old(post),
            *final(post),
            post_key,
            token,
            now,
            output,
            outcome(r),
        ),
        r matches Ok(ev) ==> (output matches CallbackOutput::Success(agrees) && ev == (
        ResultsRevealed { post_key, majority_agrees: agrees, revealed_at: now })),
{
    match complete_reveal(table, post, post_key, token, now, output) {
        Ok(agrees) => Ok(ResultsRevealed { post_key, majority_agrees: agrees, revealed_at: now }),
        Err(e) => Err(e),
    }
}

} // verus!
