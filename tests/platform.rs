use encrypted_opinion::circuits::{
    self, init_vote_stats as tally_init, reveal_result as tally_reveal, FeedbackStats, OpinionResponse,
    OpinionStats, UserVote,
};
use encrypted_opinion::computation::{Argument, CallbackOutput, Key, SealedAggregate};
use encrypted_opinion::orchestrator::{ErrorCode, FlowError, PostStatus};
use encrypted_opinion::pending::{PendingError, PendingTable};
use encrypted_opinion::platform::{
    add_comment, create_opinion_post, init_feedback_stats, init_feedback_stats_callback, init_opinion_stats,
    init_opinion_stats_callback, init_vote_stats, init_vote_stats_callback, reveal_feedback_stats,
    reveal_feedback_stats_callback, reveal_opinion_stats, reveal_opinion_stats_callback, reveal_result,
    reveal_result_callback, submit_feedback_callback, submit_feedback_response, submit_opinion_callback,
    submit_opinion_response, vote, vote_callback, FeedbackStatsAccount, OpinionAccount, PollAccount,
};

const AUTHORITY: Key = [7; 32];
const STRANGER: Key = [8; 32];
const KEY: Key = [9; 32];
const VOTER: Key = [6; 32];
const DEADLINE: i64 = 1_000;

fn sealed<const N: usize>(tag: u8, nonce: u128) -> SealedAggregate<N> {
    SealedAggregate { nonce, ciphertexts: [[tag; 32]; N] }
}

fn new_poll(t: &mut PendingTable) -> PollAccount {
    let (mut poll, req) = init_vote_stats(t, 0, AUTHORITY, KEY, 1, 40, 4, "Q".to_string(), String::new(), String::new(), DEADLINE, 5)
        .ok()
        .expect("opened");
    assert_eq!(req.computation_offset, 40);
    assert_eq!(req.comp_def_offset, arcium_anchor::comp_def_offset("init_vote_stats"));
    assert_eq!(req.args, vec![Argument::PlaintextU128(5)]);
    assert_eq!(poll.id, 4);
    assert_eq!(poll.status, PostStatus::Active);
    assert_eq!(init_vote_stats_callback(t, &mut poll, KEY, 40, CallbackOutput::Success(sealed::<2>(1, 6))), Ok(()));
    assert_eq!(poll.nonce, 6);
    poll
}

fn new_opinion(t: &mut PendingTable) -> OpinionAccount {
    let (mut op, req) = init_opinion_stats(t, 0, AUTHORITY, KEY, 1, 41, 5, "R".to_string(), String::new(), String::new(), DEADLINE, 5)
        .ok()
        .expect("opened");
    assert_eq!(req.comp_def_offset, arcium_anchor::comp_def_offset("init_opinion_stats"));
    assert_eq!(op.state, [[0; 32]; 7]);
    init_opinion_stats_callback(t, &mut op, KEY, 41, CallbackOutput::Success(sealed::<7>(1, 6))).ok().expect("sealed");
    op
}

fn new_feedback(t: &mut PendingTable) -> FeedbackStatsAccount {
    let (mut fb, req) = init_feedback_stats(t, 0, AUTHORITY, KEY, 1, 42, 6, "F".to_string(), String::new(), String::new(), DEADLINE, 5)
        .ok()
        .expect("opened");
    assert_eq!(req.comp_def_offset, arcium_anchor::comp_def_offset("init_feedback_stats"));
    init_feedback_stats_callback(t, &mut fb, KEY, 42, CallbackOutput::Success(sealed::<7>(1, 6))).ok().expect("sealed");
    fb
}

#[test]
fn vote_request_carries_key_nonce_ballot_and_state() {
    let mut t = PendingTable::new();
    let poll = new_poll(&mut t);
    let req = vote(&mut t, &poll, KEY, 10, 5, [1; 32], [2; 32], 33).ok().expect("queued");
    assert_eq!(req.computation_offset, 5);
    assert_eq!(req.comp_def_offset, arcium_anchor::comp_def_offset("vote"));
    assert_eq!(
        req.args,
        vec![
            Argument::ArcisPubkey([2; 32]),
            Argument::PlaintextU128(33),
            Argument::EncryptedBool([1; 32]),
            Argument::PlaintextU128(6),
            Argument::Account(KEY, 9, 64),
        ]
    );
    assert_eq!(req.callback_account, Some(KEY));
}

#[test]
fn vote_after_deadline_or_on_closed_poll_is_rejected() {
    let mut t = PendingTable::new();
    let mut poll = new_poll(&mut t);
    let r = vote(&mut t, &poll, KEY, DEADLINE, 5, [1; 32], [2; 32], 33);
    assert!(matches!(r, Err(FlowError::Rejected(ErrorCode::DeadlinePassed))));
    poll.status = PostStatus::Cancelled;
    let r = vote(&mut t, &poll, KEY, 10, 5, [1; 32], [2; 32], 33);
    assert!(matches!(r, Err(FlowError::Rejected(ErrorCode::PostNotActive))));
}

#[test]
fn reveal_result_checks_authority_and_deadline() {
    let mut t = PendingTable::new();
    let poll = new_poll(&mut t);
    let r = reveal_result(&mut t, &poll, KEY, STRANGER, DEADLINE, 8);
    assert!(matches!(r, Err(FlowError::Rejected(ErrorCode::Unauthorized))));
    let r = reveal_result(&mut t, &poll, KEY, AUTHORITY, DEADLINE - 1, 8);
    assert!(matches!(r, Err(FlowError::Rejected(ErrorCode::DeadlineNotReached))));
    let req = reveal_result(&mut t, &poll, KEY, AUTHORITY, DEADLINE, 8).ok().expect("queued");
    assert_eq!(req.comp_def_offset, arcium_anchor::comp_def_offset("reveal_result"));
    assert_eq!(req.args, vec![Argument::PlaintextU128(6), Argument::Account(KEY, 9, 64)]);
}

#[test]
fn poll_end_to_end() {
    let mut t = PendingTable::new();
    let mut poll = new_poll(&mut t);
    let mut tally = tally_init();
    for (i, &v) in [true, true, false, true, false].iter().enumerate() {
        let token = 100 + i as u64;
        vote(&mut t, &poll, KEY, 10, token, [1; 32], VOTER, 0).ok().expect("queued");
        tally = circuits::vote(UserVote { vote: v }, tally);
        let nonce = poll.nonce + 1;
        let ev = vote_callback(&mut t, &mut poll, KEY, token, VOTER, CallbackOutput::Success(sealed::<2>(2, nonce)))
            .ok()
            .expect("counted");
        assert_eq!((ev.poll_id, ev.submitter), (4, VOTER));
    }
    assert_eq!(poll.response_count, 5);
    reveal_result(&mut t, &poll, KEY, AUTHORITY, DEADLINE, 200).ok().expect("queued");
    let ev = reveal_result_callback(&mut t, &mut poll, KEY, 200, DEADLINE, CallbackOutput::Success(tally_reveal(tally)))
        .ok()
        .expect("revealed");
    assert_eq!((ev.poll_id, ev.majority_yes), (4, true));
    assert_eq!(poll.status, PostStatus::Revealed);
    assert_eq!(poll.revealed_at, Some(DEADLINE));
}

#[test]
fn vote_callback_refuses_replay_stale_and_abort() {
    let mut t = PendingTable::new();
    let mut poll = new_poll(&mut t);
    vote(&mut t, &poll, KEY, 10, 1, [1; 32], VOTER, 0).ok().expect("queued");
    vote(&mut t, &poll, KEY, 10, 2, [1; 32], VOTER, 0).ok().expect("queued");
    vote(&mut t, &poll, KEY, 10, 3, [1; 32], VOTER, 0).ok().expect("queued");
    let r = vote_callback(&mut t, &mut poll, KEY, 3, VOTER, CallbackOutput::Aborted);
    assert!(matches!(r, Err(FlowError::Rejected(ErrorCode::AbortedComputation))));
    assert_eq!((poll.nonce, poll.response_count), (6, 0));
    vote_callback(&mut t, &mut poll, KEY, 1, VOTER, CallbackOutput::Success(sealed::<2>(2, 7))).ok().expect("counted");
    let r = vote_callback(&mut t, &mut poll, KEY, 1, VOTER, CallbackOutput::Success(sealed::<2>(3, 8)));
    assert!(matches!(r, Err(FlowError::Pending(PendingError::UnknownToken))));
    let r = vote_callback(&mut t, &mut poll, KEY, 2, VOTER, CallbackOutput::Success(sealed::<2>(3, 8)));
    assert!(matches!(r, Err(FlowError::Pending(PendingError::StaleState))));
    assert_eq!((poll.nonce, poll.response_count), (7, 1));
    assert_eq!(poll.state, [[2; 32]; 2]);
}

#[test]
fn opinion_ratings_end_to_end() {
    let mut t = PendingTable::new();
    let mut op = new_opinion(&mut t);
    let mut stats = circuits::init_opinion_stats();
    for (i, &rating) in [5u8, 3, 7, 1].iter().enumerate() {
        let token = 300 + i as u64;
        let req = submit_opinion_response(&mut t, &op, KEY, 10, token, [rating; 32], VOTER, 1).ok().expect("queued");
        assert_eq!(req.comp_def_offset, arcium_anchor::comp_def_offset("submit_opinion"));
        assert_eq!(req.args[2], Argument::EncryptedU8([rating; 32]));
        assert_eq!(req.args[4], Argument::Account(KEY, 9, 224));
        stats = circuits::submit_opinion(OpinionResponse { rating }, stats);
        let nonce = op.nonce + 1;
        let ev = submit_opinion_callback(&mut t, &mut op, KEY, token, VOTER, CallbackOutput::Success(sealed::<7>(4, nonce)))
            .ok()
            .expect("counted");
        assert_eq!((ev.opinion_id, ev.submitter), (5, VOTER));
    }
    assert_eq!(op.response_count, 4);
    let r = reveal_opinion_stats(&mut t, &op, KEY, STRANGER, DEADLINE, 400);
    assert!(matches!(r, Err(FlowError::Rejected(ErrorCode::Unauthorized))));
    let req = reveal_opinion_stats(&mut t, &op, KEY, AUTHORITY, DEADLINE, 400).ok().expect("queued");
    assert_eq!(req.comp_def_offset, arcium_anchor::comp_def_offset("reveal_opinion_stats"));
    let revealed = circuits::reveal_opinion_stats(stats);
    let ev = reveal_opinion_stats_callback(&mut t, &mut op, KEY, 400, DEADLINE, CallbackOutput::Success(revealed))
        .ok()
        .expect("revealed");
    assert_eq!(ev.opinion_id, 5);
    assert_eq!(ev.total_responses, 4);
    assert_eq!(ev.average_rating, 22);
    assert_eq!(ev.rating_distribution, [1, 0, 1, 0, 1]);
    assert_eq!(op.status, PostStatus::Revealed);
}

#[test]
fn opinion_submissions_after_deadline_are_rejected() {
    let mut t = PendingTable::new();
    let op = new_opinion(&mut t);
    let r = submit_opinion_response(&mut t, &op, KEY, DEADLINE, 1, [1; 32], VOTER, 1);
    assert!(matches!(r, Err(FlowError::Rejected(ErrorCode::DeadlinePassed))));
}

#[test]
fn feedback_end_to_end() {
    let mut t = PendingTable::new();
    let mut fb = new_feedback(&mut t);
    let req = submit_feedback_response(&mut t, &fb, KEY, 10, 1, [3; 32], VOTER, 55).ok().expect("queued");
    assert_eq!(req.comp_def_offset, arcium_anchor::comp_def_offset("submit_feedback"));
    assert_eq!(req.args[2], Argument::EncryptedU8([3; 32]));
    let ev = submit_feedback_callback(&mut t, &mut fb, KEY, 1, VOTER, CallbackOutput::Success(sealed::<7>(2, 7)))
        .ok()
        .expect("counted");
    assert_eq!((ev.post_id, ev.submitter), (6, VOTER));
    assert_eq!(fb.response_count, 1);
    let r = submit_feedback_response(&mut t, &fb, KEY, DEADLINE + 1, 2, [3; 32], VOTER, 55);
    assert!(matches!(r, Err(FlowError::Rejected(ErrorCode::DeadlinePassed))));
    let r = reveal_feedback_stats(&mut t, &fb, KEY, AUTHORITY, DEADLINE - 1, 3);
    assert!(matches!(r, Err(FlowError::Rejected(ErrorCode::DeadlineNotReached))));
    reveal_feedback_stats(&mut t, &fb, KEY, AUTHORITY, DEADLINE, 3).ok().expect("queued");
    let stats = FeedbackStats { total_feedback: 1, sum_ratings: 30, rating_counts: [0; 5] };
    let ev = reveal_feedback_stats_callback(&mut t, &mut fb, KEY, 3, DEADLINE, CallbackOutput::Success(stats))
        .ok()
        .expect("revealed");
    assert_eq!(ev.post_id, 6);
    assert_eq!(ev.total_feedback, 1);
    assert_eq!(ev.average_rating, 44);
}

#[test]
fn empty_ratings_report_zero_mean() {
    let mut t = PendingTable::new();
    let mut fb = new_feedback(&mut t);
    reveal_feedback_stats(&mut t, &fb, KEY, AUTHORITY, DEADLINE, 3).ok().expect("queued");
    let stats = FeedbackStats { total_feedback: 0, sum_ratings: 0, rating_counts: [0; 5] };
    let ev = reveal_feedback_stats_callback(&mut t, &mut fb, KEY, 3, DEADLINE, CallbackOutput::Success(stats))
        .ok()
        .expect("revealed");
    assert_eq!(ev.average_rating, 0);
    assert_eq!(ev.rating_distribution, [0; 5]);
}

#[test]
fn aborted_rating_reveal_leaves_the_record() {
    let mut t = PendingTable::new();
    let mut op = new_opinion(&mut t);
    reveal_opinion_stats(&mut t, &op, KEY, AUTHORITY, DEADLINE, 3).ok().expect("queued");
    let r = reveal_opinion_stats_callback(&mut t, &mut op, KEY, 3, DEADLINE, CallbackOutput::<OpinionStats>::Aborted);
    assert!(matches!(r, Err(FlowError::Rejected(ErrorCode::AbortedComputation))));
    assert_eq!(op.status, PostStatus::Active);
    assert_eq!(op.revealed_at, None);
}

#[test]
fn posts_and_comments() {
    let (mut post, ev) = create_opinion_post(3, [1; 32], [2; 128], [3; 16], [4; 32], 50);
    assert_eq!(post.post_id, 3);
    assert_eq!(post.encrypted_content, [2; 128]);
    assert_eq!(post.author, [4; 32]);
    assert_eq!(post.created_at, 50);
    assert_eq!(post.total_comments, 0);
    assert_eq!(post.total_feedback, 0);
    assert_eq!((ev.post_id, ev.author), (3, [4; 32]));
    let (comment, ev) = add_comment(&mut post, 9, [5; 64], [6; 32], 60);
    assert_eq!(post.total_comments, 1);
    assert_eq!(comment.comment_id, 9);
    assert_eq!(comment.post_id, 3);
    assert_eq!(comment.encrypted_content, [5; 64]);
    assert_eq!(comment.author, [6; 32]);
    assert_eq!(comment.created_at, 60);
    assert_eq!((ev.comment_id, ev.post_id, ev.author), (9, 3, [6; 32]));
    add_comment(&mut post, 10, [5; 64], [6; 32], 61);
    assert_eq!(post.total_comments, 2);
}
