use encrypted_opinion::circuits::{
    init_feedback_stats, init_opinion_stats, init_vote_stats, reveal_feedback_stats,
    reveal_opinion_stats, reveal_result, submit_feedback, submit_opinion, vote, FeedbackResponse,
    OpinionResponse, OpinionStats, UserVote, VoteStats,
};
use encrypted_opinion::post_circuits;

fn tally(votes: &[bool]) -> VoteStats {
    let mut stats = init_vote_stats();
    for &v in votes {
        stats = vote(UserVote { vote: v }, stats);
    }
    stats
}

fn rate(ratings: &[u8]) -> OpinionStats {
    let mut stats = init_opinion_stats();
    for &r in ratings {
        stats = submit_opinion(OpinionResponse { rating: r }, stats);
    }
    stats
}

#[test]
fn fresh_vote_stats_are_zero() {
    assert_eq!(init_vote_stats(), VoteStats { yes: 0, no: 0 });
    assert!(!reveal_result(init_vote_stats()));
}

#[test]
fn three_yes_two_no_reveals_true() {
    let stats = tally(&[true, true, false, true, false]);
    assert_eq!(stats, VoteStats { yes: 3, no: 2 });
    assert!(reveal_result(stats));
}

#[test]
fn two_yes_three_no_reveals_false() {
    let stats = tally(&[false, true, false, true, false]);
    assert_eq!(stats, VoteStats { yes: 2, no: 3 });
    assert!(!reveal_result(stats));
}

#[test]
fn tie_reveals_false() {
    let stats = tally(&[true, false, true, false]);
    assert_eq!(stats, VoteStats { yes: 2, no: 2 });
    assert!(!reveal_result(stats));
}

#[test]
fn vote_order_does_not_matter() {
    assert_eq!(tally(&[true, false]), tally(&[false, true]));
    assert_eq!(tally(&[true, true, false]), tally(&[false, true, true]));
}

#[test]
fn ratings_with_one_out_of_range() {
    let stats = reveal_opinion_stats(rate(&[5, 3, 7, 1]));
    assert_eq!(stats.total_responses, 4);
    assert_eq!(stats.sum_ratings, 9);
    assert_eq!(stats.rating_counts, [1, 0, 1, 0, 1]);
}

#[test]
fn zero_rating_counts_but_adds_nothing() {
    let stats = rate(&[0, 2, 255]);
    assert_eq!(stats.total_responses, 3);
    assert_eq!(stats.sum_ratings, 2);
    assert_eq!(stats.rating_counts, [0, 1, 0, 0, 0]);
}

#[test]
fn rating_order_does_not_matter() {
    let a = rate(&[4, 9, 4, 2]);
    let b = rate(&[2, 4, 9, 4]);
    assert_eq!(a.total_responses, b.total_responses);
    assert_eq!(a.sum_ratings, b.sum_ratings);
    assert_eq!(a.rating_counts, b.rating_counts);
    assert_eq!(a.rating_counts, [0, 1, 0, 2, 0]);
}

#[test]
fn fresh_opinion_stats_are_zero() {
    let stats = init_opinion_stats();
    assert_eq!(stats.total_responses, 0);
    assert_eq!(stats.sum_ratings, 0);
    assert_eq!(stats.rating_counts, [0; 5]);
}

#[test]
fn feedback_follows_the_same_policy() {
    let mut stats = init_feedback_stats();
    assert_eq!(stats.total_feedback, 0);
    for r in [5u8, 3, 7, 1] {
        stats = submit_feedback(FeedbackResponse { rating: r }, stats);
    }
    let stats = reveal_feedback_stats(stats);
    assert_eq!(stats.total_feedback, 4);
    assert_eq!(stats.sum_ratings, 9);
    assert_eq!(stats.rating_counts, [1, 0, 1, 0, 1]);
}

#[test]
fn post_tally_reveals_strict_majority() {
    let mut stats = post_circuits::init_opinion_stats();
    assert_eq!(stats, post_circuits::OpinionStats { agree: 0, disagree: 0 });
    for s in [true, false, true] {
        stats = post_circuits::submit_opinion(post_circuits::OpinionVote { support: s }, stats);
    }
    assert_eq!(stats, post_circuits::OpinionStats { agree: 2, disagree: 1 });
    assert!(post_circuits::reveal_opinion(stats));
    stats = post_circuits::submit_opinion(post_circuits::OpinionVote { support: false }, stats);
    assert!(!post_circuits::reveal_opinion(stats));
}
