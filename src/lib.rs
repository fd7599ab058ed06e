//! Confidential polls and opinion posts: respondents' inputs are folded into
//! encrypted aggregates by an external computation cluster, and only the aggregate
//! result is ever revealed.
//!
//! - `circuits`, `post_circuits`: what the cluster computes, over plaintext values.
//! - `computation`: requests to the cluster and what comes back.
//! - `pending`: the requests in flight, each bound to its one callback.
//! - `orchestrator`: the validated request and callback phases, generic over the
//!   kind of aggregate.
//! - `post`: confidential opinion posts (agree/disagree).
//! - `platform`: polls (yes/no), opinion and feedback ratings, plain posts and comments.
pub mod circuits;
pub mod computation;
pub mod orchestrator;
pub mod pending;
pub mod platform;
pub mod post;
pub mod post_circuits;
