//! The table of computations in flight: each correlation token binds one request to
//! the one callback that may consume it, the record it targets, the operation it
//! expects, and the nonce of the record's ciphertexts that the request was built
//! against. A result computed from ciphertexts that have since been replaced is
//! refused, so updates to a record are applied in order and each at most once.
use vstd::prelude::*;
use crate::computation::{Key, same_key};

verus! {

/// The circuit operation a request runs.
#[derive(Clone, Copy, Debug, PartialEq, Eq, Structural)]
pub enum Operation {
    InitStats,
    Submit,
    Reveal,
}

/// One request in flight.
#[derive(Clone, Copy, Debug)]
pub struct PendingComputation {
    /// The correlation token.
    pub token: u64,
    /// The record the callback writes to.
    pub target: Key,
    pub operation: Operation,
    /// Nonce of the record's ciphertexts when the request was built.
    pub nonce: u128,
}

/// Why a registration or a callback was refused.
#[derive(Clone, Copy, Debug, PartialEq, Eq, Structural)]
pub enum PendingError {
    /// The token is already bound to a request in flight.
    DuplicateToken,
    /// No request in flight carries the token.
    UnknownToken,
    /// The callback's operation or record is not the one the request was made for.
    Mismatch,
    /// The record's ciphertexts changed after the request was built.
    StaleState,
}

pub struct PendingTable {
    entries: Vec<PendingComputation>,
}

impl View for PendingTable {
    type V = Seq<PendingComputation>;

    closed spec fn view(&self) -> Seq<PendingComputation> {
        self.entries@
    }
}

/// No two requests share a token.
pub open spec fn tokens_unique(entries: Seq<PendingComputation>) -> bool {
    forall|i: int, j: int|
        0 <= i < j < entries.len() ==> #[trigger] entries[i].token != #[trigger] entries[j].token
}

/// Some request carries `token`.
pub open spec fn token_in(entries: Seq<PendingComputation>, token: u64) -> bool {
    exists|i: int| 0 <= i < entries.len() && #[trigger] entries[i].token == token
}

/// Position of the request that carries `token`, if any.
pub open spec fn index_of(entries: Seq<PendingComputation>, token: u64) -> Option<int> {
    if exists|i: int| 0 <= i < entries.len() && entries[i].token == token {
        Some(choose|i: int| 0 <= i < entries.len() && entries[i].token == token)
    } else {
        None
    }
}

/// What consuming `token` for a callback of `operation` on `target`, whose ciphertexts
/// now carry `nonce`, yields.
pub open spec fn settle_outcome(
    entries: Seq<PendingComputation>,
    token: u64,
    operation: Operation,
    target: Key,
    nonce: u128,
) -> Result<PendingComputation, PendingError> {
    match index_of(entries, token) {
        None => Err(PendingError::UnknownToken),
        Some(i) => {
            let e = entries[i];
            if e.operation != operation || e.target@ != target@ {
                Err(PendingError::Mismatch)
            } else if e.nonce != nonce {
                Err(PendingError::StaleState)
            } else {
                Ok(e)
            }
        },
    }
}

/// The requests still in flight after that: the request is consumed unless the token
/// is unknown or the callback does not match it.
pub open spec fn settle_remaining(
    entries: Seq<PendingComputation>,
    token: u64,
    operation: Operation,
    target: Key,
    nonce: u128,
) -> Seq<PendingComputation> {
    match settle_outcome(entries, token, operation, target, nonce) {
        Err(PendingError::UnknownToken) | Err(PendingError::Mismatch) => entries,
        _ => entries.remove(index_of(entries, token)->Some_0),
    }
}

impl PendingTable {
    /// No two requests in flight share a token.
    pub open spec fn wf(&self) -> bool {
        tokens_unique(self@)
    }

    pub open spec fn has_token(&self, token: u64) -> bool {
        token_in(self@, token)
    }

    pub fn new() -> (r: PendingTable)
        ensures
            r.wf(),
            r@ == Seq::<PendingComputation>::empty(),
    {
        PendingTable { entries: Vec::new() }
    }

    fn find(&self, token: u64) -> (r: Option<usize>)
        ensures
            r matches Some(i) ==> i < self@.len() && self@[i as int].token == token,
            r is None ==> !self.has_token(token),
    {
        let mut i: usize = 0;
        while i < self.entries.len()
            invariant
                0 <= i <= self@.len(),
                forall|j: int| 0 <= j < i ==> self@[j].token != token,
            decreases self@.len() - i,
        {
            if self.entries[i].token == token {
                return Some(i);
            }
            i = i + 1;
        }
        None
    }

    /// Records a request in flight; refused when its token is already in flight.
    pub fn register(&mut self, entry: PendingComputation) -> (r: Result<(), PendingError>)
        requires
            old(self).wf(),
        ensures
            final(self).wf(),
            old(self).has_token(entry.token) ==> r == Err::<(), _>(PendingError::DuplicateToken)
                && final(self)@ == old(self)@,
            !old(self).has_token(entry.token) ==> r is Ok && final(self)@ == old(self)@.push(
                entry,
            ),
    {
        match self.find(entry.token) {
            Some(_) => Err(PendingError::DuplicateToken),
            None => {
                self.entries.push(entry);
                assert forall|i: int, j: int| 0 <= i < j < self@.len() implies #[trigger] self@[i].token
                    != #[trigger] self@[j].token by {
                    if j == self@.len() - 1 {
                        assert(old(self)@[i].token == self@[i].token);
                    }
                }
                Ok(())
            },
        }
    }

    /// Consumes the request that `token` names, for a callback of `operation` on the
    /// record `target` whose ciphertexts now carry `current_nonce`.
    ///
    /// Refused when no request carries the token, and then when the request was made
    /// for another operation or record; both leave the table as it was. Refused as
    /// stale when the record's nonce is no longer the one the request was built
    /// against; the request is consumed all the same. Otherwise the request is
    /// consumed and handed back. A consumed token is no longer in flight.
    pub fn settle(&mut self, token: u64, operation: Operation, target: Key, current_nonce: u128) -> (r:
        Result<PendingComputation, PendingError>)
        requires
            old(self).wf(),
        ensures
            final(self).wf(),
            r == settle_outcome(old(self)@, token, operation, target, current_nonce),
            final(self)@ == settle_remaining(old(self)@, token, operation, target, current_nonce),
            final(self)@ != old(self)@ ==> !final(self).has_token(token),
    {
        match self.find(token) {
            None => Err(PendingError::UnknownToken),
            Some(i) => {
                proof {
                    let k = index_of(self@, token)->Some_0;
                    assert(self@[i as int].token == token);
                    if k != i as int {
                        if k < i as int {
                            assert(self@[k].token != self@[i as int].token);
                        } else {
                            assert(self@[i as int].token != self@[k].token);
                        }
                    }
                }
                let e = self.entries[i];
                if e.operation != operation || !same_key(&e.target, &target) {
                    return Err(PendingError::Mismatch);
                }
                let ghost before = self@;
                self.entries.remove(i);
                assert forall|a: int, b: int| 0 <= a < b < self@.len() implies #[trigger] self@[a].token
                    != #[trigger] self@[b].token by {
                    let a0 = if a < i { a } else { a + 1 };
                    let b0 = if b < i { b } else { b + 1 };
                    assert(before[a0].token != before[b0].token);
                }
                assert(!self.has_token(token)) by {
                    if self.has_token(token) {
                        let c = choose|c: int| 0 <= c < self@.len() && #[trigger] self@[c].token == token;
                        let c0 = if c < i { c } else { c + 1 };
                        if c0 < i as int {
                            assert(before[c0].token != before[i as int].token);
                        } else {
                            assert(before[i as int].token != before[c0].token);
                        }
                    }
                }
                if e.nonce != current_nonce {
                    Err(PendingError::StaleState)
                } else {
                    Ok(e)
                }
            },
        }
    }
}

/// A callback is applied at most once: once a callback has consumed its request,
/// the same token finds no request in flight, whatever callback presents it.
pub proof fn lemma_consumed_token_is_gone(
    entries: Seq<PendingComputation>,
    token: u64,
    operation: Operation,
    target: Key,
    nonce: u128,
    replay_operation: Operation,
    replay_target: Key,
    replay_nonce: u128,
)
    requires
        tokens_unique(entries),
        settle_outcome(entries, token, operation, target, nonce) is Ok
            || settle_outcome(entries, token, operation, target, nonce) == Err::<
            PendingComputation,
            _,
        >(PendingError::StaleState),
    ensures
        settle_outcome(
            settle_remaining(entries, token, operation, target, nonce),
            token,
            replay_operation,
            replay_target,
            replay_nonce,
        ) == Err::<PendingComputation, _>(PendingError::UnknownToken),
{
    let i = index_of(entries, token)->Some_0;
    let rest = settle_remaining(entries, token, operation, target, nonce);
    assert(rest == entries.remove(i));
    assert forall|c: int| 0 <= c < rest.len() implies rest[c].token != token by {
        let c0 = if c < i { c } else { c + 1 };
        if c0 < i {
            assert(entries[c0].token != entries[i].token);
        } else {
            assert(entries[i].token != entries[c0].token);
        }
    }
    assert(index_of(rest, token) is None);
}

} // verus!
