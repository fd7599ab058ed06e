//! One request orchestrator and callback handler for every kind of confidential
//! aggregate: opinion posts (agree/disagree), polls (yes/no), and opinion and post
//! feedback ratings (count, sum and histogram). The kinds differ only in the shape
//! of the aggregate, which `Domain` describes.
//!
//! Every operation has two phases, tied together by a correlation token. The
//! request phase validates the caller and the clock, builds the request and records
//! it as in flight. The callback phase first consumes that record: a token that is
//! unknown, already consumed, made for another operation or record, or built against
//! ciphertexts that have since been replaced, leaves the record as it was. So each
//! update is applied at most once, and only on top of the state it was computed from.
use vstd::prelude::*;
use vstd::utf8::encode_utf8;
use crate::computation::{
    Argument,
    CallbackOutput,
    ComputationRequest,
    Key,
    SealedAggregate,
    circuit_offset,
    comp_def_offset_of,
    same_key,
};
use crate::pending::{
    Operation,
    PendingComputation,
    PendingError,
    PendingTable,
    settle_outcome,
    settle_remaining,
    token_in,
    tokens_unique,
    lemma_consumed_token_is_gone,
};

verus! {

/// Longest accepted title, in bytes of its UTF-8 encoding.
pub const MAX_TITLE_LEN: usize = 200;

/// Byte offset of the ciphertexts in a record account: 8 bytes of discriminator and 1 of bump.
pub const STATE_OFFSET: u32 = 9;

/// Lifecycle of a record: `Active` accepts responses; `Revealed` and `Cancelled` are terminal.
#[derive(Clone, Copy, Debug, PartialEq, Eq, Structural)]
pub enum PostStatus {
    Active,
    Revealed,
    Cancelled,
}

/// Why an operation was rejected.
#[derive(Clone, Copy, Debug, PartialEq, Eq, Structural)]
pub enum ErrorCode {
    /// Title is too long (max 200 bytes).
    TitleTooLong,
    /// Deadline must be in the future.
    InvalidDeadline,
    /// Post is not active.
    PostNotActive,
    /// Deadline has passed.
    DeadlinePassed,
    /// Deadline has not been reached yet.
    DeadlineNotReached,
    /// Unauthorized action.
    Unauthorized,
    /// Cluster account not initialized.
    ClusterNotSet,
    /// The computation was aborted.
    AbortedComputation,
}

/// Why a two-phase operation did not go through.
#[derive(Clone, Copy, Debug, PartialEq, Eq, Structural)]
pub enum FlowError {
    /// The operation itself refused.
    Rejected(ErrorCode),
    /// The correlation table refused the token.
    Pending(PendingError),
}

/// The kind of aggregate a record holds, and the circuits that work on it.
#[derive(Clone, Copy, Debug, PartialEq, Eq, Structural)]
pub enum Domain {
    /// Agree/disagree tally of an opinion post: two ciphertexts, boolean input.
    Post,
    /// Yes/no tally of a poll: two ciphertexts, boolean input.
    Vote,
    /// Rating statistics of an opinion: seven ciphertexts, one-byte input.
    Opinion,
    /// Rating statistics of a post's feedback: seven ciphertexts, one-byte input.
    Feedback,
}

impl Domain {
    /// Name of the circuit that runs `operation` on this kind of aggregate.
    pub open spec fn circuit(self, operation: Operation) -> Seq<char> {
        match (self, operation) {
            (Domain::Post, Operation::InitStats) => "init_opinion_stats"@,
            (Domain::Post, Operation::Submit) => "submit_opinion"@,
            (Domain::Post, Operation::Reveal) => "reveal_opinion"@,
            (Domain::Vote, Operation::InitStats) => "init_vote_stats"@,
            (Domain::Vote, Operation::Submit) => "vote"@,
            (Domain::Vote, Operation::Reveal) => "reveal_result"@,
            (Domain::Opinion, Operation::InitStats) => "init_opinion_stats"@,
            (Domain::Opinion, Operation::Submit) => "submit_opinion"@,
            (Domain::Opinion, Operation::Reveal) => "reveal_opinion_stats"@,
            (Domain::Feedback, Operation::InitStats) => "init_feedback_stats"@,
            (Domain::Feedback, Operation::Submit) => "submit_feedback"@,
            (Domain::Feedback, Operation::Reveal) => "reveal_feedback_stats"@,
        }
    }

    /// How a respondent's encrypted input is handed to the submit circuit.
    pub open spec fn input_argument(self, input: [u8; 32]) -> Argument {
        match self {
            Domain::Post | Domain::Vote => Argument::EncryptedBool(input),
            Domain::Opinion | Domain::Feedback => Argument::EncryptedU8(input),
        }
    }

    /// Byte length of the stored ciphertexts: 32 bytes per aggregate field.
    pub open spec fn state_len(self) -> u32 {
        match self {
            Domain::Post | Domain::Vote => 64,
            Domain::Opinion | Domain::Feedback => 224,
        }
    }

    fn circuit_name(self, operation: Operation) -> (r: &'static str)
        ensures
            r@ == self.circuit(operation),
    {
        match (self, operation) {
            (Domain::Post, Operation::InitStats) => "init_opinion_stats",
            (Domain::Post, Operation::Submit) => "submit_opinion",
            (Domain::Post, Operation::Reveal) => "reveal_opinion",
            (Domain::Vote, Operation::InitStats) => "init_vote_stats",
            (Domain::Vote, Operation::Submit) => "vote",
            (Domain::Vote, Operation::Reveal) => "reveal_result",
            (Domain::Opinion, Operation::InitStats) => "init_opinion_stats",
            (Domain::Opinion, Operation::Submit) => "submit_opinion",
            (Domain::Opinion, Operation::Reveal) => "reveal_opinion_stats",
            (Domain::Feedback, Operation::InitStats) => "init_feedback_stats",
            (Domain::Feedback, Operation::Submit) => "submit_feedback",
            (Domain::Feedback, Operation::Reveal) => "reveal_feedback_stats",
        }
    }

    fn input(self, input: [u8; 32]) -> (r: Argument)
        ensures
            r == self.input_argument(input),
    {
        match self {
            Domain::Post | Domain::Vote => Argument::EncryptedBool(input),
            Domain::Opinion | Domain::Feedback => Argument::EncryptedU8(input),
        }
    }

    fn state_length(self) -> (r: u32)
        ensures
            r == self.state_len(),
    {
        match self {
            Domain::Post | Domain::Vote => 64,
            Domain::Opinion | Domain::Feedback => 224,
        }
    }
}

/// The public record of one poll or post: the current ciphertexts of its aggregate
/// (one per field) with their nonce, and its plaintext metadata.
pub struct PollRecord<const N: usize> {
    /// Bump seed of the record's derived address.
    pub bump: u8,
    /// The aggregate, one 32-byte ciphertext per field.
    pub state: [[u8; 32]; N],
    /// Identifier of the record.
    pub id: u64,
    /// The creator: the only one who may reveal the result.
    pub authority: Key,
    /// Nonce of the current ciphertexts.
    pub nonce: u128,
    /// The title or question.
    pub title: String,
    /// Hash of the content, stored elsewhere.
    pub content_hash: String,
    /// Content identifier in decentralized storage.
    pub storage_cid: String,
    /// When the record was created.
    pub created_at: i64,
    /// Responses are accepted strictly before this time.
    pub deadline: i64,
    /// Number of responses committed.
    pub response_count: u32,
    pub status: PostStatus,
    /// When the result was revealed, once it has been.
    pub revealed_at: Option<i64>,
}

/// The title fits the limit, counted in bytes.
pub open spec fn title_fits(title: Seq<char>) -> bool {
    encode_utf8(title).len() <= MAX_TITLE_LEN
}

/// All ciphertext bytes are zero: the placeholder until the cluster seals the aggregate.
pub open spec fn is_blank<const N: usize>(state: [[u8; 32]; N]) -> bool {
    forall|i: int, j: int| 0 <= i < N && 0 <= j < 32 ==> #[trigger] state@[i]@[j] == 0
}

/// `req` asks the cluster to run the circuit `name` on `args`, under the correlation
/// token `token`, with its callback writing to `key`.
pub open spec fn requests(
    req: ComputationRequest,
    token: u64,
    name: Seq<char>,
    args: Seq<Argument>,
    key: Key,
) -> bool {
    &&& req.computation_offset == token
    &&& req.comp_def_offset == comp_def_offset_of(name)
    &&& req.args@ == args
    &&& req.callback_account == Some(key)
}

/// The argument that hands the cluster the record's stored ciphertexts.
pub open spec fn state_argument(domain: Domain, key: Key) -> Argument {
    Argument::Account(key, STATE_OFFSET, domain.state_len())
}

/// The arguments of a submission: the respondent's key, the input's nonce, the
/// encrypted input, the record's current nonce and its stored ciphertexts.
pub open spec fn submit_arguments(
    domain: Domain,
    key: Key,
    record_nonce: u128,
    input: [u8; 32],
    input_key: Key,
    input_nonce: u128,
) -> Seq<Argument> {
    seq![
        Argument::ArcisPubkey(input_key),
        Argument::PlaintextU128(input_nonce),
        domain.input_argument(input),
        Argument::PlaintextU128(record_nonce),
        state_argument(domain, key),
    ]
}

/// The arguments of a reveal: the record's current nonce and its stored ciphertexts.
pub open spec fn reveal_arguments(domain: Domain, key: Key, record_nonce: u128) -> Seq<Argument> {
    seq![Argument::PlaintextU128(record_nonce), state_argument(domain, key)]
}

/// The record of a request in flight for `key`.
pub open spec fn in_flight(token: u64, key: Key, operation: Operation, nonce: u128) -> PendingComputation {
    PendingComputation { token, target: key, operation, nonce }
}

/// A record as created: the given metadata, `Active`, no responses, blank ciphertexts.
pub open spec fn fresh_record<const N: usize>(
    rec: PollRecord<N>,
    payer: Key,
    bump: u8,
    id: u64,
    title: Seq<char>,
    content_hash: Seq<char>,
    storage_cid: Seq<char>,
    now: i64,
    deadline: i64,
    nonce: u128,
) -> bool {
    &&& rec.bump == bump
    &&& is_blank(rec.state)
    &&& rec.id == id
    &&& rec.authority == payer
    &&& rec.nonce == nonce
    &&& rec.title@ == title
    &&& rec.content_hash@ == content_hash
    &&& rec.storage_cid@ == storage_cid
    &&& rec.created_at == now
    &&& rec.deadline == deadline
    &&& rec.response_count == 0
    &&& rec.status == PostStatus::Active
    &&& rec.revealed_at is None
}

/// `after` is `before` with its ciphertexts and nonce replaced by `sealed`.
pub open spec fn resealed<const N: usize>(
    before: PollRecord<N>,
    sealed: SealedAggregate<N>,
    after: PollRecord<N>,
) -> bool {
    after == (PollRecord { state: sealed.ciphertexts, nonce: sealed.nonce, ..before })
}

/// `after` is `before` with one more response committed: the ciphertexts and nonce
/// replaced by `sealed`, and the counter one higher.
pub open spec fn committed<const N: usize>(
    before: PollRecord<N>,
    sealed: SealedAggregate<N>,
    after: PollRecord<N>,
) -> bool {
    after == (PollRecord {
        state: sealed.ciphertexts,
        nonce: sealed.nonce,
        response_count: (before.response_count + 1) as u32,
        ..before
    })
}

/// `after` is `before` marked revealed at `now`.
pub open spec fn revealed<const N: usize>(before: PollRecord<N>, now: i64, after: PollRecord<N>) -> bool {
    after == (PollRecord { status: PostStatus::Revealed, revealed_at: Some(now), ..before })
}

/// Whether an operation went through, and if not, why.
pub open spec fn outcome<T>(r: Result<T, FlowError>) -> Result<(), FlowError> {
    match r {
        Ok(_) => Ok(()),
        Err(e) => Err(e),
    }
}

/// The outcome of `open_record`: rejected when the title is over 200 bytes, else when
/// the deadline is not strictly after `now`, else when `token` is already in flight,
/// each time with nothing recorded; otherwise a fresh record and its sealing request,
/// recorded as in flight.
pub open spec fn opened<const N: usize>(
    domain: Domain,
    before: Seq<PendingComputation>,
    after: Seq<PendingComputation>,
    now: i64,
    payer: Key,
    key: Key,
    bump: u8,
    token: u64,
    id: u64,
    title: Seq<char>,
    content_hash: Seq<char>,
    storage_cid: Seq<char>,
    deadline: i64,
    nonce: u128,
    r: Result<(PollRecord<N>, ComputationRequest), FlowError>,
) -> bool {
    &&& !title_fits(title) ==> r == Err::<(PollRecord<N>, ComputationRequest), _>(
        FlowError::Rejected(ErrorCode::TitleTooLong),
    ) && after == before
    &&& title_fits(title) && deadline <= now ==> r == Err::<(PollRecord<N>, ComputationRequest), _>(
        FlowError::Rejected(ErrorCode::InvalidDeadline),
    ) && after == before
    &&& title_fits(title) && deadline > now && token_in(before, token) ==> r == Err::<
        (PollRecord<N>, ComputationRequest),
        _,
    >(FlowError::Pending(PendingError::DuplicateToken)) && after == before
    &&& title_fits(title) && deadline > now && !token_in(before, token) ==> r is Ok && after
        == before.push(in_flight(token, key, Operation::InitStats, nonce))
    &&& r matches Ok((rec, req)) ==> {
        &&& fresh_record(rec, payer, bump, id, title, content_hash, storage_cid, now, deadline, nonce)
        &&& requests(
            req,
            token,
            domain.circuit(Operation::InitStats),
            seq![Argument::PlaintextU128(nonce)],
            key,
        )
    }
}

/// The outcome of `request_response`: rejected when the record is not `Active`, else
/// when `now` is at or past the deadline, else when `token` is already in flight,
/// each time with no request and nothing recorded; otherwise the submission request,
/// recorded as in flight against the record's current nonce.
pub open spec fn response_requested<const N: usize>(
    domain: Domain,
    before: Seq<PendingComputation>,
    after: Seq<PendingComputation>,
    rec: PollRecord<N>,
    key: Key,
    now: i64,
    token: u64,
    input: [u8; 32],
    input_key: Key,
    input_nonce: u128,
    r: Result<ComputationRequest, FlowError>,
) -> bool {
    &&& rec.status != PostStatus::Active ==> r == Err::<ComputationRequest, _>(
        FlowError::Rejected(ErrorCode::PostNotActive),
    ) && after == before
    &&& rec.status == PostStatus::Active && now >= rec.deadline ==> r == Err::<ComputationRequest, _>(
        FlowError::Rejected(ErrorCode::DeadlinePassed),
    ) && after == before
    &&& rec.status == PostStatus::Active && now < rec.deadline && token_in(before, token) ==> r
        == Err::<ComputationRequest, _>(FlowError::Pending(PendingError::DuplicateToken)) && after
        == before
    &&& rec.status == PostStatus::Active && now < rec.deadline && !token_in(before, token) ==> r is Ok
        && after == before.push(in_flight(token, key, Operation::Submit, rec.nonce))
    &&& r matches Ok(req) ==> requests(
        req,
        token,
        domain.circuit(Operation::Submit),
        submit_arguments(domain, key, rec.nonce, input, input_key, input_nonce),
        key,
    )
}

/// The outcome of `request_reveal`: rejected unless `payer` is the authority, then
/// unless the record is `Active`, then unless `now` has reached the deadline, then
/// when `token` is already in flight, each time with no request and nothing recorded;
/// otherwise the reveal request, recorded as in flight against the current nonce.
pub open spec fn reveal_requested<const N: usize>(
    domain: Domain,
    before: Seq<PendingComputation>,
    after: Seq<PendingComputation>,
    rec: PollRecord<N>,
    key: Key,
    payer: Key,
    now: i64,
    token: u64,
    r: Result<ComputationRequest, FlowError>,
) -> bool {
    let authorized = payer@ == rec.authority@;
    let active = rec.status == PostStatus::Active;
    &&& !authorized ==> r == Err::<ComputationRequest, _>(FlowError::Rejected(ErrorCode::Unauthorized))
        && after == before
    &&& authorized && !active ==> r == Err::<ComputationRequest, _>(
        FlowError::Rejected(ErrorCode::PostNotActive),
    ) && after == before
    &&& authorized && active && now < rec.deadline ==> r == Err::<ComputationRequest, _>(
        FlowError::Rejected(ErrorCode::DeadlineNotReached),
    ) && after == before
    &&& authorized && active && now >= rec.deadline && token_in(before, token) ==> r == Err::<
        ComputationRequest,
        _,
    >(FlowError::Pending(PendingError::DuplicateToken)) && after == before
    &&& authorized && active && now >= rec.deadline && !token_in(before, token) ==> r is Ok && after
        == before.push(in_flight(token, key, Operation::Reveal, rec.nonce))
    &&& r matches Ok(req) ==> requests(
        req,
        token,
        domain.circuit(Operation::Reveal),
        reveal_arguments(domain, key, rec.nonce),
        key,
    )
}

/// The outcome of `complete_init`: the request is settled against the record's
/// nonce; a refused token or an abort leaves the record as it was; otherwise the
/// sealed aggregate is stored.
pub open spec fn init_completed<const N: usize>(
    before: Seq<PendingComputation>,
    after: Seq<PendingComputation>,
    old_rec: PollRecord<N>,
    new_rec: PollRecord<N>,
    key: Key,
    token: u64,
    output: CallbackOutput<SealedAggregate<N>>,
    r: Result<(), FlowError>,
) -> bool {
    let settled = settle_outcome(before, token, Operation::InitStats, key, old_rec.nonce);
    &&& after == settle_remaining(before, token, Operation::InitStats, key, old_rec.nonce)
    &&& settled matches Err(e) ==> r == Err::<(), _>(FlowError::Pending(e)) && new_rec == old_rec
    &&& settled is Ok && output is Aborted ==> r == Err::<(), _>(
        FlowError::Rejected(ErrorCode::AbortedComputation),
    ) && new_rec == old_rec
    &&& output matches CallbackOutput::Success(o) ==> (settled is Ok ==> r is Ok && resealed(
        old_rec,
        o,
        new_rec,
    ))
}

/// The outcome of `complete_response`: the request is settled against the record's
/// nonce; a refused token, an abort, or a record no longer `Active` leaves the record
/// as it was; otherwise the updated aggregate is stored and the response counted.
pub open spec fn response_completed<const N: usize>(
    before: Seq<PendingComputation>,
    after: Seq<PendingComputation>,
    old_rec: PollRecord<N>,
    new_rec: PollRecord<N>,
    key: Key,
    token: u64,
    output: CallbackOutput<SealedAggregate<N>>,
    r: Result<(), FlowError>,
) -> bool {
    let settled = settle_outcome(before, token, Operation::Submit, key, old_rec.nonce);
    &&& after == settle_remaining(before, token, Operation::Submit, key, old_rec.nonce)
    &&& settled matches Err(e) ==> r == Err::<(), _>(FlowError::Pending(e)) && new_rec == old_rec
    &&& settled is Ok && output is Aborted ==> r == Err::<(), _>(
        FlowError::Rejected(ErrorCode::AbortedComputation),
    ) && new_rec == old_rec
    &&& settled is Ok && output is Success && old_rec.status != PostStatus::Active ==> r == Err::<
        (),
        _,
    >(FlowError::Rejected(ErrorCode::PostNotActive)) && new_rec == old_rec
    &&& output matches CallbackOutput::Success(o) ==> (settled is Ok && old_rec.status
        == PostStatus::Active ==> r is Ok && committed(old_rec, o, new_rec))
}

/// The outcome of `complete_reveal`: the request is settled against the record's
/// nonce; a refused token, an abort, or a record no longer `Active` leaves the record
/// as it was; otherwise the record is revealed at `now`.
pub open spec fn reveal_completed<const N: usize, O>(
    before: Seq<PendingComputation>,
    after: Seq<PendingComputation>,
    old_rec: PollRecord<N>,
    new_rec: PollRecord<N>,
    key: Key,
    token: u64,
    now: i64,
    output: CallbackOutput<O>,
    r: Result<(), FlowError>,
) -> bool {
    let settled = settle_outcome(before, token, Operation::Reveal, key, old_rec.nonce);
    &&& after == settle_remaining(before, token, Operation::Reveal, key, old_rec.nonce)
    &&& settled matches Err(e) ==> r == Err::<(), _>(FlowError::Pending(e)) && new_rec == old_rec
    &&& settled is Ok && output is Aborted ==> r == Err::<(), _>(
        FlowError::Rejected(ErrorCode::AbortedComputation),
    ) && new_rec == old_rec
    &&& settled is Ok && output is Success && old_rec.status != PostStatus::Active ==> r == Err::<
        (),
        _,
    >(FlowError::Rejected(ErrorCode::PostNotActive)) && new_rec == old_rec
    &&& output matches CallbackOutput::Success(o) ==> (settled is Ok && old_rec.status
        == PostStatus::Active ==> r is Ok && revealed(old_rec, now, new_rec))
}

/// Records `accepted`, once validated, as in flight; refused when its token already is.
fn track(
    table: &mut PendingTable,
    accepted: Result<ComputationRequest, ErrorCode>,
    key: Key,
    operation: Operation,
    nonce: u128,
) -> (r: Result<ComputationRequest, FlowError>)
    requires
        old(table).wf(),
    ensures
        final(table).wf(),
        accepted matches Err(e) ==> r == Err::<ComputationRequest, _>(FlowError::Rejected(e))
            && final(table)@ == old(table)@,
        accepted matches Ok(req) ==> {
            &&& old(table).has_token(req.computation_offset) ==> r == Err::<ComputationRequest, _>(
                FlowError::Pending(PendingError::DuplicateToken),
            ) && final(table)@ == old(table)@
            &&& !old(table).has_token(req.computation_offset) ==> r == Ok::<_, FlowError>(req)
                && final(table)@ == old(table)@.push(
                in_flight(req.computation_offset, key, operation, nonce),
            )
        },
{
    match accepted {
        Err(e) => Err(FlowError::Rejected(e)),
        Ok(req) => {
            let entry = PendingComputation {
                token: req.computation_offset,
                target: key,
                operation,
                nonce,
            };
            match table.register(entry) {
                Ok(()) => Ok(req),
                Err(e) => Err(FlowError::Pending(e)),
            }
        },
    }
}

/// Creates a record at time `now` for `payer`, stored at `key`, with the request that
/// has the cluster seal its zeroed aggregate, recorded as in flight under `token`.
///
/// Rejected when the title is over 200 bytes, else when the deadline is not strictly
/// after `now`, else when `token` is already in flight.
pub fn open_record<const N: usize>(
    table: &mut PendingTable,
    domain: Domain,
    now: i64,
    payer: Key,
    key: Key,
    bump: u8,
    token: u64,
    id: u64,
    title: String,
    content_hash: String,
    storage_cid: String,
    deadline: i64,
    nonce: u128,
) -> (r: Result<(PollRecord<N>, ComputationRequest), FlowError>)
    requires
        old(table).wf(),
    ensures
        final(table).wf(),
        opened(
            domain,
            old(table)@,
            final(table)@,
            now,
            payer,
            key,
            bump,
            token,
            id,
            title@,
            content_hash@,
            storage_cid@,
            deadline,
            nonce,
            r,
        ),
{
    if title.as_str().as_bytes().len() > MAX_TITLE_LEN {
        return Err(FlowError::Rejected(ErrorCode::TitleTooLong));
    }
    if deadline <= now {
        return Err(FlowError::Rejected(ErrorCode::InvalidDeadline));
    }
    let entry = PendingComputation { token, target: key, operation: Operation::InitStats, nonce };
    match table.register(entry) {
        Err(e) => Err(FlowError::Pending(e)),
        Ok(()) => {
            let rec = PollRecord {
                bump,
                state: [[0u8; 32]; N],
                id,
                authority: payer,
                nonce,
                title,
                content_hash,
                storage_cid,
                created_at: now,
                deadline,
                response_count: 0,
                status: PostStatus::Active,
                revealed_at: None,
            };
            let req = ComputationRequest {
                computation_offset: token,
                comp_def_offset: circuit_offset(domain.circuit_name(Operation::InitStats)),
                args: vec![Argument::PlaintextU128(nonce)],
                callback_account: Some(key),
            };
            assert(is_blank(rec.state));
            assert(req.args@ == seq![Argument::PlaintextU128(nonce)]);
            Ok((rec, req))
        },
    }
}

/// The request that folds one encrypted response into the record's aggregate,
/// recorded as in flight under `token` against the record's current nonce.
///
/// Rejected, with no request and nothing recorded, when the record is not `Active`,
/// else when `now` is at or past the deadline, else when `token` is already in flight.
pub fn request_response<const N: usize>(
    table: &mut PendingTable,
    domain: Domain,
    rec: &PollRecord<N>,
    key: Key,
    now: i64,
    token: u64,
    input: [u8; 32],
    input_key: Key,
    input_nonce: u128,
) -> (r: Result<ComputationRequest, FlowError>)
    requires
        old(table).wf(),
    ensures
        final(table).wf(),
        response_requested(
            domain,
            old(table)@,
            final(table)@,
            *rec,
            key,
            now,
            token,
            input,
            input_key,
            input_nonce,
            r,
        ),
{
    let accepted = if rec.status != PostStatus::Active {
        Err(ErrorCode::PostNotActive)
    } else if now >= rec.deadline {
        Err(ErrorCode::DeadlinePassed)
    } else {
        let args = vec![
            Argument::ArcisPubkey(input_key),
            Argument::PlaintextU128(input_nonce),
            domain.input(input),
            Argument::PlaintextU128(rec.nonce),
            Argument::Account(key, STATE_OFFSET, domain.state_length()),
        ];
        let req = ComputationRequest {
            computation_offset: token,
            comp_def_offset: circuit_offset(domain.circuit_name(Operation::Submit)),
            args,
            callback_account: Some(key),
        };
        assert(req.args@ == submit_arguments(domain, key, rec.nonce, input, input_key, input_nonce));
        Ok(req)
    };
    track(table, accepted, key, Operation::Submit, rec.nonce)
}

/// The request that reveals the record's aggregate result, recorded as in flight
/// under `token` against the record's current nonce.
///
/// Rejected, with no request and nothing recorded, unless `payer` is the record's
/// authority, then unless the record is `Active`, then unless `now` has reached the
/// deadline, then when `token` is already in flight.
pub fn request_reveal<const N: usize>(
    table: &mut PendingTable,
    domain: Domain,
    rec: &PollRecord<N>,
    key: Key,
    payer: Key,
    now: i64,
    token: u64,
) -> (r: Result<ComputationRequest, FlowError>)
    requires
        old(table).wf(),
    ensures
        final(table).wf(),
        reveal_requested(domain, old(table)@, final(table)@, *rec, key, payer, now, token, r),
{
    let accepted = if !same_key(&payer, &rec.authority) {
        Err(ErrorCode::Unauthorized)
    } else if rec.status != PostStatus::Active {
        Err(ErrorCode::PostNotActive)
    } else if now < rec.deadline {
        Err(ErrorCode::DeadlineNotReached)
    } else {
        let args = vec![
            Argument::PlaintextU128(rec.nonce),
            Argument::Account(key, STATE_OFFSET, domain.state_length()),
        ];
        let req = ComputationRequest {
            computation_offset: token,
            comp_def_offset: circuit_offset(domain.circuit_name(Operation::Reveal)),
            args,
            callback_account: Some(key),
        };
        assert(req.args@ == reveal_arguments(domain, key, rec.nonce));
        Ok(req)
    };
    track(table, accepted, key, Operation::Reveal, rec.nonce)
}

/// Consumes the sealing request `token` for the record at `key`, then, on success,
/// stores the sealed zeroed aggregate.
///
/// A refused token, or an aborted computation, leaves the record as it was.
pub fn complete_init<const N: usize>(
    table: &mut PendingTable,
    rec: &mut PollRecord<N>,
    key: Key,
    token: u64,
    output: CallbackOutput<SealedAggregate<N>>,
) -> (r: Result<(), FlowError>)
    requires
        old(table).wf(),
    ensures
        final(table).wf(),
        init_completed(old(table)@, final(table)@, *old(rec), *final(rec), key, token, output, r),
{
    match table.settle(token, Operation::InitStats, key, rec.nonce) {
        Err(e) => Err(FlowError::Pending(e)),
        Ok(_) => match output {
            CallbackOutput::Success(o) => {
                rec.state = o.ciphertexts;
                rec.nonce = o.nonce;
                Ok(())
            },
            CallbackOutput::Aborted => Err(FlowError::Rejected(ErrorCode::AbortedComputation)),
        },
    }
}

/// Consumes the submission request `token` for the record at `key`, then, on
/// success, stores the updated aggregate and counts the response.
///
/// A refused token, an aborted computation, or a record that is no longer `Active`,
/// leaves the record as it was.
pub fn complete_response<const N: usize>(
    table: &mut PendingTable,
    rec: &mut PollRecord<N>,
    key: Key,
    token: u64,
    output: CallbackOutput<SealedAggregate<N>>,
) -> (r: Result<(), FlowError>)
    requires
        old(table).wf(),
        output is Success ==> old(rec).response_count < u32::MAX,
    ensures
        final(table).wf(),
        response_completed(old(table)@, final(table)@, *old(rec), *final(rec), key, token, output, r),
{
    match table.settle(token, Operation::Submit, key, rec.nonce) {
        Err(e) => Err(FlowError::Pending(e)),
        Ok(_) => match output {
            CallbackOutput::Success(o) => {
                if rec.status != PostStatus::Active {
                    return Err(FlowError::Rejected(ErrorCode::PostNotActive));
                }
                rec.state = o.ciphertexts;
                rec.nonce = o.nonce;
                rec.response_count = rec.response_count + 1;
                Ok(())
            },
            CallbackOutput::Aborted => Err(FlowError::Rejected(ErrorCode::AbortedComputation)),
        },
    }
}

/// Consumes the reveal request `token` for the record at `key`, then, on success,
/// marks the record `Revealed` at `now` and hands back the revealed result.
///
/// A refused token, an aborted computation, or a record that is no longer `Active`,
/// leaves the record as it was.
pub fn complete_reveal<const N: usize, O>(
    table: &mut PendingTable,
    rec: &mut PollRecord<N>,
    key: Key,
    token: u64,
    now: i64,
    output: CallbackOutput<O>,
) -> (r: Result<O, FlowError>)
    requires
        old(table).wf(),
    ensures
        final(table).wf(),
        reveal_completed(
            old(table)@,
            final(table)@,
            *old(rec),
            *final(rec),
            key,
            token,
            now,
            output,
            outcome(r),
        ),
        r matches Ok(v) ==> (output matches CallbackOutput::Success(o) && v == o),
{
    match table.settle(token, Operation::Reveal, key, rec.nonce) {
        Err(e) => Err(FlowError::Pending(e)),
        Ok(_) => match output {
            CallbackOutput::Success(o) => {
                if rec.status != PostStatus::Active {
                    return Err(FlowError::Rejected(ErrorCode::PostNotActive));
                }
                rec.status = PostStatus::Revealed;
                rec.revealed_at = Some(now);
                Ok(o)
            },
            CallbackOutput::Aborted => Err(FlowError::Rejected(ErrorCode::AbortedComputation)),
        },
    }
}

/// A response is committed at most once: after a callback has committed the
/// response of request `token`, a second callback with the same token, whatever it
/// carries, is refused as unknown and leaves the record as it was.
pub proof fn lemma_response_committed_once<const N: usize>(
    before: Seq<PendingComputation>,
    mid: Seq<PendingComputation>,
    after: Seq<PendingComputation>,
    rec0: PollRecord<N>,
    rec1: PollRecord<N>,
    rec2: PollRecord<N>,
    key: Key,
    token: u64,
    first: CallbackOutput<SealedAggregate<N>>,
    replay: CallbackOutput<SealedAggregate<N>>,
    r1: Result<(), FlowError>,
    r2: Result<(), FlowError>,
)
    requires
        tokens_unique(before),
        response_completed(before, mid, rec0, rec1, key, token, first, r1),
        r1 is Ok,
        response_completed(mid, after, rec1, rec2, key, token, replay, r2),
    ensures
        r2 == Err::<(), _>(FlowError::Pending(PendingError::UnknownToken)),
        rec2 == rec1,
        after == mid,
{
    lemma_consumed_token_is_gone(
        before,
        token,
        Operation::Submit,
        key,
        rec0.nonce,
        Operation::Submit,
        key,
        rec1.nonce,
    );
}

/// What a committed response makes public does not depend on what it encrypts: two
/// callbacks for the same request that both succeed, with any two sealed results,
/// have the same outcome, leave the same requests in flight, and leave records that
/// differ at most in their ciphertexts and nonce.
pub proof fn lemma_commit_plaintext_independent_of_result<const N: usize>(
    before: Seq<PendingComputation>,
    after1: Seq<PendingComputation>,
    after2: Seq<PendingComputation>,
    rec0: PollRecord<N>,
    rec1: PollRecord<N>,
    rec2: PollRecord<N>,
    key: Key,
    token: u64,
    sealed1: SealedAggregate<N>,
    sealed2: SealedAggregate<N>,
    r1: Result<(), FlowError>,
    r2: Result<(), FlowError>,
)
    requires
        response_completed(before, after1, rec0, rec1, key, token, CallbackOutput::Success(sealed1), r1),
        response_completed(before, after2, rec0, rec2, key, token, CallbackOutput::Success(sealed2), r2),
    ensures
        r1 is Ok <==> r2 is Ok,
        r1 is Err ==> r1 == r2,
        after1 == after2,
        rec2 == (PollRecord { state: rec2.state, nonce: rec2.nonce, ..rec1 }),
{
}

} // verus!
