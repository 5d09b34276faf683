//! The confirmation workflow: resolve a caller-supplied token, check
//! idempotency, and perform the atomic confirm-and-delete-token
//! transition.
//!
//! The workflow exists in two connected forms. [`confirm_step`] is the
//! pure decision function of the state machine in which every store
//! access is an event: an unverified driver performs the reads and
//! writes against a real database and feeds back what happened.
//! [`confirm`] runs the whole workflow against the in-process
//! [`Store`], where every step is verified end to end.
use vstd::prelude::*;
use vstd::string::StringExecFns;

use crate::store::Store;
use crate::store::StoreModel;
use crate::store::StoreWrite;
use crate::store::SubscriberId;
use crate::store::apply_write;
use crate::store::apply_writes;
use crate::store::confirm_subscriber;
use crate::store::delete_old_token;
use crate::store::get_subscriber_id_from_token;
use crate::store::is_user_confirmed;
use crate::store::model_wf;
use crate::store::resolved_subscriber;
use crate::store::subscriber_confirmed;
use crate::store::tokens_without_subscriber;

verus! {

/// The confirmation endpoint's single query parameter.
pub struct Parameters {
    pub subscription_token: String,
}

/// The store operation on whose failure a confirmation attempt was
/// given up. Carried so a failure can be diagnosed by operation name,
/// without any credential or connection detail.
#[derive(Clone, Copy, PartialEq, Eq, Structural, Debug)]
pub enum FailedOperation {
    /// Resolving the token to a subscriber id failed (storage
    /// unavailable — distinct from the token simply not existing).
    TokenLookup,
    /// No unit of work could be opened.
    ConnectionAcquisition,
    /// Setting the subscriber's status to confirmed failed.
    StatusUpdate,
    /// Deleting the subscriber's token failed.
    TokenDeletion,
    /// The commit of the unit of work failed; nothing became visible.
    TransactionCommit,
}

/// The error a confirmation attempt surfaces when the store is
/// unavailable. An unknown token is not an error — it answers
/// `Unauthorized` — so the one variant here is always a system
/// failure, reported as such.
#[derive(Clone, Copy, PartialEq, Eq, Structural, Debug)]
pub enum SubscribeConfirmError {
    UnexpectedError(FailedOperation),
}

/// The operation-name context each failure is wrapped with.
pub open spec fn error_context_view(e: SubscribeConfirmError) -> Seq<char> {
    match e {
        SubscribeConfirmError::UnexpectedError(op) => match op {
            FailedOperation::TokenLookup => "Error finding subscriber from token"@,
            FailedOperation::ConnectionAcquisition => "Failed to acquire a store connection"@,
            FailedOperation::StatusUpdate => "Failed to set subscriber status to confirmed"@,
            FailedOperation::TokenDeletion => "Failed to delete old subscriber token"@,
            FailedOperation::TransactionCommit => "Failed to commit the confirmation unit of work"@,
        },
    }
}

impl SubscribeConfirmError {
    /// Every store failure is caller-visible as a plain server error.
    pub fn status_code(&self) -> (r: u16)
        ensures
            r == 500,
    {
        match self {
            SubscribeConfirmError::UnexpectedError(_) => 500,
        }
    }

    /// The operation-name context, for diagnosis; never credentials or
    /// connection detail.
    pub fn context(&self) -> (r: String)
        ensures
            r@ == error_context_view(*self),
    {
        match self {
            SubscribeConfirmError::UnexpectedError(op) => match op {
                FailedOperation::TokenLookup => "Error finding subscriber from token".to_owned(),
                FailedOperation::ConnectionAcquisition => "Failed to acquire a store connection".to_owned(),
                FailedOperation::StatusUpdate => "Failed to set subscriber status to confirmed".to_owned(),
                FailedOperation::TokenDeletion => "Failed to delete old subscriber token".to_owned(),
                FailedOperation::TransactionCommit => "Failed to commit the confirmation unit of work".to_owned(),
            },
        }
    }
}

/// The caller-visible outcome of a confirmation attempt that did not
/// hit a store failure.
#[derive(Clone, Copy, PartialEq, Eq, Structural, Debug)]
pub enum ConfirmOutcome {
    /// The token was valid; the subscriber is now confirmed or already
    /// was. The two cases are deliberately indistinguishable.
    AuthorizedOk,
    /// The token resolved to no subscriber. Never a system error, so
    /// callers cannot probe tokens through error-code differences.
    Unauthorized,
}

/// The rendering of each outcome as an HTTP status.
pub fn outcome_status_code(outcome: ConfirmOutcome) -> (r: u16)
    ensures
        outcome is AuthorizedOk ==> r == 200,
        outcome is Unauthorized ==> r == 401,
{
    match outcome {
        ConfirmOutcome::AuthorizedOk => 200,
        ConfirmOutcome::Unauthorized => 401,
    }
}

/// Where one confirmation attempt stands, between store operations.
#[derive(Clone, Copy, PartialEq, Eq, Debug)]
pub enum ConfirmPhase {
    /// Waiting for the token to resolve.
    ResolvingToken,
    /// Token resolved; waiting for the subscriber's current status.
    CheckingStatus(SubscriberId),
    /// Subscriber not yet confirmed; waiting for a unit of work.
    BeginningTransaction(SubscriberId),
    /// Inside the unit of work; the status write comes first.
    MarkingConfirmed(SubscriberId),
    /// Status written; the token delete follows it, same unit of work.
    DeletingToken(SubscriberId),
    /// Both writes recorded; waiting for the atomic commit.
    Committing(SubscriberId),
    /// Terminal: the caller-visible result.
    Finished(Result<ConfirmOutcome, SubscribeConfirmError>),
}

/// What the driver observed from the store for the pending operation.
#[derive(Clone, Copy, PartialEq, Eq, Debug)]
pub enum StoreEvent {
    /// Token lookup answered (with or without a subscriber).
    Resolved(Option<SubscriberId>),
    /// Token lookup failed: storage unavailable.
    ResolveFailed,
    /// Status read answered.
    StatusRead(bool),
    /// Status read failed; the workflow fails closed and treats the
    /// subscriber as not confirmed.
    StatusReadFailed,
    /// A unit of work is open.
    TransactionBegun,
    /// No unit of work could be opened.
    BeginFailed,
    /// The status write is recorded in the unit of work.
    SubscriberMarked,
    /// The status write failed; the unit of work is abandoned.
    MarkFailed,
    /// The token delete is recorded in the unit of work.
    TokenDeleted,
    /// The token delete failed; the unit of work is abandoned.
    DeleteFailed,
    /// The commit succeeded: both writes are visible together.
    Committed,
    /// The commit failed: neither write is visible.
    CommitFailed,
}

/// Which events can answer which phase.
pub open spec fn phase_accepts(phase: ConfirmPhase, event: StoreEvent) -> bool {
    match phase {
        ConfirmPhase::ResolvingToken => event is Resolved || event is ResolveFailed,
        ConfirmPhase::CheckingStatus(_) => event is StatusRead || event is StatusReadFailed,
        ConfirmPhase::BeginningTransaction(_) => event is TransactionBegun || event is BeginFailed,
        ConfirmPhase::MarkingConfirmed(_) => event is SubscriberMarked || event is MarkFailed,
        ConfirmPhase::DeletingToken(_) => event is TokenDeleted || event is DeleteFailed,
        ConfirmPhase::Committing(_) => event is Committed || event is CommitFailed,
        ConfirmPhase::Finished(_) => false,
    }
}

/// The transition relation of the workflow: one answer moves the
/// attempt exactly one phase on.
pub open spec fn next_phase(phase: ConfirmPhase, event: StoreEvent) -> ConfirmPhase {
    match (phase, event) {
        (ConfirmPhase::ResolvingToken, StoreEvent::Resolved(None)) => ConfirmPhase::Finished(
            Ok(ConfirmOutcome::Unauthorized),
        ),
        (ConfirmPhase::ResolvingToken, StoreEvent::Resolved(Some(id))) => ConfirmPhase::CheckingStatus(
            id,
        ),
        (ConfirmPhase::ResolvingToken, _) => ConfirmPhase::Finished(
            Err(SubscribeConfirmError::UnexpectedError(FailedOperation::TokenLookup)),
        ),
        (ConfirmPhase::CheckingStatus(id), StoreEvent::StatusRead(true)) => ConfirmPhase::Finished(
            Ok(ConfirmOutcome::AuthorizedOk),
        ),
        (ConfirmPhase::CheckingStatus(id), _) => ConfirmPhase::BeginningTransaction(id),
        (ConfirmPhase::BeginningTransaction(id), StoreEvent::TransactionBegun) => ConfirmPhase::MarkingConfirmed(
            id,
        ),
        (ConfirmPhase::BeginningTransaction(id), _) => ConfirmPhase::Finished(
            Err(SubscribeConfirmError::UnexpectedError(FailedOperation::ConnectionAcquisition)),
        ),
        (ConfirmPhase::MarkingConfirmed(id), StoreEvent::SubscriberMarked) => ConfirmPhase::DeletingToken(
            id,
        ),
        (ConfirmPhase::MarkingConfirmed(id), _) => ConfirmPhase::Finished(
            Err(SubscribeConfirmError::UnexpectedError(FailedOperation::StatusUpdate)),
        ),
        (ConfirmPhase::DeletingToken(id), StoreEvent::TokenDeleted) => ConfirmPhase::Committing(id),
        (ConfirmPhase::DeletingToken(id), _) => ConfirmPhase::Finished(
            Err(SubscribeConfirmError::UnexpectedError(FailedOperation::TokenDeletion)),
        ),
        (ConfirmPhase::Committing(id), StoreEvent::Committed) => ConfirmPhase::Finished(
            Ok(ConfirmOutcome::AuthorizedOk),
        ),
        (ConfirmPhase::Committing(id), _) => ConfirmPhase::Finished(
            Err(SubscribeConfirmError::UnexpectedError(FailedOperation::TransactionCommit)),
        ),
        (ConfirmPhase::Finished(r), _) => ConfirmPhase::Finished(r),
    }
}

/// Advances the workflow by one store answer. The driver performs the
/// operation each phase names, reports what happened, and obeys the
/// phase handed back; the ordering — status write before token delete,
/// both inside one unit of work, one commit — is fixed here, not in
/// the driver.
pub fn confirm_step(phase: ConfirmPhase, event: StoreEvent) -> (r: ConfirmPhase)
    requires
        phase_accepts(phase, event),
    ensures
        r == next_phase(phase, event),
{
    match (phase, event) {
        (ConfirmPhase::ResolvingToken, StoreEvent::Resolved(None)) => ConfirmPhase::Finished(
            Ok(ConfirmOutcome::Unauthorized),
        ),
        (ConfirmPhase::ResolvingToken, StoreEvent::Resolved(Some(id))) => ConfirmPhase::CheckingStatus(
            id,
        ),
        (ConfirmPhase::ResolvingToken, _) => ConfirmPhase::Finished(
            Err(SubscribeConfirmError::UnexpectedError(FailedOperation::TokenLookup)),
        ),
        (ConfirmPhase::CheckingStatus(_), StoreEvent::StatusRead(true)) => ConfirmPhase::Finished(
            Ok(ConfirmOutcome::AuthorizedOk),
        ),
        (ConfirmPhase::CheckingStatus(id), _) => ConfirmPhase::BeginningTransaction(id),
        (ConfirmPhase::BeginningTransaction(id), StoreEvent::TransactionBegun) => ConfirmPhase::MarkingConfirmed(
            id,
        ),
        (ConfirmPhase::BeginningTransaction(_), _) => ConfirmPhase::Finished(
            Err(SubscribeConfirmError::UnexpectedError(FailedOperation::ConnectionAcquisition)),
        ),
        (ConfirmPhase::MarkingConfirmed(id), StoreEvent::SubscriberMarked) => ConfirmPhase::DeletingToken(
            id,
        ),
        (ConfirmPhase::MarkingConfirmed(_), _) => ConfirmPhase::Finished(
            Err(SubscribeConfirmError::UnexpectedError(FailedOperation::StatusUpdate)),
        ),
        (ConfirmPhase::DeletingToken(id), StoreEvent::TokenDeleted) => ConfirmPhase::Committing(
            id,
        ),
        (ConfirmPhase::DeletingToken(_), _) => ConfirmPhase::Finished(
            Err(SubscribeConfirmError::UnexpectedError(FailedOperation::TokenDeletion)),
        ),
        (ConfirmPhase::Committing(_), StoreEvent::Committed) => ConfirmPhase::Finished(
            Ok(ConfirmOutcome::AuthorizedOk),
        ),
        (ConfirmPhase::Committing(_), _) => ConfirmPhase::Finished(
            Err(SubscribeConfirmError::UnexpectedError(FailedOperation::TransactionCommit)),
        ),
        (ConfirmPhase::Finished(r), _) => ConfirmPhase::Finished(r),
    }
}

/// The outcome one confirmation attempt is owed: `AuthorizedOk`
/// exactly when the token resolves, `Unauthorized` otherwise.
pub open spec fn confirm_outcome_of(m: StoreModel, token: Seq<char>) -> ConfirmOutcome {
    if m.tokens.contains_key(token) {
        ConfirmOutcome::AuthorizedOk
    } else {
        ConfirmOutcome::Unauthorized
    }
}

/// The store one confirmation attempt leaves behind. An unresolvable
/// token changes nothing; an already-confirmed subscriber
/// short-circuits with nothing changed (its token is left intact);
/// otherwise the subscriber becomes confirmed and every token bound to
/// it disappears, both in the same step.
pub open spec fn store_after_confirm(m: StoreModel, token: Seq<char>) -> StoreModel {
    if !m.tokens.contains_key(token) {
        m
    } else {
        let id = m.tokens[token];
        if subscriber_confirmed(m, id) {
            m
        } else {
            StoreModel {
                subscribers: if m.subscribers.contains_key(id) {
                    m.subscribers.insert(id, crate::store::SubscriberStatus::Confirmed)
                } else {
                    m.subscribers
                },
                tokens: tokens_without_subscriber(m.tokens, id),
            }
        }
    }
}

/// The whole confirmation workflow against the in-process store:
/// resolve, idempotency check, then the atomic unit of work in which
/// the status write precedes the token delete and both commit
/// together. The in-process store cannot be unavailable, so the
/// attempt never surfaces an error.
pub fn confirm(parameters: &Parameters, store: &mut Store) -> (r: Result<
    ConfirmOutcome,
    SubscribeConfirmError,
>)
    requires
        old(store).inv(),
    ensures
        final(store).inv(),
        r == Ok::<ConfirmOutcome, SubscribeConfirmError>(
            confirm_outcome_of(old(store)@, parameters.subscription_token@),
        ),
        final(store)@ == store_after_confirm(old(store)@, parameters.subscription_token@),
{
    let resolved = get_subscriber_id_from_token(parameters.subscription_token.as_str(), store);
    match resolved {
        None => Ok(ConfirmOutcome::Unauthorized),
        Some(subscriber_id) => {
            if is_user_confirmed(subscriber_id, store) {
                return Ok(ConfirmOutcome::AuthorizedOk);
            }
            let mut transaction = store.begin();
            confirm_subscriber(subscriber_id, &mut transaction);
            delete_old_token(subscriber_id, &mut transaction);
            let ghost ws = transaction@;
            store.commit(transaction);
            proof {
                let m = old(store)@;
                let t = parameters.subscription_token@;
                let e = Seq::<StoreWrite>::empty();
                let w1 = StoreWrite::MarkConfirmed(subscriber_id);
                let w2 = StoreWrite::DeleteTokens(subscriber_id);
                assert(ws =~= e.push(w1).push(w2));
                assert(ws.drop_last() =~= e.push(w1));
                assert(e.push(w1).drop_last() =~= e);
                assert(apply_writes(m, e) == m);
                assert(apply_writes(m, e.push(w1)) == apply_write(m, w1));
                assert(apply_writes(m, ws) == apply_write(apply_write(m, w1), w2));
                assert(store@ == apply_write(apply_write(m, w1), w2));
                assert(store@ == store_after_confirm(m, t));
            }
            Ok(ConfirmOutcome::AuthorizedOk)
        },
    }
}

/// Law: redeeming a live token of a not-yet-confirmed subscriber
/// answers `AuthorizedOk`, leaves exactly that subscriber confirmed,
/// and leaves the tokens relation without that token — and touches
/// nothing else: every other subscriber keeps its status, and exactly
/// the tokens bound to the redeemed subscriber disappear.
pub proof fn lemma_confirm_redeems_pending_token(m: StoreModel, token: Seq<char>)
    requires
        model_wf(m),
        m.tokens.contains_key(token),
        !subscriber_confirmed(m, m.tokens[token]),
    ensures
        confirm_outcome_of(m, token) == ConfirmOutcome::AuthorizedOk,
        subscriber_confirmed(store_after_confirm(m, token), m.tokens[token]),
        !store_after_confirm(m, token).tokens.contains_key(token),
        forall|other: SubscriberId|
            other != m.tokens[token] ==> #[trigger] store_after_confirm(
                m,
                token,
            ).subscribers.contains_key(other) == m.subscribers.contains_key(other),
        forall|other: SubscriberId|
            other != m.tokens[token] && m.subscribers.contains_key(other)
                ==> #[trigger] store_after_confirm(m, token).subscribers[other]
                == m.subscribers[other],
        forall|t2: Seq<char>| #[trigger]
            store_after_confirm(m, token).tokens.contains_key(t2) <==> (m.tokens.contains_key(t2)
                && m.tokens[t2] != m.tokens[token]),
{
}

/// Law: confirming twice with the same token is not idempotent. The
/// first redemption consumes the token, so the second attempt finds no
/// mapping: it answers `Unauthorized` and changes nothing further.
pub proof fn lemma_confirm_twice_second_unauthorized(m: StoreModel, token: Seq<char>)
    requires
        model_wf(m),
        m.tokens.contains_key(token),
        !subscriber_confirmed(m, m.tokens[token]),
    ensures
        confirm_outcome_of(store_after_confirm(m, token), token) == ConfirmOutcome::Unauthorized,
        store_after_confirm(store_after_confirm(m, token), token) == store_after_confirm(m, token),
{
    lemma_confirm_redeems_pending_token(m, token);
}

/// Law: confirming an unknown token mutates no subscriber row and no
/// token row, and answers `Unauthorized`.
pub proof fn lemma_confirm_unknown_token_no_mutation(m: StoreModel, token: Seq<char>)
    requires
        !m.tokens.contains_key(token),
    ensures
        confirm_outcome_of(m, token) == ConfirmOutcome::Unauthorized,
        store_after_confirm(m, token) == m,
{
}

/// Law: a confirmed subscriber never moves backward, whatever token is
/// redeemed around it.
pub proof fn lemma_confirm_monotonic(m: StoreModel, token: Seq<char>, id: SubscriberId)
    requires
        subscriber_confirmed(m, id),
    ensures
        subscriber_confirmed(store_after_confirm(m, token), id),
{
}

/// Law: redemption preserves reference integrity of the store.
pub proof fn lemma_confirm_preserves_wf(m: StoreModel, token: Seq<char>)
    requires
        model_wf(m),
    ensures
        model_wf(store_after_confirm(m, token)),
{
    let after = store_after_confirm(m, token);
    assert forall|t: Seq<char>| #[trigger] after.tokens.contains_key(t) implies
        after.subscribers.contains_key(after.tokens[t]) by {
        assert(m.tokens.contains_key(t));
    }
}

/// Law: the state machine and the store-level workflow agree. Driven
/// by a store that answers every operation without failing, the
/// machine finishes with exactly the outcome [`confirm_outcome_of`]
/// owes for the same model: an unresolvable token finishes
/// `Unauthorized` at once, an already-confirmed subscriber finishes
/// `AuthorizedOk` at the status check, and a pending subscriber walks
/// the whole transaction to `AuthorizedOk`.
pub proof fn lemma_machine_agrees_with_store(m: StoreModel, token: Seq<char>)
    ensures
        !m.tokens.contains_key(token) ==> next_phase(
            ConfirmPhase::ResolvingToken,
            StoreEvent::Resolved(resolved_subscriber(m, token)),
        ) == ConfirmPhase::Finished(
            Ok::<ConfirmOutcome, SubscribeConfirmError>(confirm_outcome_of(m, token)),
        ),
        m.tokens.contains_key(token) && subscriber_confirmed(m, m.tokens[token]) ==> next_phase(
            next_phase(
                ConfirmPhase::ResolvingToken,
                StoreEvent::Resolved(resolved_subscriber(m, token)),
            ),
            StoreEvent::StatusRead(true),
        ) == ConfirmPhase::Finished(
            Ok::<ConfirmOutcome, SubscribeConfirmError>(confirm_outcome_of(m, token)),
        ),
        m.tokens.contains_key(token) && !subscriber_confirmed(m, m.tokens[token]) ==> next_phase(
            next_phase(
                next_phase(
                    next_phase(
                        next_phase(
                            next_phase(
                                ConfirmPhase::ResolvingToken,
                                StoreEvent::Resolved(resolved_subscriber(m, token)),
                            ),
                            StoreEvent::StatusRead(false),
                        ),
                        StoreEvent::TransactionBegun,
                    ),
                    StoreEvent::SubscriberMarked,
                ),
                StoreEvent::TokenDeleted,
            ),
            StoreEvent::Committed,
        ) == ConfirmPhase::Finished(
            Ok::<ConfirmOutcome, SubscribeConfirmError>(confirm_outcome_of(m, token)),
        ),
{
}

/// The concatenated `Caused by:` lines for a chain of error sources.
pub open spec fn caused_by_view(sources: Seq<String>) -> Seq<char>
    decreases sources.len(),
{
    if sources.len() == 0 {
        Seq::empty()
    } else {
        caused_by_view(sources.drop_last()) + "Caused by:\n\t"@ + sources.last()@ + "\n"@
    }
}

/// Renders an error and its chain of causes, one source per
/// `Caused by:` line, exactly as a diagnostic log line carries them.
pub fn error_chain_fmt(error: &str, sources: &Vec<String>) -> (r: String)
    ensures
        r@ == error@ + "\n\n"@ + caused_by_view(sources@),
{
    let ghost all = sources@;
    let mut rendered = error.to_owned();
    rendered.append("\n\n");
    let mut i: usize = 0;
    while i < sources.len()
        invariant
            i <= all.len(),
            sources@ == all,
            rendered@ == error@ + "\n\n"@ + caused_by_view(all.subrange(0, i as int)),
        decreases all.len() - i,
    {
        rendered.append("Caused by:\n\t");
        rendered.append(sources[i].as_str());
        rendered.append("\n");
        proof {
            assert(all.subrange(0, i + 1 as int).drop_last() =~= all.subrange(0, i as int));
            assert(rendered@ =~= error@ + "\n\n"@ + caused_by_view(all.subrange(0, i + 1 as int)));
        }
        i = i + 1;
    }
    proof {
        assert(all.subrange(0, all.len() as int) =~= all);
    }
    rendered
}

} // verus!

