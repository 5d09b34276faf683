use email_newsletter::confirm::confirm;
use email_newsletter::confirm::confirm_step;
use email_newsletter::confirm::outcome_status_code;
use email_newsletter::confirm::ConfirmOutcome;
use email_newsletter::confirm::ConfirmPhase;
use email_newsletter::confirm::FailedOperation;
use email_newsletter::confirm::Parameters;
use email_newsletter::confirm::StoreEvent;
use email_newsletter::confirm::SubscribeConfirmError;
use email_newsletter::store::confirm_subscriber;
use email_newsletter::store::delete_old_token;
use email_newsletter::store::get_subscriber_id_from_token;
use email_newsletter::store::is_user_confirmed;
use email_newsletter::store::Store;
use email_newsletter::store::SubscriberId;
use email_newsletter::store::SubscriberStatus;

fn store_with_pending_subscriber() -> (Store, SubscriberId) {
    let mut store = Store::new();
    let s1 = SubscriberId { value: 1 };
    store.add_subscriber(s1, SubscriberStatus::PendingConfirmation);
    store.add_token("abc123".to_string(), s1);
    (store, s1)
}

#[test]
fn confirm_pending_token_confirms_and_consumes() {
    let (mut store, s1) = store_with_pending_subscriber();
    let parameters = Parameters { subscription_token: "abc123".to_string() };

    let outcome = confirm(&parameters, &mut store);

    assert_eq!(outcome, Ok(ConfirmOutcome::AuthorizedOk));
    assert!(is_user_confirmed(s1, &store));
    assert_eq!(get_subscriber_id_from_token("abc123", &store), None);
}

#[test]
fn confirm_unknown_token_mutates_nothing() {
    let (mut store, s1) = store_with_pending_subscriber();
    let parameters = Parameters { subscription_token: "zzz".to_string() };

    let outcome = confirm(&parameters, &mut store);

    assert_eq!(outcome, Ok(ConfirmOutcome::Unauthorized));
    assert!(!is_user_confirmed(s1, &store));
    assert_eq!(get_subscriber_id_from_token("abc123", &store), Some(s1));
}

#[test]
fn confirm_already_confirmed_short_circuits_and_keeps_token() {
    let mut store = Store::new();
    let s2 = SubscriberId { value: 2 };
    store.add_subscriber(s2, SubscriberStatus::Confirmed);
    store.add_token("t2".to_string(), s2);
    let parameters = Parameters { subscription_token: "t2".to_string() };

    let outcome = confirm(&parameters, &mut store);

    assert_eq!(outcome, Ok(ConfirmOutcome::AuthorizedOk));
    assert!(is_user_confirmed(s2, &store));
    // the short-circuit path leaves the token intact
    assert_eq!(get_subscriber_id_from_token("t2", &store), Some(s2));
}

#[test]
fn confirm_twice_second_call_is_unauthorized() {
    let (mut store, s1) = store_with_pending_subscriber();
    let parameters = Parameters { subscription_token: "abc123".to_string() };

    let first = confirm(&parameters, &mut store);
    let second = confirm(&parameters, &mut store);

    assert_eq!(first, Ok(ConfirmOutcome::AuthorizedOk));
    assert_eq!(second, Ok(ConfirmOutcome::Unauthorized));
    assert!(is_user_confirmed(s1, &store));
}

#[test]
fn unit_of_work_is_invisible_until_committed() {
    let (mut store, s1) = store_with_pending_subscriber();

    let mut abandoned = store.begin();
    confirm_subscriber(s1, &mut abandoned);
    delete_old_token(s1, &mut abandoned);
    drop(abandoned);

    assert!(!is_user_confirmed(s1, &store));
    assert_eq!(get_subscriber_id_from_token("abc123", &store), Some(s1));

    let mut committed = store.begin();
    confirm_subscriber(s1, &mut committed);
    delete_old_token(s1, &mut committed);
    store.commit(committed);

    assert!(is_user_confirmed(s1, &store));
    assert_eq!(get_subscriber_id_from_token("abc123", &store), None);
}

#[test]
fn confirm_empty_token_is_unauthorized() {
    let (mut store, s1) = store_with_pending_subscriber();
    let parameters = Parameters { subscription_token: String::new() };

    let outcome = confirm(&parameters, &mut store);

    assert_eq!(outcome, Ok(ConfirmOutcome::Unauthorized));
    assert!(!is_user_confirmed(s1, &store));
}

#[test]
fn redeeming_one_token_consumes_every_token_of_the_subscriber() {
    let (mut store, s1) = store_with_pending_subscriber();
    store.add_token("spare".to_string(), s1);
    let parameters = Parameters { subscription_token: "abc123".to_string() };

    let outcome = confirm(&parameters, &mut store);

    assert_eq!(outcome, Ok(ConfirmOutcome::AuthorizedOk));
    assert_eq!(get_subscriber_id_from_token("abc123", &store), None);
    assert_eq!(get_subscriber_id_from_token("spare", &store), None);
}

#[test]
fn deleting_tokens_that_are_already_gone_is_not_an_error() {
    let mut store = Store::new();
    let s1 = SubscriberId { value: 1 };
    store.add_subscriber(s1, SubscriberStatus::PendingConfirmation);

    let mut transaction = store.begin();
    delete_old_token(s1, &mut transaction);
    store.commit(transaction);

    assert!(!is_user_confirmed(s1, &store));
}

#[test]
fn confirm_step_walks_the_happy_path_in_order() {
    let s1 = SubscriberId { value: 7 };

    let phase = confirm_step(ConfirmPhase::ResolvingToken, StoreEvent::Resolved(Some(s1)));
    assert_eq!(phase, ConfirmPhase::CheckingStatus(s1));

    let phase = confirm_step(phase, StoreEvent::StatusRead(false));
    assert_eq!(phase, ConfirmPhase::BeginningTransaction(s1));

    let phase = confirm_step(phase, StoreEvent::TransactionBegun);
    assert_eq!(phase, ConfirmPhase::MarkingConfirmed(s1));

    // the status write precedes the token delete, same unit of work
    let phase = confirm_step(phase, StoreEvent::SubscriberMarked);
    assert_eq!(phase, ConfirmPhase::DeletingToken(s1));

    let phase = confirm_step(phase, StoreEvent::TokenDeleted);
    assert_eq!(phase, ConfirmPhase::Committing(s1));

    let phase = confirm_step(phase, StoreEvent::Committed);
    assert_eq!(phase, ConfirmPhase::Finished(Ok(ConfirmOutcome::AuthorizedOk)));
}

#[test]
fn confirm_step_reports_unauthorized_for_unresolved_token() {
    let phase = confirm_step(ConfirmPhase::ResolvingToken, StoreEvent::Resolved(None));
    assert_eq!(phase, ConfirmPhase::Finished(Ok(ConfirmOutcome::Unauthorized)));
}

#[test]
fn confirm_step_short_circuits_for_confirmed_subscriber() {
    let s1 = SubscriberId { value: 7 };
    let phase = confirm_step(ConfirmPhase::CheckingStatus(s1), StoreEvent::StatusRead(true));
    assert_eq!(phase, ConfirmPhase::Finished(Ok(ConfirmOutcome::AuthorizedOk)));
}

#[test]
fn confirm_step_fails_closed_on_status_read_failure() {
    let s1 = SubscriberId { value: 7 };
    let phase = confirm_step(ConfirmPhase::CheckingStatus(s1), StoreEvent::StatusReadFailed);
    assert_eq!(phase, ConfirmPhase::BeginningTransaction(s1));
}

#[test]
fn confirm_step_surfaces_each_store_failure_as_a_system_error() {
    let s1 = SubscriberId { value: 7 };

    let phase = confirm_step(ConfirmPhase::ResolvingToken, StoreEvent::ResolveFailed);
    assert_eq!(
        phase,
        ConfirmPhase::Finished(Err(SubscribeConfirmError::UnexpectedError(
            FailedOperation::TokenLookup
        )))
    );

    let phase = confirm_step(ConfirmPhase::BeginningTransaction(s1), StoreEvent::BeginFailed);
    assert_eq!(
        phase,
        ConfirmPhase::Finished(Err(SubscribeConfirmError::UnexpectedError(
            FailedOperation::ConnectionAcquisition
        )))
    );

    let phase = confirm_step(ConfirmPhase::MarkingConfirmed(s1), StoreEvent::MarkFailed);
    assert_eq!(
        phase,
        ConfirmPhase::Finished(Err(SubscribeConfirmError::UnexpectedError(
            FailedOperation::StatusUpdate
        )))
    );

    let phase = confirm_step(ConfirmPhase::DeletingToken(s1), StoreEvent::DeleteFailed);
    assert_eq!(
        phase,
        ConfirmPhase::Finished(Err(SubscribeConfirmError::UnexpectedError(
            FailedOperation::TokenDeletion
        )))
    );

    let phase = confirm_step(ConfirmPhase::Committing(s1), StoreEvent::CommitFailed);
    assert_eq!(
        phase,
        ConfirmPhase::Finished(Err(SubscribeConfirmError::UnexpectedError(
            FailedOperation::TransactionCommit
        )))
    );
}

#[test]
fn outcome_and_error_status_codes() {
    assert_eq!(outcome_status_code(ConfirmOutcome::AuthorizedOk), 200);
    assert_eq!(outcome_status_code(ConfirmOutcome::Unauthorized), 401);
    let error = SubscribeConfirmError::UnexpectedError(FailedOperation::TokenLookup);
    assert_eq!(error.status_code(), 500);
    assert_eq!(error.context(), "Error finding subscriber from token");
}
