use ext_elasticsearch_operator::elasticsearch::ElasticError;
use ext_elasticsearch_operator::error::OperatorError;
use ext_elasticsearch_operator::lifecycle::{
    advance, due, error_of_apply, error_of_cleanup, signal_of_cleanup, status_of_apply, Event,
    Phase, Signal,
};
use ext_elasticsearch_operator::protocol::{Request, Response};
use ext_elasticsearch_operator::reconciliation::{begin_apply, begin_cleanup, cleanup_step};
use ext_elasticsearch_operator::resource::{
    ElasticSearchUserStatus, ElasticsearchUser, ElasticsearchUserSpec, UserPermissions,
};
use ext_elasticsearch_operator::text::{
    clone_texts, concat2, contains_text, join, same_bytes, same_opt_text, same_text, same_texts,
};
use ext_elasticsearch_operator::{KEEP_ANNOTATION, REQUEUE_SECONDS};

fn declared() -> ElasticsearchUser {
    ElasticsearchUser {
        name: "alice-resource".to_string(),
        uid: None,
        keep: None,
        spec: ElasticsearchUserSpec {
            secret_ref: "s1".to_string(),
            username: "alice".to_string(),
            prefixes: vec!["logs".to_string()],
            permissions: UserPermissions::Read,
        },
        status: None,
    }
}

#[test]
fn constants_of_the_operator() {
    assert_eq!(KEEP_ANNOTATION, "eeops.io/keep");
    assert_eq!(REQUEUE_SECONDS, 900);
}

#[test]
fn status_ok_and_err() {
    let fine = ElasticSearchUserStatus::ok();
    assert!(fine.ok);
    assert!(fine.error_message.is_none());
    let bad = ElasticSearchUserStatus::err("boom");
    assert!(!bad.ok);
    assert_eq!(bad.error_message.as_deref(), Some("boom"));
    let unset = ElasticSearchUserStatus::default();
    assert!(!unset.ok);
    assert!(unset.error_message.is_none());
}

#[test]
fn what_is_due_in_each_phase() {
    assert_eq!(due(Phase::Active), Some(Event::Apply));
    assert_eq!(due(Phase::CleaningUp), Some(Event::Cleanup));
    assert_eq!(due(Phase::Finalized), None);
}

#[test]
fn phases_advance_only_through_cleanup() {
    assert_eq!(advance(Phase::Active, Signal::Applied), Phase::Active);
    assert_eq!(advance(Phase::Active, Signal::CleanedUp), Phase::Active);
    assert_eq!(advance(Phase::Active, Signal::CleanupFailed), Phase::Active);
    assert_eq!(advance(Phase::Active, Signal::DeletionRequested), Phase::CleaningUp);
    assert_eq!(advance(Phase::CleaningUp, Signal::CleanupFailed), Phase::CleaningUp);
    assert_eq!(advance(Phase::CleaningUp, Signal::Applied), Phase::CleaningUp);
    assert_eq!(advance(Phase::CleaningUp, Signal::DeletionRequested), Phase::CleaningUp);
    assert_eq!(advance(Phase::CleaningUp, Signal::CleanedUp), Phase::Finalized);
    for signal in [
        Signal::Applied,
        Signal::DeletionRequested,
        Signal::CleanedUp,
        Signal::CleanupFailed,
    ] {
        assert_eq!(advance(Phase::Finalized, signal), Phase::Finalized);
    }
}

#[test]
fn no_status_while_an_apply_is_under_way() {
    let (state, _) = begin_apply(&declared());
    assert!(status_of_apply(&state).is_none());
    assert!(error_of_apply(&state).is_none());
    assert!(!state.is_over());
}

#[test]
fn cleanup_gives_its_signal_when_over() {
    let resource = declared();
    let (state, first) = begin_cleanup(&resource);
    assert!(matches!(&first, Some(Request::DeleteUser { name }) if name == "alice"));
    assert_eq!(signal_of_cleanup(&state), None);
    let (state, then) = cleanup_step(&resource, state, Response::Deleted(false));
    assert!(matches!(&then, Some(Request::DeleteRole { name }) if name == "role-alice"));
    assert_eq!(signal_of_cleanup(&state), None);
    let (state, then) = cleanup_step(&resource, state, Response::Deleted(true));
    assert!(then.is_none());
    assert_eq!(signal_of_cleanup(&state), Some(Signal::CleanedUp));
    assert!(error_of_cleanup(&state).is_none());
    assert!(!state.user_deleted);
    assert!(state.role_deleted);
}

#[test]
fn failed_cleanup_keeps_the_resource_cleaning_up() {
    let resource = declared();
    let (state, _) = begin_cleanup(&resource);
    let failure = OperatorError::ElasticError(ElasticError::Custom("boom".to_string()));
    let (state, then) = cleanup_step(&resource, state, Response::Failed(failure));
    assert!(then.is_none());
    let signal = signal_of_cleanup(&state).expect("the cleanup is over");
    assert_eq!(signal, Signal::CleanupFailed);
    assert_eq!(advance(Phase::CleaningUp, signal), Phase::CleaningUp);
    let error = error_of_cleanup(&state).expect("the cleanup failed");
    assert_eq!(error.message(), "An unexpected error occurred: boom");
}

#[test]
fn answer_that_does_not_fit_fails_the_cleanup() {
    let resource = declared();
    let (state, _) = begin_cleanup(&resource);
    let (state, then) = cleanup_step(&resource, state, Response::Written);
    assert!(then.is_none());
    assert_eq!(signal_of_cleanup(&state), Some(Signal::CleanupFailed));
}

#[test]
fn skipped_cleanup_finalizes() {
    let mut resource = declared();
    resource.keep = Some("true".to_string());
    let (state, first) = begin_cleanup(&resource);
    assert!(first.is_none());
    let signal = signal_of_cleanup(&state).expect("the cleanup is over");
    assert_eq!(advance(Phase::CleaningUp, signal), Phase::Finalized);
}

#[test]
fn answers_are_made_of_outcomes() {
    assert!(matches!(Response::of_role(Ok(None)), Response::Role(None)));
    assert!(matches!(
        Response::of_role(Err(ElasticError::NotSuperuser)),
        Response::Failed(OperatorError::ElasticError(ElasticError::NotSuperuser))
    ));
    assert!(matches!(Response::of_user(Ok(None)), Response::User(None)));
    assert!(matches!(Response::of_secret(Ok(None)), Response::Secret(None)));
    assert!(matches!(
        Response::of_secret(Err(OperatorError::KubeError("x".to_string()))),
        Response::Failed(OperatorError::KubeError(_))
    ));
    assert!(matches!(Response::of_write(Ok(())), Response::Written));
    assert!(matches!(Response::of_delete(Ok(false)), Response::Deleted(false)));
    assert!(matches!(Response::of_delete(Ok(true)), Response::Deleted(true)));
    assert!(matches!(Response::of_identity(Ok(())), Response::Authenticated));
    assert!(matches!(
        Response::of_identity(Err(ElasticError::WrongCredentials)),
        Response::Failed(OperatorError::ElasticError(ElasticError::WrongCredentials))
    ));
}

#[test]
fn text_helpers() {
    let items = vec!["a".to_string(), "b".to_string(), "c".to_string()];
    assert_eq!(join(&items, ", "), "a, b, c");
    assert_eq!(join(&items[..1].to_vec(), ", "), "a");
    assert_eq!(join(&Vec::new(), ", "), "");
    assert_eq!(concat2("role-", "alice"), "role-alice");
    assert!(same_text("a", "a"));
    assert!(!same_text("a", "A"));
    assert!(same_texts(&items, &clone_texts(&items)));
    assert!(!same_texts(&items, &items[..2].to_vec()));
    assert!(contains_text(&items, "b"));
    assert!(!contains_text(&items, "d"));
    assert!(same_opt_text(&None, &None));
    assert!(same_opt_text(&Some("x".to_string()), &Some("x".to_string())));
    assert!(!same_opt_text(&Some("x".to_string()), &None));
    assert!(same_bytes(&vec![1, 2], &vec![1, 2]));
    assert!(!same_bytes(&vec![1, 2], &vec![1, 3]));
}
