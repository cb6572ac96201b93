use std::collections::HashMap;

use ext_elasticsearch_operator::elasticsearch::{
    ElasticError, IndexPermission, Privilege, Privileges, Role, User,
};
use ext_elasticsearch_operator::error::OperatorError;
use ext_elasticsearch_operator::lifecycle::status_of_apply;
use ext_elasticsearch_operator::protocol::{Request, Response};
use ext_elasticsearch_operator::reconciliation::{
    apply_step, apply_step_with, begin_apply, begin_cleanup, cleanup_step, converge_role,
    converge_user, keeps, role_name, target_role, target_user, ApplyState, ApplyStep, Change,
    CleanupState, CleanupStep, VerifyOutcome,
};
use ext_elasticsearch_operator::resource::{
    ElasticsearchUser, ElasticsearchUserSpec, UserPermissions,
};
use ext_elasticsearch_operator::secret::SecretData;

const URL: &str = "https://elastic.example:9200";

/// Collaborators that do what they are asked and keep it in memory.
struct Store {
    secrets: HashMap<String, SecretData>,
    roles: HashMap<String, Role>,
    users: HashMap<String, User>,
    fail_delete_user: bool,
}

impl Store {
    fn new() -> Store {
        Store {
            secrets: HashMap::new(),
            roles: HashMap::new(),
            users: HashMap::new(),
            fail_delete_user: false,
        }
    }

    fn answer(&mut self, request: Request) -> Response {
        match request {
            Request::GetSecret { name } => Response::Secret(self.secrets.get(&name).cloned()),
            Request::CreateSecret { name, data, .. } => {
                self.secrets.insert(name, data);
                Response::Written
            }
            Request::PatchSecret { name, data, .. } => {
                self.secrets.insert(name, data);
                Response::Written
            }
            Request::GetRole { name } => Response::Role(self.roles.get(&name).cloned()),
            Request::PutRole { name, role } => {
                self.roles.insert(name, role);
                Response::Written
            }
            Request::GetUser { name } => Response::User(self.users.get(&name).map(|u| User {
                password: None,
                roles: u.roles.clone(),
                full_name: u.full_name.clone(),
                email: u.email.clone(),
                metadata: None,
            })),
            Request::PutUser { name, user } => {
                self.users.insert(name, user);
                Response::Written
            }
            Request::Authenticate { username, password } => match self.users.get(&username) {
                Some(user) if user.password.as_deref() == Some(password.as_str()) => {
                    Response::Authenticated
                }
                _ => Response::Failed(OperatorError::ElasticError(ElasticError::WrongCredentials)),
            },
            Request::DeleteUser { name } => {
                if self.fail_delete_user {
                    Response::Failed(OperatorError::ElasticError(ElasticError::Custom(
                        "Error deleting user: boom".to_string(),
                    )))
                } else {
                    Response::Deleted(self.users.remove(&name).is_some())
                }
            }
            Request::DeleteRole { name } => Response::Deleted(self.roles.remove(&name).is_some()),
        }
    }
}

fn kind(request: &Request) -> &'static str {
    match request {
        Request::GetSecret { .. } => "GetSecret",
        Request::CreateSecret { .. } => "CreateSecret",
        Request::PatchSecret { .. } => "PatchSecret",
        Request::GetRole { .. } => "GetRole",
        Request::PutRole { .. } => "PutRole",
        Request::GetUser { .. } => "GetUser",
        Request::PutUser { .. } => "PutUser",
        Request::Authenticate { .. } => "Authenticate",
        Request::DeleteUser { .. } => "DeleteUser",
        Request::DeleteRole { .. } => "DeleteRole",
    }
}

fn resource(permissions: UserPermissions) -> ElasticsearchUser {
    ElasticsearchUser {
        name: "alice-resource".to_string(),
        uid: Some("uid-1".to_string()),
        keep: None,
        spec: ElasticsearchUserSpec {
            secret_ref: "s1".to_string(),
            username: "alice".to_string(),
            prefixes: vec!["logs".to_string()],
            permissions,
        },
        status: None,
    }
}

fn run_apply(resource: &ElasticsearchUser, store: &mut Store) -> (ApplyState, Vec<&'static str>) {
    let (mut state, first) = begin_apply(resource);
    let mut pending = Some(first);
    let mut asked = Vec::new();
    while let Some(request) = pending {
        asked.push(kind(&request));
        assert!(asked.len() <= 8);
        let response = store.answer(request);
        let (next, then) = apply_step(resource, URL, state, response);
        state = next;
        pending = then;
    }
    (state, asked)
}

fn run_cleanup(
    resource: &ElasticsearchUser,
    store: &mut Store,
) -> (CleanupState, Vec<(&'static str, String)>) {
    let (mut state, mut pending) = begin_cleanup(resource);
    let mut asked = Vec::new();
    while let Some(request) = pending {
        let name = match &request {
            Request::DeleteUser { name } => name.clone(),
            Request::DeleteRole { name } => name.clone(),
            _ => String::new(),
        };
        asked.push((kind(&request), name));
        assert!(asked.len() <= 2);
        let response = store.answer(request);
        let (next, then) = cleanup_step(resource, state, response);
        state = next;
        pending = then;
    }
    (state, asked)
}

fn secret_text(store: &Store, key: &str) -> String {
    let bytes = store.secrets["s1"].get(key).expect("the key is there").clone();
    String::from_utf8(bytes).expect("the value is text")
}

fn is_updated(change: &Change, reason: &str) -> bool {
    matches!(change, Change::Updated(what) if what == reason)
}

#[test]
fn role_name_is_prefixed() {
    assert_eq!(role_name("alice"), "role-alice");
    assert_eq!(role_name(""), "role-");
}

#[test]
fn target_role_expands_prefixes_to_patterns() {
    let mut declared = resource(UserPermissions::Write);
    declared.spec.prefixes = vec!["logs".to_string(), "metrics-".to_string()];
    let role = target_role(&declared.spec);
    assert_eq!(role.indices.len(), 1);
    assert_eq!(role.indices[0].names, vec!["logs*".to_string(), "metrics-*".to_string()]);
    assert!(role.indices[0].privileges.allows(Privilege::Read));
    assert!(role.indices[0].privileges.allows(Privilege::Write));
    assert!(!role.indices[0].privileges.allows(Privilege::Create));
}

#[test]
fn target_role_without_prefixes_names_nothing() {
    let mut declared = resource(UserPermissions::Read);
    declared.spec.prefixes = Vec::new();
    let role = target_role(&declared.spec);
    assert_eq!(role.indices.len(), 1);
    assert!(role.indices[0].names.is_empty());
}

#[test]
fn target_user_has_one_role_and_the_mark() {
    let user = target_user("alice", "pw");
    assert_eq!(user.password.as_deref(), Some("pw"));
    assert_eq!(user.roles, vec!["role-alice".to_string()]);
    assert!(user.full_name.is_none());
    assert!(user.email.is_none());
    let metadata = user.metadata.expect("the mark is there");
    assert_eq!(metadata.len(), 1);
    assert_eq!(metadata.get("created-by"), Some(&"K8s Operator eeops".to_string()));
}

#[test]
fn converge_role_three_ways() {
    let target = target_role(&resource(UserPermissions::Write).spec);
    assert!(matches!(converge_role(&None, &target), Change::Created));
    assert!(matches!(converge_role(&Some(target.clone()), &target), Change::NoOp));
    let other = target_role(&resource(UserPermissions::Read).spec);
    assert!(is_updated(&converge_role(&Some(other), &target), "attributes"));
}

#[test]
fn converge_user_three_ways() {
    let target = target_user("alice", "pw");
    assert!(matches!(converge_user(&None, &target), Change::Created));
    let shown = User {
        password: None,
        roles: vec!["role-alice".to_string()],
        full_name: None,
        email: None,
        metadata: None,
    };
    assert!(matches!(converge_user(&Some(shown), &target), Change::NoOp));
    let drifted = User {
        password: None,
        roles: vec!["other".to_string()],
        full_name: None,
        email: None,
        metadata: None,
    };
    assert!(is_updated(
        &converge_user(&Some(drifted), &target),
        "[Roles other => role-alice]"
    ));
}

#[test]
fn first_apply_creates_secret_role_and_user() {
    let declared = resource(UserPermissions::Write);
    let mut store = Store::new();
    let (state, asked) = run_apply(&declared, &mut store);

    assert_eq!(state.step, ApplyStep::Done);
    assert_eq!(
        asked,
        vec![
            "GetSecret",
            "CreateSecret",
            "GetRole",
            "PutRole",
            "GetUser",
            "PutUser",
            "Authenticate"
        ]
    );
    assert!(matches!(state.report.role_change, Change::Created));
    assert!(matches!(state.report.user_change, Change::Created));
    assert_eq!(state.verify, Some(VerifyOutcome::Accepted));

    assert_eq!(secret_text(&store, "ELASTICSEARCH_USERNAME"), "alice");
    assert_eq!(secret_text(&store, "ELASTICSEARCH_URL"), URL);
    let password = secret_text(&store, "ELASTICSEARCH_PASSWORD");
    assert_eq!(password.len(), 24);
    assert!(password.chars().all(|c| c.is_ascii_alphanumeric()));

    let role = &store.roles["role-alice"];
    assert_eq!(role.indices.len(), 1);
    assert_eq!(role.indices[0].names, vec!["logs*".to_string()]);
    assert!(role.indices[0].privileges == Privileges::new().enable_read().enable_write());

    let user = &store.users["alice"];
    assert_eq!(user.roles, vec!["role-alice".to_string()]);
    assert_eq!(user.password.as_deref(), Some(password.as_str()));

    let status = status_of_apply(&state).expect("the apply is over");
    assert!(status.ok);
    assert!(status.error_message.is_none());
}

#[test]
fn created_secret_names_its_owner() {
    let declared = resource(UserPermissions::Write);
    let (state, first) = begin_apply(&declared);
    assert!(matches!(&first, Request::GetSecret { name } if name == "s1"));
    let (_, then) = apply_step(&declared, URL, state, Response::Secret(None));
    match then {
        Some(Request::CreateSecret { name, owner, data }) => {
            assert_eq!(name, "s1");
            assert_eq!(owner.api_version, "eeops.io/v1");
            assert_eq!(owner.kind, "ElasticsearchUser");
            assert_eq!(owner.name, "alice-resource");
            assert_eq!(owner.uid, "uid-1");
            assert_eq!(data.len(), 3);
        }
        other => panic!("expected the secret to be created, got {:?}", other),
    }
}

#[test]
fn owner_without_uid_has_an_empty_one() {
    let mut declared = resource(UserPermissions::Write);
    declared.uid = None;
    let (state, _) = begin_apply(&declared);
    let (_, then) = apply_step(&declared, URL, state, Response::Secret(None));
    match then {
        Some(Request::CreateSecret { owner, .. }) => assert_eq!(owner.uid, ""),
        other => panic!("expected the secret to be created, got {:?}", other),
    }
}

#[test]
fn second_apply_changes_nothing() {
    let declared = resource(UserPermissions::Write);
    let mut store = Store::new();
    run_apply(&declared, &mut store);
    let password = secret_text(&store, "ELASTICSEARCH_PASSWORD");

    let (state, asked) = run_apply(&declared, &mut store);
    assert_eq!(state.step, ApplyStep::Done);
    assert_eq!(asked, vec!["GetSecret", "GetRole", "GetUser", "Authenticate"]);
    assert!(matches!(state.report.role_change, Change::NoOp));
    assert!(matches!(state.report.user_change, Change::NoOp));
    assert_eq!(state.verify, Some(VerifyOutcome::Accepted));
    assert_eq!(secret_text(&store, "ELASTICSEARCH_PASSWORD"), password);
}

#[test]
fn reapply_after_user_was_deleted_creates_the_user_only() {
    let declared = resource(UserPermissions::Write);
    let mut store = Store::new();
    run_apply(&declared, &mut store);
    store.users.remove("alice");

    let (state, asked) = run_apply(&declared, &mut store);
    assert_eq!(state.step, ApplyStep::Done);
    assert!(matches!(state.report.role_change, Change::NoOp));
    assert!(matches!(state.report.user_change, Change::Created));
    assert_eq!(asked, vec!["GetSecret", "GetRole", "GetUser", "PutUser", "Authenticate"]);
    assert!(store.users.contains_key("alice"));
}

#[test]
fn changed_tier_updates_the_role_only() {
    let mut store = Store::new();
    run_apply(&resource(UserPermissions::Read), &mut store);

    let declared = resource(UserPermissions::Create);
    let (state, asked) = run_apply(&declared, &mut store);
    assert_eq!(state.step, ApplyStep::Done);
    assert!(is_updated(&state.report.role_change, "attributes"));
    assert!(matches!(state.report.user_change, Change::NoOp));
    assert_eq!(asked, vec!["GetSecret", "GetRole", "PutRole", "GetUser", "Authenticate"]);
    let privileges = store.roles["role-alice"].indices[0].privileges;
    assert!(privileges.allows(Privilege::Read));
    assert!(privileges.allows(Privilege::Write));
    assert!(privileges.allows(Privilege::Create));
}

#[test]
fn drifted_index_patterns_are_overwritten() {
    let declared = resource(UserPermissions::Write);
    let mut store = Store::new();
    run_apply(&declared, &mut store);
    store.roles.insert(
        "role-alice".to_string(),
        Role {
            indices: vec![IndexPermission {
                names: vec!["other*".to_string()],
                privileges: Privileges::from(UserPermissions::Write),
            }],
        },
    );

    let (state, _) = run_apply(&declared, &mut store);
    assert!(is_updated(&state.report.role_change, "attributes"));
    assert!(store.roles["role-alice"] == target_role(&declared.spec));
}

#[test]
fn stale_password_is_healed_with_one_put() {
    let declared = resource(UserPermissions::Write);
    let mut store = Store::new();
    run_apply(&declared, &mut store);
    let password = secret_text(&store, "ELASTICSEARCH_PASSWORD");
    store.users.get_mut("alice").expect("the user is there").password =
        Some("changed-by-hand".to_string());

    let (state, asked) = run_apply(&declared, &mut store);
    assert_eq!(state.step, ApplyStep::Done);
    assert_eq!(state.verify, Some(VerifyOutcome::PasswordStale));
    assert!(matches!(state.report.user_change, Change::NoOp));
    assert_eq!(asked, vec!["GetSecret", "GetRole", "GetUser", "Authenticate", "PutUser"]);
    assert_eq!(asked.iter().filter(|k| **k == "PutUser").count(), 1);
    assert_eq!(store.users["alice"].password.as_deref(), Some(password.as_str()));
    assert!(status_of_apply(&state).expect("the apply is over").ok);

    let (again, asked_again) = run_apply(&declared, &mut store);
    assert_eq!(again.verify, Some(VerifyOutcome::Accepted));
    assert_eq!(asked_again, vec!["GetSecret", "GetRole", "GetUser", "Authenticate"]);
}

#[test]
fn other_error_while_verifying_is_passed_on() {
    let declared = resource(UserPermissions::Write);
    let mut store = Store::new();
    let (mut state, first) = begin_apply(&declared);
    let mut pending = Some(first);
    while let Some(request) = pending {
        let response = match request {
            Request::Authenticate { .. } => Response::Failed(OperatorError::ElasticError(
                ElasticError::HttpRequest("timed out".to_string()),
            )),
            other => store.answer(other),
        };
        let (next, then) = apply_step(&declared, URL, state, response);
        state = next;
        pending = then;
    }
    assert_eq!(state.step, ApplyStep::Failed);
    assert!(state.verify.is_none());
    let status = status_of_apply(&state).expect("the apply is over");
    assert!(!status.ok);
    assert_eq!(status.error_message.as_deref(), Some("timed out"));
}

#[test]
fn failure_of_the_control_plane_ends_the_apply() {
    let declared = resource(UserPermissions::Write);
    let (state, _) = begin_apply(&declared);
    let (state, then) = apply_step(
        &declared,
        URL,
        state,
        Response::Failed(OperatorError::KubeError("forbidden".to_string())),
    );
    assert!(then.is_none());
    assert_eq!(state.step, ApplyStep::Failed);
    let status = status_of_apply(&state).expect("the apply is over");
    assert!(!status.ok);
    assert_eq!(status.error_message.as_deref(), Some("forbidden"));
}

#[test]
fn answer_that_does_not_fit_ends_the_apply() {
    let declared = resource(UserPermissions::Write);
    let (state, _) = begin_apply(&declared);
    let (state, then) = apply_step(&declared, URL, state, Response::Deleted(true));
    assert!(then.is_none());
    assert_eq!(state.step, ApplyStep::Failed);
    assert!(matches!(state.error, Some(OperatorError::Anyhow { .. })));
}

#[test]
fn apply_that_is_over_asks_nothing_more() {
    let declared = resource(UserPermissions::Write);
    let mut store = Store::new();
    let (state, _) = run_apply(&declared, &mut store);
    assert!(state.is_over());
    let (state, then) = apply_step(&declared, URL, state, Response::Written);
    assert!(then.is_none());
    assert_eq!(state.step, ApplyStep::Done);
}

#[test]
fn drifted_secret_is_patched_and_keeps_its_password() {
    let declared = resource(UserPermissions::Write);
    let mut store = Store::new();
    let mut data = SecretData::new();
    data.insert("ELASTICSEARCH_URL".to_string(), b"http://old".to_vec());
    data.insert("ELASTICSEARCH_USERNAME".to_string(), b"bob".to_vec());
    data.insert("ELASTICSEARCH_PASSWORD".to_string(), b"kept".to_vec());
    data.insert("EXTRA".to_string(), b"mine".to_vec());
    store.secrets.insert("s1".to_string(), data);

    let (state, asked) = run_apply(&declared, &mut store);
    assert_eq!(state.step, ApplyStep::Done);
    assert_eq!(asked[1], "PatchSecret");
    assert_eq!(secret_text(&store, "ELASTICSEARCH_URL"), URL);
    assert_eq!(secret_text(&store, "ELASTICSEARCH_USERNAME"), "alice");
    assert_eq!(secret_text(&store, "ELASTICSEARCH_PASSWORD"), "kept");
    assert_eq!(secret_text(&store, "EXTRA"), "mine");
    assert_eq!(state.password, "kept");
    assert_eq!(store.users["alice"].password.as_deref(), Some("kept"));
}

#[test]
fn secret_without_password_gets_one() {
    let declared = resource(UserPermissions::Write);
    let mut store = Store::new();
    let mut data = SecretData::new();
    data.insert("ELASTICSEARCH_URL".to_string(), URL.as_bytes().to_vec());
    data.insert("ELASTICSEARCH_USERNAME".to_string(), b"alice".to_vec());
    store.secrets.insert("s1".to_string(), data);

    let (state, asked) = run_apply(&declared, &mut store);
    assert_eq!(state.step, ApplyStep::Done);
    assert_eq!(asked[1], "PatchSecret");
    assert_eq!(secret_text(&store, "ELASTICSEARCH_USERNAME"), "alice");
    assert_eq!(secret_text(&store, "ELASTICSEARCH_PASSWORD").len(), 24);
}

#[test]
fn password_that_is_no_text_fails_the_apply() {
    let declared = resource(UserPermissions::Write);
    let mut store = Store::new();
    let mut data = SecretData::new();
    data.insert("ELASTICSEARCH_PASSWORD".to_string(), vec![0xff, 0xfe]);
    store.secrets.insert("s1".to_string(), data);

    let (state, asked) = run_apply(&declared, &mut store);
    assert_eq!(state.step, ApplyStep::Failed);
    assert_eq!(asked, vec!["GetSecret"]);
    assert!(store.roles.is_empty());
    assert!(store.users.is_empty());
}

#[test]
fn step_with_a_given_password_uses_it() {
    let declared = resource(UserPermissions::Write);
    let (state, _) = begin_apply(&declared);
    let (state, then) = apply_step_with(&declared, URL, state, Response::Secret(None), "Abc123");
    assert_eq!(state.step, ApplyStep::SecretWriting);
    assert_eq!(state.username, "alice");
    assert_eq!(state.password, "Abc123");
    match then {
        Some(Request::CreateSecret { data, .. }) => {
            assert_eq!(data.get("ELASTICSEARCH_PASSWORD"), Some(&b"Abc123".to_vec()));
        }
        other => panic!("expected the secret to be created, got {:?}", other),
    }
}

#[test]
fn cleanup_deletes_user_then_role() {
    let declared = resource(UserPermissions::Write);
    let mut store = Store::new();
    run_apply(&declared, &mut store);

    let (state, asked) = run_cleanup(&declared, &mut store);
    assert_eq!(state.step, CleanupStep::Done);
    assert!(state.succeeded());
    assert!(state.user_deleted);
    assert!(state.role_deleted);
    assert_eq!(
        asked,
        vec![("DeleteUser", "alice".to_string()), ("DeleteRole", "role-alice".to_string())]
    );
    assert!(store.users.is_empty());
    assert!(store.roles.is_empty());
    assert!(store.secrets.contains_key("s1"));
}

#[test]
fn cleanup_of_what_is_not_there_succeeds() {
    let declared = resource(UserPermissions::Write);
    let mut store = Store::new();
    let (state, asked) = run_cleanup(&declared, &mut store);
    assert_eq!(state.step, CleanupStep::Done);
    assert!(state.succeeded());
    assert!(!state.user_deleted);
    assert!(!state.role_deleted);
    assert!(state.error.is_none());
    assert_eq!(asked.len(), 2);
    assert_eq!(asked[0].0, "DeleteUser");
    assert_eq!(asked[1].0, "DeleteRole");
}

#[test]
fn failed_user_deletion_stops_the_cleanup() {
    let declared = resource(UserPermissions::Write);
    let mut store = Store::new();
    run_apply(&declared, &mut store);
    store.fail_delete_user = true;

    let (state, asked) = run_cleanup(&declared, &mut store);
    assert_eq!(state.step, CleanupStep::Failed);
    assert!(!state.succeeded());
    assert!(state.is_over());
    assert_eq!(asked, vec![("DeleteUser", "alice".to_string())]);
    assert!(store.roles.contains_key("role-alice"));
}

#[test]
fn keep_annotation_skips_the_cleanup() {
    let mut declared = resource(UserPermissions::Write);
    let mut store = Store::new();
    run_apply(&declared, &mut store);
    declared.keep = Some("true".to_string());

    let (state, asked) = run_cleanup(&declared, &mut store);
    assert_eq!(state.step, CleanupStep::Skipped);
    assert!(state.succeeded());
    assert!(asked.is_empty());
    assert!(store.users.contains_key("alice"));
    assert!(store.roles.contains_key("role-alice"));
}

#[test]
fn keep_annotation_is_read_as_a_truth_value() {
    let mut declared = resource(UserPermissions::Write);
    assert!(!keeps(&declared));
    declared.keep = Some(" Yes ".to_string());
    assert!(keeps(&declared));
    declared.keep = Some("false".to_string());
    assert!(!keeps(&declared));
    declared.keep = Some("0".to_string());
    assert!(!keeps(&declared));
    declared.keep = Some("maybe".to_string());
    assert!(keeps(&declared));
    declared.keep = Some(String::new());
    assert!(keeps(&declared));
}
