//! Convergence: what the external store should hold for a declared user,
//! how that differs from what it holds, and the course of requests that
//! brings the one to the other.
//!
//! The operator never talks to a collaborator itself. [`begin_apply`] and
//! [`begin_cleanup`] hand out the first request, [`apply_step`] and
//! [`cleanup_step`] take the answer and hand out the next one, until the
//! state says that the course is over.

use vstd::prelude::*;
use vstd::string::*;

use crate::elasticsearch::role::{
    tier_privileges,
    IndexPermission,
    IndexPermissionView,
    Privileges,
    Role,
    RoleView,
};
use crate::elasticsearch::user::{delta_text, Metadata, User, UserView};
use crate::elasticsearch::error::ElasticErrorView;
use crate::env::{as_bool, text_truth};
use crate::error::{OperatorError, OperatorErrorView};
use crate::password::{generate_password, is_generated_password};
use crate::protocol::{owner_of, owner_reference, Request, RequestView, Response, ResponseView};
use crate::resource::{
    ElasticsearchUser,
    ElasticsearchUserSpec,
    ElasticsearchUserSpecView,
    ElasticsearchUserView,
};
use crate::secret::{
    lacks_password,
    needs_password,
    plan_secret,
    planned_secret,
    planned_write,
    secret_text,
    text_under,
    SecretData,
    SecretWrite,
};
use crate::text::concat2;
use crate::{SECRET_PASS, SECRET_USER};

verus! {

/// The name of the role of the user called `username`.
pub open spec fn role_name_of(username: Seq<char>) -> Seq<char> {
    "role-"@ + username
}

/// The role that a declared user should have: on every index whose name
/// starts with one of the prefixes, the privileges of the permission tier.
pub open spec fn target_role_of(spec: ElasticsearchUserSpecView) -> RoleView {
    RoleView {
        indices: seq![
            IndexPermissionView {
                names: spec.prefixes.map_values(|prefix: Seq<char>| prefix + "*"@),
                privileges: tier_privileges(spec.permissions),
            },
        ],
    }
}

/// The user that the external store should hold: with the password of the
/// secret, the one role of that user, and the operator's mark.
pub open spec fn target_user_of(username: Seq<char>, password: Seq<char>) -> UserView {
    UserView {
        password: Some(password),
        roles: seq![role_name_of(username)],
        full_name: None,
        email: None,
        metadata: Some(map!["created-by"@ => "K8s Operator eeops"@]),
    }
}

/// The name of the role of the user called `username`.
pub fn role_name(username: &str) -> (r: String)
    ensures
        r@ == role_name_of(username@),
{
    concat2("role-", username)
}

/// The role that a declared user should have.
pub fn target_role(spec: &ElasticsearchUserSpec) -> (r: Role)
    ensures
        r@ == target_role_of(spec@),
{
    let mut names: Vec<String> = Vec::new();
    let mut i: usize = 0;
    while i < spec.prefixes.len()
        invariant
            i <= spec.prefixes.len(),
            names.len() == i,
            forall|j: int| 0 <= j < i ==> names[j]@ == spec.prefixes[j]@ + "*"@,
        decreases spec.prefixes.len() - i,
    {
        names.push(concat2(spec.prefixes[i].as_str(), "*"));
        i += 1;
    }
    let permission = IndexPermission { names, privileges: Privileges::from(spec.permissions) };
    assert(permission@.names =~= spec@.prefixes.map_values(|prefix: Seq<char>| prefix + "*"@));
    let mut indices: Vec<IndexPermission> = Vec::new();
    indices.push(permission);
    let r = Role { indices };
    assert(r@.indices =~= target_role_of(spec@).indices);
    r
}

/// The user that the external store should hold.
pub fn target_user(username: &str, password: &str) -> (r: User)
    ensures
        r@ == target_user_of(username@, password@),
{
    let mut roles: Vec<String> = Vec::new();
    roles.push(role_name(username));
    let mut metadata = Metadata::new();
    metadata.insert("created-by".to_string(), "K8s Operator eeops".to_string());
    let r = User {
        password: Some(password.to_string()),
        roles,
        full_name: None,
        email: None,
        metadata: Some(metadata),
    };
    assert(r@.roles =~= target_user_of(username@, password@).roles);
    r
}

/// What convergence did to a role or a user.
#[derive(Debug)]
pub enum Change {
    /// It was as it should be.
    NoOp,
    /// It was not there and has been created.
    Created,
    /// It differed and has been overwritten; holds what differed.
    Updated(String),
}

/// What contracts say of a [`Change`].
pub enum ChangeView {
    NoOp,
    Created,
    Updated(Seq<char>),
}

impl DeepView for Change {
    type V = ChangeView;

    open spec fn deep_view(&self) -> ChangeView {
        self@
    }
}

impl View for Change {
    type V = ChangeView;

    open spec fn view(&self) -> ChangeView {
        match self {
            Change::NoOp => ChangeView::NoOp,
            Change::Created => ChangeView::Created,
            Change::Updated(what) => ChangeView::Updated(what@),
        }
    }
}

impl Clone for Change {
    fn clone(&self) -> (r: Self)
        ensures
            r@ == self@,
    {
        match self {
            Change::NoOp => Change::NoOp,
            Change::Created => Change::Created,
            Change::Updated(what) => Change::Updated(what.clone()),
        }
    }
}

impl Change {
    /// Whether nothing had to be done.
    pub fn is_noop(&self) -> (r: bool)
        ensures
            r == (self@ is NoOp),
    {
        match self {
            Change::NoOp => true,
            _ => false,
        }
    }
}

/// What has to happen to a role: created where there is none, nothing where
/// it equals the target, and else overwritten.
pub open spec fn role_change_for(observed: Option<RoleView>, target: RoleView) -> ChangeView {
    match observed {
        None => ChangeView::Created,
        Some(found) => if found == target {
            ChangeView::NoOp
        } else {
            ChangeView::Updated("attributes"@)
        },
    }
}

/// What has to happen to a user: created where there is none, nothing where
/// roles, full name and email equal the target's, and else overwritten.
pub open spec fn user_change_for(observed: Option<UserView>, target: UserView) -> ChangeView {
    match observed {
        None => ChangeView::Created,
        Some(found) => match delta_text(target, found) {
            None => ChangeView::NoOp,
            Some(delta) => ChangeView::Updated(delta),
        },
    }
}

/// What has to happen to the role of which `observed` is there.
pub fn converge_role(observed: &Option<Role>, target: &Role) -> (r: Change)
    ensures
        r@ == role_change_for(observed.deep_view(), target@),
{
    match observed {
        None => Change::Created,
        Some(found) => if *found == *target {
            Change::NoOp
        } else {
            Change::Updated("attributes".to_string())
        },
    }
}

/// What has to happen to the user of which `observed` is there.
pub fn converge_user(observed: &Option<User>, target: &User) -> (r: Change)
    ensures
        r@ == user_change_for(observed.deep_view(), target@),
{
    match observed {
        None => Change::Created,
        Some(found) => match target.delta_string(found) {
            None => Change::NoOp,
            Some(delta) => Change::Updated(delta),
        },
    }
}

/// What convergence did to the role and to the user.
#[derive(Debug)]
pub struct ConvergenceReport {
    pub role_change: Change,
    pub user_change: Change,
}

/// What contracts say of a [`ConvergenceReport`].
pub struct ConvergenceReportView {
    pub role_change: ChangeView,
    pub user_change: ChangeView,
}

impl View for ConvergenceReport {
    type V = ConvergenceReportView;

    open spec fn view(&self) -> ConvergenceReportView {
        ConvergenceReportView { role_change: self.role_change@, user_change: self.user_change@ }
    }
}

/// Whether the password of the secret still opens the external store.
#[derive(Clone, Copy, Debug, PartialEq, Eq, Structural)]
pub enum VerifyOutcome {
    /// It does.
    Accepted,
    /// It does not: the store has another password for the user.
    PasswordStale,
}

/// Where an apply stands.
#[derive(Clone, Copy, Debug, PartialEq, Eq, Structural)]
pub enum ApplyStep {
    /// The secret has been asked for.
    SecretRequested,
    /// The secret is being created or patched.
    SecretWriting,
    /// The role has been asked for.
    RoleRequested,
    /// The role is being put.
    RoleWriting,
    /// The user has been asked for.
    UserRequested,
    /// The user is being put.
    UserWriting,
    /// The credentials are being tried.
    Verifying,
    /// The user is being put once more, after the credentials failed.
    Healing,
    /// All is as it should be.
    Done,
    /// A request failed; nothing more is asked.
    Failed,
}

/// All that an apply knows between two requests.
#[derive(Debug)]
pub struct ApplyState {
    pub step: ApplyStep,
    /// The user name of the secret; empty until the secret is known.
    pub username: String,
    /// The password of the secret; empty until the secret is known.
    pub password: String,
    pub report: ConvergenceReport,
    /// How trying the credentials went, once they have been tried.
    pub verify: Option<VerifyOutcome>,
    /// Why the apply failed, if it did.
    pub error: Option<OperatorError>,
}

/// What contracts say of an [`ApplyState`].
pub struct ApplyStateView {
    pub step: ApplyStep,
    pub username: Seq<char>,
    pub password: Seq<char>,
    pub report: ConvergenceReportView,
    pub verify: Option<VerifyOutcome>,
    pub error: Option<OperatorErrorView>,
}

impl View for ApplyState {
    type V = ApplyStateView;

    open spec fn view(&self) -> ApplyStateView {
        ApplyStateView {
            step: self.step,
            username: self.username@,
            password: self.password@,
            report: self.report@,
            verify: self.verify,
            error: self.error.deep_view(),
        }
    }
}

/// The error of an answer that does not fit the request it answers.
pub open spec fn unexpected_answer() -> OperatorErrorView {
    OperatorErrorView::Anyhow {
        message: "the answer does not fit the request"@,
        root_cause: "the answer does not fit the request"@,
    }
}

/// The error of a secret whose user name or password is no text.
pub open spec fn unreadable_secret() -> OperatorErrorView {
    OperatorErrorView::Anyhow {
        message: "the secret holds credentials that are not valid UTF-8"@,
        root_cause: "the secret holds credentials that are not valid UTF-8"@,
    }
}

/// The beginning of an apply: nothing is known, the secret is asked for.
pub open spec fn apply_start(resource: ElasticsearchUserView) -> (ApplyStateView, RequestView) {
    (
        ApplyStateView {
            step: ApplyStep::SecretRequested,
            username: Seq::empty(),
            password: Seq::empty(),
            report: ConvergenceReportView {
                role_change: ChangeView::NoOp,
                user_change: ChangeView::NoOp,
            },
            verify: None,
            error: None,
        },
        RequestView::GetSecret { name: resource.spec.secret_ref },
    )
}

/// The apply fails with `error`.
pub open spec fn apply_failed(state: ApplyStateView, error: OperatorErrorView) -> (
    ApplyStateView,
    Option<RequestView>,
) {
    (ApplyStateView { step: ApplyStep::Failed, error: Some(error), ..state }, None)
}

/// The secret is settled: the role is asked for.
pub open spec fn ask_for_role(state: ApplyStateView) -> (ApplyStateView, Option<RequestView>) {
    (
        ApplyStateView { step: ApplyStep::RoleRequested, ..state },
        Some(RequestView::GetRole { name: role_name_of(state.username) }),
    )
}

/// The role is settled: the user is asked for.
pub open spec fn ask_for_user(state: ApplyStateView) -> (ApplyStateView, Option<RequestView>) {
    (
        ApplyStateView { step: ApplyStep::UserRequested, ..state },
        Some(RequestView::GetUser { name: state.username }),
    )
}

/// The user is settled: the credentials are tried.
pub open spec fn try_credentials(state: ApplyStateView) -> (ApplyStateView, Option<RequestView>) {
    (
        ApplyStateView { step: ApplyStep::Verifying, ..state },
        Some(RequestView::Authenticate { username: state.username, password: state.password }),
    )
}

/// The secret has been read. It is brought to what it should hold, and with
/// it the credentials are known.
pub open spec fn after_secret(
    resource: ElasticsearchUserView,
    url: Seq<char>,
    state: ApplyStateView,
    observed: Option<Map<Seq<char>, Seq<u8>>>,
    fresh: Seq<char>,
) -> (ApplyStateView, Option<RequestView>) {
    let data = planned_secret(observed, resource.spec.username, url, fresh);
    match (text_under(data, SECRET_USER@), text_under(data, SECRET_PASS@)) {
        (Some(username), Some(password)) => {
            let known = ApplyStateView { username, password, ..state };
            match planned_write(observed, resource.spec.username, url) {
                SecretWrite::Keep => ask_for_role(known),
                SecretWrite::Create => (
                    ApplyStateView { step: ApplyStep::SecretWriting, ..known },
                    Some(
                        RequestView::CreateSecret {
                            name: resource.spec.secret_ref,
                            owner: owner_of(resource),
                            data,
                        },
                    ),
                ),
                SecretWrite::Patch => (
                    ApplyStateView { step: ApplyStep::SecretWriting, ..known },
                    Some(
                        RequestView::PatchSecret {
                            name: resource.spec.secret_ref,
                            owner: owner_of(resource),
                            data,
                        },
                    ),
                ),
            }
        },
        _ => apply_failed(state, unreadable_secret()),
    }
}

/// The role has been read. It is left, created or overwritten.
pub open spec fn after_role(
    resource: ElasticsearchUserView,
    state: ApplyStateView,
    observed: Option<RoleView>,
) -> (ApplyStateView, Option<RequestView>) {
    let target = target_role_of(resource.spec);
    let change = role_change_for(observed, target);
    let noted = ApplyStateView {
        report: ConvergenceReportView { role_change: change, ..state.report },
        ..state
    };
    if change is NoOp {
        ask_for_user(noted)
    } else {
        (
            ApplyStateView { step: ApplyStep::RoleWriting, ..noted },
            Some(RequestView::PutRole { name: role_name_of(state.username), role: target }),
        )
    }
}

/// The user has been read. It is left, created or overwritten.
pub open spec fn after_user(state: ApplyStateView, observed: Option<UserView>) -> (
    ApplyStateView,
    Option<RequestView>,
) {
    let target = target_user_of(state.username, state.password);
    let change = user_change_for(observed, target);
    let noted = ApplyStateView {
        report: ConvergenceReportView { user_change: change, ..state.report },
        ..state
    };
    if change is NoOp {
        try_credentials(noted)
    } else {
        (
            ApplyStateView { step: ApplyStep::UserWriting, ..noted },
            Some(RequestView::PutUser { name: state.username, user: target }),
        )
    }
}

/// The store declined the credentials: the user is put once more, so that
/// the store takes the password of the secret.
pub open spec fn heal_credentials(state: ApplyStateView) -> (ApplyStateView, Option<RequestView>) {
    (
        ApplyStateView {
            step: ApplyStep::Healing,
            verify: Some(VerifyOutcome::PasswordStale),
            ..state
        },
        Some(
            RequestView::PutUser {
                name: state.username,
                user: target_user_of(state.username, state.password),
            },
        ),
    )
}

/// What an apply does with an answer: the state it goes to and the request
/// it makes next, if any. `fresh` is the password to use if the secret has
/// none. An apply that is over stays as it is and asks nothing.
pub open spec fn apply_next(
    resource: ElasticsearchUserView,
    url: Seq<char>,
    state: ApplyStateView,
    response: ResponseView,
    fresh: Seq<char>,
) -> (ApplyStateView, Option<RequestView>) {
    match (state.step, response) {
        (ApplyStep::Done, _) => (state, None),
        (ApplyStep::Failed, _) => (state, None),
        (ApplyStep::Verifying, ResponseView::Failed(error)) => if error
            == OperatorErrorView::ElasticError(ElasticErrorView::WrongCredentials) {
            heal_credentials(state)
        } else {
            apply_failed(state, error)
        },
        (_, ResponseView::Failed(error)) => apply_failed(state, error),
        (ApplyStep::SecretRequested, ResponseView::Secret(observed)) => after_secret(
            resource,
            url,
            state,
            observed,
            fresh,
        ),
        (ApplyStep::SecretWriting, ResponseView::Written) => ask_for_role(state),
        (ApplyStep::RoleRequested, ResponseView::Role(observed)) => after_role(
            resource,
            state,
            observed,
        ),
        (ApplyStep::RoleWriting, ResponseView::Written) => ask_for_user(state),
        (ApplyStep::UserRequested, ResponseView::User(observed)) => after_user(state, observed),
        (ApplyStep::UserWriting, ResponseView::Written) => try_credentials(state),
        (ApplyStep::Verifying, ResponseView::Authenticated) => (
            ApplyStateView { step: ApplyStep::Done, verify: Some(VerifyOutcome::Accepted), ..state },
            None,
        ),
        (ApplyStep::Healing, ResponseView::Written) => (
            ApplyStateView { step: ApplyStep::Done, ..state },
            None,
        ),
        _ => apply_failed(state, unexpected_answer()),
    }
}

/// Whether the answer makes the apply draw a password at random: the secret
/// has just been read, and there is none or it has no password.
pub open spec fn draws_password(state: ApplyStateView, response: ResponseView) -> bool {
    state.step == ApplyStep::SecretRequested && (response matches ResponseView::Secret(observed)
        && lacks_password(observed))
}

impl ApplyState {
    /// Whether the apply is over, well or badly.
    pub fn is_over(&self) -> (r: bool)
        ensures
            r == (self@.step == ApplyStep::Done || self@.step == ApplyStep::Failed),
    {
        match self.step {
            ApplyStep::Done => true,
            ApplyStep::Failed => true,
            _ => false,
        }
    }
}

/// The error of an answer that does not fit the request it answers.
fn unexpected_answer_error() -> (r: OperatorError)
    ensures
        r@ == unexpected_answer(),
{
    OperatorError::Anyhow {
        message: "the answer does not fit the request".to_string(),
        root_cause: "the answer does not fit the request".to_string(),
    }
}

/// The error of a secret whose user name or password is no text.
fn unreadable_secret_error() -> (r: OperatorError)
    ensures
        r@ == unreadable_secret(),
{
    OperatorError::Anyhow {
        message: "the secret holds credentials that are not valid UTF-8".to_string(),
        root_cause: "the secret holds credentials that are not valid UTF-8".to_string(),
    }
}

fn fail_apply(state: ApplyState, error: OperatorError) -> (r: (ApplyState, Option<Request>))
    ensures
        (r.0@, r.1.deep_view()) == apply_failed(state@, error@),
{
    (
        ApplyState {
            step: ApplyStep::Failed,
            username: state.username,
            password: state.password,
            report: state.report,
            verify: state.verify,
            error: Some(error),
        },
        None,
    )
}

fn request_role(state: ApplyState) -> (r: (ApplyState, Option<Request>))
    ensures
        (r.0@, r.1.deep_view()) == ask_for_role(state@),
{
    let name = role_name(state.username.as_str());
    (
        ApplyState {
            step: ApplyStep::RoleRequested,
            username: state.username,
            password: state.password,
            report: state.report,
            verify: state.verify,
            error: state.error,
        },
        Some(Request::GetRole { name }),
    )
}

fn request_user(state: ApplyState) -> (r: (ApplyState, Option<Request>))
    ensures
        (r.0@, r.1.deep_view()) == ask_for_user(state@),
{
    let name = state.username.clone();
    (
        ApplyState {
            step: ApplyStep::UserRequested,
            username: state.username,
            password: state.password,
            report: state.report,
            verify: state.verify,
            error: state.error,
        },
        Some(Request::GetUser { name }),
    )
}

fn request_identity(state: ApplyState) -> (r: (ApplyState, Option<Request>))
    ensures
        (r.0@, r.1.deep_view()) == try_credentials(state@),
{
    let username = state.username.clone();
    let password = state.password.clone();
    (
        ApplyState {
            step: ApplyStep::Verifying,
            username: state.username,
            password: state.password,
            report: state.report,
            verify: state.verify,
            error: state.error,
        },
        Some(Request::Authenticate { username, password }),
    )
}

fn settle_secret(
    resource: &ElasticsearchUser,
    url: &str,
    state: ApplyState,
    observed: Option<SecretData>,
    fresh: &str,
) -> (r: (ApplyState, Option<Request>))
    ensures
        (r.0@, r.1.deep_view()) == after_secret(
            resource@,
            url@,
            state@,
            observed.deep_view(),
            fresh@,
        ),
{
    let plan = plan_secret(observed, resource.spec.username.as_str(), url, fresh);
    let username = secret_text(&plan.data, SECRET_USER);
    let password = secret_text(&plan.data, SECRET_PASS);
    match (username, password) {
        (Some(username), Some(password)) => {
            let known = ApplyState {
                step: state.step,
                username,
                password,
                report: state.report,
                verify: state.verify,
                error: state.error,
            };
            match plan.write {
                SecretWrite::Keep => request_role(known),
                SecretWrite::Create => (
                    ApplyState {
                        step: ApplyStep::SecretWriting,
                        username: known.username,
                        password: known.password,
                        report: known.report,
                        verify: known.verify,
                        error: known.error,
                    },
                    Some(
                        Request::CreateSecret {
                            name: resource.spec.secret_ref.clone(),
                            owner: owner_reference(resource),
                            data: plan.data,
                        },
                    ),
                ),
                SecretWrite::Patch => (
                    ApplyState {
                        step: ApplyStep::SecretWriting,
                        username: known.username,
                        password: known.password,
                        report: known.report,
                        verify: known.verify,
                        error: known.error,
                    },
                    Some(
                        Request::PatchSecret {
                            name: resource.spec.secret_ref.clone(),
                            owner: owner_reference(resource),
                            data: plan.data,
                        },
                    ),
                ),
            }
        },
        _ => fail_apply(state, unreadable_secret_error()),
    }
}

fn settle_role(resource: &ElasticsearchUser, state: ApplyState, observed: Option<Role>) -> (r: (
    ApplyState,
    Option<Request>,
))
    ensures
        (r.0@, r.1.deep_view()) == after_role(resource@, state@, observed.deep_view()),
{
    let target = target_role(&resource.spec);
    let change = converge_role(&observed, &target);
    let unchanged = change.is_noop();
    let name = role_name(state.username.as_str());
    let noted = ApplyState {
        step: state.step,
        username: state.username,
        password: state.password,
        report: ConvergenceReport { role_change: change, user_change: state.report.user_change },
        verify: state.verify,
        error: state.error,
    };
    if unchanged {
        request_user(noted)
    } else {
        (
            ApplyState {
                step: ApplyStep::RoleWriting,
                username: noted.username,
                password: noted.password,
                report: noted.report,
                verify: noted.verify,
                error: noted.error,
            },
            Some(Request::PutRole { name, role: target }),
        )
    }
}

fn settle_user(state: ApplyState, observed: Option<User>) -> (r: (ApplyState, Option<Request>))
    ensures
        (r.0@, r.1.deep_view()) == after_user(state@, observed.deep_view()),
{
    let target = target_user(state.username.as_str(), state.password.as_str());
    let change = converge_user(&observed, &target);
    let unchanged = change.is_noop();
    let name = state.username.clone();
    let noted = ApplyState {
        step: state.step,
        username: state.username,
        password: state.password,
        report: ConvergenceReport { role_change: state.report.role_change, user_change: change },
        verify: state.verify,
        error: state.error,
    };
    if unchanged {
        request_identity(noted)
    } else {
        (
            ApplyState {
                step: ApplyStep::UserWriting,
                username: noted.username,
                password: noted.password,
                report: noted.report,
                verify: noted.verify,
                error: noted.error,
            },
            Some(Request::PutUser { name, user: target }),
        )
    }
}

fn heal(state: ApplyState) -> (r: (ApplyState, Option<Request>))
    ensures
        (r.0@, r.1.deep_view()) == heal_credentials(state@),
{
    let target = target_user(state.username.as_str(), state.password.as_str());
    let name = state.username.clone();
    (
        ApplyState {
            step: ApplyStep::Healing,
            username: state.username,
            password: state.password,
            report: state.report,
            verify: Some(VerifyOutcome::PasswordStale),
            error: state.error,
        },
        Some(Request::PutUser { name, user: target }),
    )
}

fn finish_apply(state: ApplyState, verify: Option<VerifyOutcome>) -> (r: (
    ApplyState,
    Option<Request>,
))
    ensures
        r.0@ == (ApplyStateView { step: ApplyStep::Done, verify, ..state@ }),
        r.1 is None,
{
    (
        ApplyState {
            step: ApplyStep::Done,
            username: state.username,
            password: state.password,
            report: state.report,
            verify,
            error: state.error,
        },
        None,
    )
}

/// The beginning of an apply: the state to keep and the first request.
pub fn begin_apply(resource: &ElasticsearchUser) -> (r: (ApplyState, Request))
    ensures
        (r.0@, r.1@) == apply_start(resource@),
{
    (
        ApplyState {
            step: ApplyStep::SecretRequested,
            username: String::new(),
            password: String::new(),
            report: ConvergenceReport { role_change: Change::NoOp, user_change: Change::NoOp },
            verify: None,
            error: None,
        },
        Request::GetSecret { name: resource.spec.secret_ref.clone() },
    )
}

/// One step of an apply, with `fresh` as the password to use if the secret
/// has none: takes the answer to the last request and gives the state to
/// keep and the next request, or no request when the apply is over.
pub fn apply_step_with(
    resource: &ElasticsearchUser,
    url: &str,
    state: ApplyState,
    response: Response,
    fresh: &str,
) -> (r: (ApplyState, Option<Request>))
    ensures
        (r.0@, r.1.deep_view()) == apply_next(resource@, url@, state@, response@, fresh@),
{
    match state.step {
        ApplyStep::Done => { return (state, None); },
        ApplyStep::Failed => { return (state, None); },
        _ => {},
    }
    match response {
        Response::Failed(error) => {
            match state.step {
                ApplyStep::Verifying => if error.is_wrong_credentials() {
                    heal(state)
                } else {
                    fail_apply(state, error)
                },
                _ => fail_apply(state, error),
            }
        },
        Response::Secret(observed) => match state.step {
            ApplyStep::SecretRequested => settle_secret(resource, url, state, observed, fresh),
            _ => fail_apply(state, unexpected_answer_error()),
        },
        Response::Role(observed) => match state.step {
            ApplyStep::RoleRequested => settle_role(resource, state, observed),
            _ => fail_apply(state, unexpected_answer_error()),
        },
        Response::User(observed) => match state.step {
            ApplyStep::UserRequested => settle_user(state, observed),
            _ => fail_apply(state, unexpected_answer_error()),
        },
        Response::Written => match state.step {
            ApplyStep::SecretWriting => request_role(state),
            ApplyStep::RoleWriting => request_user(state),
            ApplyStep::UserWriting => request_identity(state),
            ApplyStep::Healing => {
                let verify = state.verify;
                finish_apply(state, verify)
            },
            _ => fail_apply(state, unexpected_answer_error()),
        },
        Response::Authenticated => match state.step {
            ApplyStep::Verifying => finish_apply(state, Some(VerifyOutcome::Accepted)),
            _ => fail_apply(state, unexpected_answer_error()),
        },
        Response::Deleted(_) => fail_apply(state, unexpected_answer_error()),
    }
}

/// One step of an apply: takes the answer to the last request and gives the
/// state to keep and the next request, or no request when the apply is
/// over. Where the secret has just been read and lacks a password, one is
/// drawn at random; no other step depends on chance.
pub fn apply_step(resource: &ElasticsearchUser, url: &str, state: ApplyState, response: Response) -> (r:
    (ApplyState, Option<Request>))
    ensures
        draws_password(state@, response@) ==> exists|fresh: Seq<char>|
            #[trigger] is_generated_password(fresh) && (r.0@, r.1.deep_view()) == apply_next(
                resource@,
                url@,
                state@,
                response@,
                fresh,
            ),
        !draws_password(state@, response@) ==> forall|fresh: Seq<char>|
            (r.0@, r.1.deep_view()) == #[trigger] apply_next(
                resource@,
                url@,
                state@,
                response@,
                fresh,
            ),
{
    let draws = match (&state.step, &response) {
        (ApplyStep::SecretRequested, Response::Secret(observed)) => needs_password(observed),
        _ => false,
    };
    if draws {
        let fresh = generate_password();
        apply_step_with(resource, url, state, response, fresh.as_str())
    } else {
        apply_step_with(resource, url, state, response, "")
    }
}


/// Whether the keep annotation asks to leave user and role in the external
/// store. Without the annotation they go. With it they stay unless its value
/// plainly says no: a value that cannot be read keeps them, to be safe.
pub open spec fn wants_kept(keep: Option<Seq<char>>) -> bool {
    match keep {
        None => false,
        Some(value) => match text_truth(value) {
            Some(answer) => answer,
            None => true,
        },
    }
}

/// Whether a value of the keep annotation, already read as a truth value
/// where it is one, asks to leave user and role in the external store.
pub fn keeps_on(answer: Option<Option<bool>>) -> (r: bool)
    ensures
        r == match answer {
            None => false,
            Some(Some(said)) => said,
            Some(None) => true,
        },
{
    match answer {
        None => false,
        Some(Some(said)) => said,
        Some(None) => true,
    }
}

/// Whether `resource` asks to leave its user and role in the external store.
pub fn keeps(resource: &ElasticsearchUser) -> (r: bool)
    ensures
        r == wants_kept(resource@.keep),
{
    match &resource.keep {
        None => keeps_on(None),
        Some(value) => keeps_on(Some(as_bool(value.as_str()))),
    }
}

/// Where a cleanup stands.
#[derive(Clone, Copy, Debug, PartialEq, Eq, Structural)]
pub enum CleanupStep {
    /// The user is being deleted.
    UserDeleting,
    /// The role is being deleted.
    RoleDeleting,
    /// User and role are gone.
    Done,
    /// User and role were left where they are, as the resource asked.
    Skipped,
    /// A request failed; nothing more is asked.
    Failed,
}

/// All that a cleanup knows between two requests.
#[derive(Debug)]
pub struct CleanupState {
    pub step: CleanupStep,
    /// Whether there was a user to delete.
    pub user_deleted: bool,
    /// Whether there was a role to delete.
    pub role_deleted: bool,
    /// Why the cleanup failed, if it did.
    pub error: Option<OperatorError>,
}

/// What contracts say of a [`CleanupState`].
pub struct CleanupStateView {
    pub step: CleanupStep,
    pub user_deleted: bool,
    pub role_deleted: bool,
    pub error: Option<OperatorErrorView>,
}

impl View for CleanupState {
    type V = CleanupStateView;

    open spec fn view(&self) -> CleanupStateView {
        CleanupStateView {
            step: self.step,
            user_deleted: self.user_deleted,
            role_deleted: self.role_deleted,
            error: self.error.deep_view(),
        }
    }
}

/// The beginning of a cleanup: the user is deleted first, unless the
/// resource asks to keep user and role, in which case nothing is asked.
pub open spec fn cleanup_start(resource: ElasticsearchUserView) -> (
    CleanupStateView,
    Option<RequestView>,
) {
    if wants_kept(resource.keep) {
        (
            CleanupStateView {
                step: CleanupStep::Skipped,
                user_deleted: false,
                role_deleted: false,
                error: None,
            },
            None,
        )
    } else {
        (
            CleanupStateView {
                step: CleanupStep::UserDeleting,
                user_deleted: false,
                role_deleted: false,
                error: None,
            },
            Some(RequestView::DeleteUser { name: resource.spec.username }),
        )
    }
}

/// What a cleanup does with an answer. Once the user is deleted, or was not
/// there, the role is deleted; once that is deleted, or was not there, the
/// cleanup is done. A failure ends it. A cleanup that is over stays as it is.
pub open spec fn cleanup_next(
    resource: ElasticsearchUserView,
    state: CleanupStateView,
    response: ResponseView,
) -> (CleanupStateView, Option<RequestView>) {
    match (state.step, response) {
        (CleanupStep::Done, _) => (state, None),
        (CleanupStep::Skipped, _) => (state, None),
        (CleanupStep::Failed, _) => (state, None),
        (_, ResponseView::Failed(error)) => (
            CleanupStateView { step: CleanupStep::Failed, error: Some(error), ..state },
            None,
        ),
        (CleanupStep::UserDeleting, ResponseView::Deleted(was_there)) => (
            CleanupStateView { step: CleanupStep::RoleDeleting, user_deleted: was_there, ..state },
            Some(RequestView::DeleteRole { name: role_name_of(resource.spec.username) }),
        ),
        (CleanupStep::RoleDeleting, ResponseView::Deleted(was_there)) => (
            CleanupStateView { step: CleanupStep::Done, role_deleted: was_there, ..state },
            None,
        ),
        _ => (
            CleanupStateView {
                step: CleanupStep::Failed,
                error: Some(unexpected_answer()),
                ..state
            },
            None,
        ),
    }
}

impl CleanupState {
    /// Whether the cleanup is over, well or badly.
    pub fn is_over(&self) -> (r: bool)
        ensures
            r == (self@.step == CleanupStep::Done || self@.step == CleanupStep::Skipped
                || self@.step == CleanupStep::Failed),
    {
        match self.step {
            CleanupStep::Done => true,
            CleanupStep::Skipped => true,
            CleanupStep::Failed => true,
            _ => false,
        }
    }

    /// Whether the cleanup is over and the resource may go: user and role
    /// are gone, or were to be kept.
    pub fn succeeded(&self) -> (r: bool)
        ensures
            r == (self@.step == CleanupStep::Done || self@.step == CleanupStep::Skipped),
    {
        match self.step {
            CleanupStep::Done => true,
            CleanupStep::Skipped => true,
            _ => false,
        }
    }
}

fn fail_cleanup(state: CleanupState, error: OperatorError) -> (r: (CleanupState, Option<Request>))
    ensures
        r.0@ == (CleanupStateView { step: CleanupStep::Failed, error: Some(error@), ..state@ }),
        r.1 is None,
{
    (
        CleanupState {
            step: CleanupStep::Failed,
            user_deleted: state.user_deleted,
            role_deleted: state.role_deleted,
            error: Some(error),
        },
        None,
    )
}

/// The beginning of a cleanup: the state to keep and the first request, or
/// no request where the resource asks to keep its user and role.
pub fn begin_cleanup(resource: &ElasticsearchUser) -> (r: (CleanupState, Option<Request>))
    ensures
        (r.0@, r.1.deep_view()) == cleanup_start(resource@),
{
    if keeps(resource) {
        (
            CleanupState {
                step: CleanupStep::Skipped,
                user_deleted: false,
                role_deleted: false,
                error: None,
            },
            None,
        )
    } else {
        (
            CleanupState {
                step: CleanupStep::UserDeleting,
                user_deleted: false,
                role_deleted: false,
                error: None,
            },
            Some(Request::DeleteUser { name: resource.spec.username.clone() }),
        )
    }
}

/// One step of a cleanup: takes the answer to the last request and gives
/// the state to keep and the next request, or no request when the cleanup
/// is over.
pub fn cleanup_step(resource: &ElasticsearchUser, state: CleanupState, response: Response) -> (r: (
    CleanupState,
    Option<Request>,
))
    ensures
        (r.0@, r.1.deep_view()) == cleanup_next(resource@, state@, response@),
{
    match state.step {
        CleanupStep::Done => { return (state, None); },
        CleanupStep::Skipped => { return (state, None); },
        CleanupStep::Failed => { return (state, None); },
        _ => {},
    }
    match response {
        Response::Failed(error) => fail_cleanup(state, error),
        Response::Deleted(was_there) => match state.step {
            CleanupStep::UserDeleting => (
                CleanupState {
                    step: CleanupStep::RoleDeleting,
                    user_deleted: was_there,
                    role_deleted: state.role_deleted,
                    error: state.error,
                },
                Some(Request::DeleteRole { name: role_name(resource.spec.username.as_str()) }),
            ),
            _ => (
                CleanupState {
                    step: CleanupStep::Done,
                    user_deleted: state.user_deleted,
                    role_deleted: was_there,
                    error: state.error,
                },
                None,
            ),
        },
        _ => fail_cleanup(state, unexpected_answer_error()),
    }
}

} // verus!
