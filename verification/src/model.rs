//! A model of the two collaborators, for stating what a whole course of
//! requests achieves: a control plane and an external store that do what
//! they are asked, never fail, and are touched by nobody else.
//!
//! Nothing here runs. The laws at the end are proved of the very functions
//! that [`crate::reconciliation`] states its steps with.

use vstd::prelude::*;

use crate::elasticsearch::error::ElasticErrorView;
use crate::elasticsearch::role::RoleView;
use crate::elasticsearch::user::{same_attributes, UserView};
use crate::error::OperatorErrorView;
use crate::protocol::{owner_of, RequestView, ResponseView};
use crate::reconciliation::{
    apply_next,
    apply_start,
    cleanup_next,
    cleanup_start,
    role_change_for,
    role_name_of,
    target_role_of,
    target_user_of,
    unreadable_secret,
    user_change_for,
    wants_kept,
    ApplyStateView,
    ApplyStep,
    ChangeView,
    CleanupStateView,
    CleanupStep,
    ConvergenceReportView,
    VerifyOutcome,
};
use crate::resource::ElasticsearchUserView;
use crate::secret::{
    credentials_are_read_back,
    planned_secret,
    planned_secret_is_settled,
    planned_write,
    secret_keys_differ,
    text_under,
    SecretWrite,
};
use crate::SECRET_PASS;

verus! {

/// All that the collaborators hold: secrets, roles and users, each by name.
pub struct Store {
    pub secrets: Map<Seq<char>, Map<Seq<char>, Seq<u8>>>,
    pub roles: Map<Seq<char>, RoleView>,
    pub users: Map<Seq<char>, UserView>,
}

/// What is under `name`, if anything is.
pub open spec fn found<V>(items: Map<Seq<char>, V>, name: Seq<char>) -> Option<V> {
    if items.contains_key(name) {
        Some(items[name])
    } else {
        None
    }
}

/// A user as the store shows it: without password and metadata.
pub open spec fn shown(user: UserView) -> UserView {
    UserView { password: None, metadata: None, ..user }
}

/// What the collaborators make of a request: what they hold afterwards, and
/// what they answer.
pub open spec fn answer(store: Store, request: RequestView) -> (Store, ResponseView) {
    match request {
        RequestView::GetSecret { name } => (store, ResponseView::Secret(found(store.secrets, name))),
        RequestView::CreateSecret { name, owner, data } => (
            Store { secrets: store.secrets.insert(name, data), ..store },
            ResponseView::Written,
        ),
        RequestView::PatchSecret { name, owner, data } => (
            Store { secrets: store.secrets.insert(name, data), ..store },
            ResponseView::Written,
        ),
        RequestView::GetRole { name } => (store, ResponseView::Role(found(store.roles, name))),
        RequestView::PutRole { name, role } => (
            Store { roles: store.roles.insert(name, role), ..store },
            ResponseView::Written,
        ),
        RequestView::GetUser { name } => (
            store,
            ResponseView::User(
                match found(store.users, name) {
                    Some(user) => Some(shown(user)),
                    None => None,
                },
            ),
        ),
        RequestView::PutUser { name, user } => (
            Store { users: store.users.insert(name, user), ..store },
            ResponseView::Written,
        ),
        RequestView::Authenticate { username, password } => (
            store,
            if store.users.contains_key(username) && store.users[username].password == Some(
                password,
            ) {
                ResponseView::Authenticated
            } else {
                ResponseView::Failed(
                    OperatorErrorView::ElasticError(ElasticErrorView::WrongCredentials),
                )
            },
        ),
        RequestView::DeleteUser { name } => (
            Store { users: store.users.remove(name), ..store },
            ResponseView::Deleted(store.users.contains_key(name)),
        ),
        RequestView::DeleteRole { name } => (
            Store { roles: store.roles.remove(name), ..store },
            ResponseView::Deleted(store.roles.contains_key(name)),
        ),
    }
}

/// An apply under way: what the collaborators hold, what the apply knows,
/// the request that is out, and all requests made so far.
pub struct ApplyCourse {
    pub store: Store,
    pub state: ApplyStateView,
    pub pending: Option<RequestView>,
    pub asked: Seq<RequestView>,
}

/// One turn: the collaborators answer the request that is out, and the apply
/// takes its step. Where no request is out, nothing happens.
pub open spec fn apply_turn(
    resource: ElasticsearchUserView,
    url: Seq<char>,
    fresh: Seq<char>,
    course: ApplyCourse,
) -> ApplyCourse {
    match course.pending {
        None => course,
        Some(request) => {
            let (store, response) = answer(course.store, request);
            let (state, pending) = apply_next(resource, url, course.state, response, fresh);
            ApplyCourse { store, state, pending, asked: course.asked.push(request) }
        },
    }
}

/// Turn after turn, until no request is out or `turns` turns are over.
pub open spec fn apply_turns(
    resource: ElasticsearchUserView,
    url: Seq<char>,
    fresh: Seq<char>,
    course: ApplyCourse,
    turns: nat,
) -> ApplyCourse
    decreases turns,
{
    if turns == 0 || course.pending is None {
        course
    } else {
        apply_turns(resource, url, fresh, apply_turn(resource, url, fresh, course), (turns - 1) as nat)
    }
}

/// A whole apply on `store`, with `fresh` as the password to use if the
/// secret has none: from the first request on, turn after turn. Eight turns
/// are allowed, which is as many requests as an apply makes at most.
pub open spec fn apply_course(
    resource: ElasticsearchUserView,
    url: Seq<char>,
    store: Store,
    fresh: Seq<char>,
) -> ApplyCourse {
    let (state, request) = apply_start(resource);
    apply_turns(
        resource,
        url,
        fresh,
        ApplyCourse { store, state, pending: Some(request), asked: Seq::empty() },
        8,
    )
}

/// The password that the secret of `resource` holds, or will hold once
/// `fresh` has filled it in, if that is text.
pub open spec fn password_in(
    resource: ElasticsearchUserView,
    url: Seq<char>,
    store: Store,
    fresh: Seq<char>,
) -> Option<Seq<char>> {
    text_under(
        planned_secret(found(store.secrets, resource.spec.secret_ref), resource.spec.username, url, fresh),
        SECRET_PASS@,
    )
}

/// Whether the collaborators hold all that `resource` declares: the secret
/// with user name, URL and a password; the role; and the user, with the
/// role and with the password of the secret.
pub open spec fn converged(resource: ElasticsearchUserView, url: Seq<char>, store: Store) -> bool {
    let username = resource.spec.username;
    let secret = found(store.secrets, resource.spec.secret_ref);
    &&& planned_write(secret, username, url) == SecretWrite::Keep
    &&& text_under(secret->0, SECRET_PASS@) matches Some(password) && {
        &&& found(store.roles, role_name_of(username)) == Some(target_role_of(resource.spec))
        &&& found(store.users, username) matches Some(user) && {
            &&& same_attributes(target_user_of(username, password), user)
            &&& user.password == Some(password)
        }
    }
}



/// The user under `name` as the store shows it, if there is one.
pub open spec fn shown_user(store: Store, name: Seq<char>) -> Option<UserView> {
    match found(store.users, name) {
        Some(user) => Some(shown(user)),
        None => None,
    }
}

/// Where a course stands once the secret is settled: the secret holds what
/// it should, the credentials are known, and the role is asked for. Where
/// the credentials are no text, the course has failed instead.
pub open spec fn secret_phase(
    resource: ElasticsearchUserView,
    url: Seq<char>,
    fresh: Seq<char>,
    course: ApplyCourse,
) -> ApplyCourse {
    let username = resource.spec.username;
    let name = resource.spec.secret_ref;
    let observed = found(course.store.secrets, name);
    let data = planned_secret(observed, username, url, fresh);
    let asked = course.asked.push(RequestView::GetSecret { name });
    match text_under(data, SECRET_PASS@) {
        None => ApplyCourse {
            store: course.store,
            state: ApplyStateView {
                step: ApplyStep::Failed,
                error: Some(unreadable_secret()),
                ..course.state
            },
            pending: None,
            asked,
        },
        Some(password) => {
            let owner = owner_of(resource);
            let state = ApplyStateView {
                step: ApplyStep::RoleRequested,
                username,
                password,
                ..course.state
            };
            let pending = Some(RequestView::GetRole { name: role_name_of(username) });
            let written = Store { secrets: course.store.secrets.insert(name, data), ..course.store };
            match planned_write(observed, username, url) {
                SecretWrite::Keep => ApplyCourse { store: course.store, state, pending, asked },
                SecretWrite::Create => ApplyCourse {
                    store: written,
                    state,
                    pending,
                    asked: asked.push(RequestView::CreateSecret { name, owner, data }),
                },
                SecretWrite::Patch => ApplyCourse {
                    store: written,
                    state,
                    pending,
                    asked: asked.push(RequestView::PatchSecret { name, owner, data }),
                },
            }
        },
    }
}

/// Where a course stands once the role is settled: the store holds the
/// target role, the report says what had to be done, and the user is asked
/// for.
pub open spec fn role_phase(resource: ElasticsearchUserView, course: ApplyCourse) -> ApplyCourse {
    let name = role_name_of(course.state.username);
    let role = target_role_of(resource.spec);
    let change = role_change_for(found(course.store.roles, name), role);
    let asked = course.asked.push(RequestView::GetRole { name });
    ApplyCourse {
        store: if change is NoOp {
            course.store
        } else {
            Store { roles: course.store.roles.insert(name, role), ..course.store }
        },
        state: ApplyStateView {
            step: ApplyStep::UserRequested,
            report: ConvergenceReportView {
                role_change: change,
                ..course.state.report
            },
            ..course.state
        },
        pending: Some(RequestView::GetUser { name: course.state.username }),
        asked: if change is NoOp {
            asked
        } else {
            asked.push(RequestView::PutRole { name, role })
        },
    }
}

/// Where a course stands once the user is settled: the store holds a user
/// with the target's attributes, the report says what had to be done, and
/// the credentials are tried.
pub open spec fn user_phase(course: ApplyCourse) -> ApplyCourse {
    let name = course.state.username;
    let user = target_user_of(name, course.state.password);
    let change = user_change_for(shown_user(course.store, name), user);
    let asked = course.asked.push(RequestView::GetUser { name });
    ApplyCourse {
        store: if change is NoOp {
            course.store
        } else {
            Store { users: course.store.users.insert(name, user), ..course.store }
        },
        state: ApplyStateView {
            step: ApplyStep::Verifying,
            report: ConvergenceReportView {
                user_change: change,
                ..course.state.report
            },
            ..course.state
        },
        pending: Some(
            RequestView::Authenticate { username: name, password: course.state.password },
        ),
        asked: if change is NoOp {
            asked
        } else {
            asked.push(RequestView::PutUser { name, user })
        },
    }
}

/// Whether the store has another password for the user than the course
/// knows from the secret, or no such user at all.
pub open spec fn password_is_stale(course: ApplyCourse) -> bool {
    !(course.store.users.contains_key(course.state.username)
        && course.store.users[course.state.username].password == Some(course.state.password))
}

/// Where a course stands once the credentials have been tried: done. Where
/// the store declined them, the user has been put once more, and once only.
pub open spec fn verify_phase(course: ApplyCourse) -> ApplyCourse {
    let name = course.state.username;
    let password = course.state.password;
    let asked = course.asked.push(RequestView::Authenticate { username: name, password });
    if password_is_stale(course) {
        let user = target_user_of(name, password);
        ApplyCourse {
            store: Store { users: course.store.users.insert(name, user), ..course.store },
            state: ApplyStateView {
                step: ApplyStep::Done,
                verify: Some(VerifyOutcome::PasswordStale),
                ..course.state
            },
            pending: None,
            asked: asked.push(RequestView::PutUser { name, user }),
        }
    } else {
        ApplyCourse {
            store: course.store,
            state: ApplyStateView {
                step: ApplyStep::Done,
                verify: Some(VerifyOutcome::Accepted),
                ..course.state
            },
            pending: None,
            asked,
        }
    }
}

/// What a whole apply comes to: the secret is settled, then the role, then
/// the user, then the credentials are tried; or the apply fails at the
/// secret and touches nothing.
pub open spec fn apply_outcome(
    resource: ElasticsearchUserView,
    url: Seq<char>,
    store: Store,
    fresh: Seq<char>,
) -> ApplyCourse {
    let (state, request) = apply_start(resource);
    let begun = ApplyCourse { store, state, pending: Some(request), asked: Seq::empty() };
    let secret_settled = secret_phase(resource, url, fresh, begun);
    if secret_settled.state.step == ApplyStep::Failed {
        secret_settled
    } else {
        verify_phase(user_phase(role_phase(resource, secret_settled)))
    }
}

/// The number of requests that a phase has made.
spec fn made(before: ApplyCourse, after: ApplyCourse) -> nat {
    (after.asked.len() - before.asked.len()) as nat
}

/// How `apply_turns` unfolds.
proof fn turns_unfold(
    resource: ElasticsearchUserView,
    url: Seq<char>,
    fresh: Seq<char>,
    course: ApplyCourse,
    turns: nat,
)
    ensures
        course.pending is None ==> apply_turns(resource, url, fresh, course, turns) == course,
        course.pending is Some && turns > 0 ==> apply_turns(resource, url, fresh, course, turns)
            == apply_turns(
            resource,
            url,
            fresh,
            apply_turn(resource, url, fresh, course),
            (turns - 1) as nat,
        ),
{
}

proof fn secret_phase_runs(
    resource: ElasticsearchUserView,
    url: Seq<char>,
    fresh: Seq<char>,
    course: ApplyCourse,
    turns: nat,
)
    requires
        turns >= 2,
        course.state.step == ApplyStep::SecretRequested,
        course.pending == Some(RequestView::GetSecret { name: resource.spec.secret_ref }),
    ensures
        ({
            let after = secret_phase(resource, url, fresh, course);
            &&& 1 <= made(course, after) <= 2
            &&& apply_turns(resource, url, fresh, course, turns) == apply_turns(
                resource,
                url,
                fresh,
                after,
                (turns - made(course, after)) as nat,
            )
        }),
{
    let username = resource.spec.username;
    let observed = found(course.store.secrets, resource.spec.secret_ref);
    credentials_are_read_back(observed, username, url, fresh);
    let after = secret_phase(resource, url, fresh, course);
    let first = apply_turn(resource, url, fresh, course);
    turns_unfold(resource, url, fresh, course, turns);
    let data = planned_secret(observed, username, url, fresh);
    if text_under(data, SECRET_PASS@) is None {
        assert(first == after);
    } else if planned_write(observed, username, url) == SecretWrite::Keep {
        assert(first == after);
    } else {
        let second = apply_turn(resource, url, fresh, first);
        turns_unfold(resource, url, fresh, first, (turns - 1) as nat);
        assert(second == after);
    }
}

proof fn role_phase_runs(
    resource: ElasticsearchUserView,
    url: Seq<char>,
    fresh: Seq<char>,
    course: ApplyCourse,
    turns: nat,
)
    requires
        turns >= 2,
        course.state.step == ApplyStep::RoleRequested,
        course.pending == Some(RequestView::GetRole { name: role_name_of(course.state.username) }),
    ensures
        ({
            let after = role_phase(resource, course);
            &&& 1 <= made(course, after) <= 2
            &&& apply_turns(resource, url, fresh, course, turns) == apply_turns(
                resource,
                url,
                fresh,
                after,
                (turns - made(course, after)) as nat,
            )
        }),
{
    let after = role_phase(resource, course);
    let first = apply_turn(resource, url, fresh, course);
    turns_unfold(resource, url, fresh, course, turns);
    let name = role_name_of(course.state.username);
    let change = role_change_for(
        found(course.store.roles, name),
        target_role_of(resource.spec),
    );
    if change is NoOp {
        assert(first == after);
    } else {
        let second = apply_turn(resource, url, fresh, first);
        turns_unfold(resource, url, fresh, first, (turns - 1) as nat);
        assert(second == after);
    }
}

proof fn user_phase_runs(
    resource: ElasticsearchUserView,
    url: Seq<char>,
    fresh: Seq<char>,
    course: ApplyCourse,
    turns: nat,
)
    requires
        turns >= 2,
        course.state.step == ApplyStep::UserRequested,
        course.pending == Some(RequestView::GetUser { name: course.state.username }),
    ensures
        ({
            let after = user_phase(course);
            &&& 1 <= made(course, after) <= 2
            &&& apply_turns(resource, url, fresh, course, turns) == apply_turns(
                resource,
                url,
                fresh,
                after,
                (turns - made(course, after)) as nat,
            )
        }),
{
    let after = user_phase(course);
    let first = apply_turn(resource, url, fresh, course);
    turns_unfold(resource, url, fresh, course, turns);
    let name = course.state.username;
    let change = user_change_for(
        shown_user(course.store, name),
        target_user_of(name, course.state.password),
    );
    if change is NoOp {
        assert(first == after);
    } else {
        let second = apply_turn(resource, url, fresh, first);
        turns_unfold(resource, url, fresh, first, (turns - 1) as nat);
        assert(second == after);
    }
}

proof fn verify_phase_runs(
    resource: ElasticsearchUserView,
    url: Seq<char>,
    fresh: Seq<char>,
    course: ApplyCourse,
    turns: nat,
)
    requires
        turns >= 2,
        course.state.step == ApplyStep::Verifying,
        course.pending == Some(
            RequestView::Authenticate {
                username: course.state.username,
                password: course.state.password,
            },
        ),
    ensures
        apply_turns(resource, url, fresh, course, turns) == verify_phase(course),
{
    let after = verify_phase(course);
    let first = apply_turn(resource, url, fresh, course);
    turns_unfold(resource, url, fresh, course, turns);
    if password_is_stale(course) {
        let second = apply_turn(resource, url, fresh, first);
        turns_unfold(resource, url, fresh, first, (turns - 1) as nat);
        assert(second == after);
        turns_unfold(resource, url, fresh, second, (turns - 2) as nat);
    } else {
        assert(first == after);
        turns_unfold(resource, url, fresh, first, (turns - 1) as nat);
    }
}

/// A whole apply, turn by turn, comes to exactly what [`apply_outcome`]
/// says: eight turns are enough, and when they are over no request is out.
pub proof fn apply_course_is_outcome(
    resource: ElasticsearchUserView,
    url: Seq<char>,
    store: Store,
    fresh: Seq<char>,
)
    ensures
        apply_course(resource, url, store, fresh) == apply_outcome(resource, url, store, fresh),
        apply_course(resource, url, store, fresh).pending is None,
{
    let (state, request) = apply_start(resource);
    let begun = ApplyCourse { store, state, pending: Some(request), asked: Seq::empty() };
    secret_phase_runs(resource, url, fresh, begun, 8);
    let secret_settled = secret_phase(resource, url, fresh, begun);
    let left = (8 - made(begun, secret_settled)) as nat;
    if secret_settled.state.step == ApplyStep::Failed {
        turns_unfold(resource, url, fresh, secret_settled, left);
    } else {
        role_phase_runs(resource, url, fresh, secret_settled, left);
        let role_settled = role_phase(resource, secret_settled);
        let left = (left - made(secret_settled, role_settled)) as nat;
        user_phase_runs(resource, url, fresh, role_settled, left);
        let user_settled = user_phase(role_settled);
        let left = (left - made(role_settled, user_settled)) as nat;
        verify_phase_runs(resource, url, fresh, user_settled, left);
    }
}


/// An apply that goes well leaves the collaborators with all that the
/// resource declares.
pub proof fn apply_converges(
    resource: ElasticsearchUserView,
    url: Seq<char>,
    store: Store,
    fresh: Seq<char>,
)
    ensures
        ({
            let end = apply_course(resource, url, store, fresh);
            &&& end.state.step == ApplyStep::Done || end.state.step == ApplyStep::Failed
            &&& end.state.step == ApplyStep::Done <==> password_in(resource, url, store, fresh) is Some
            &&& end.state.step == ApplyStep::Done ==> converged(resource, url, end.store)
            &&& end.state.step == ApplyStep::Failed ==> end.store == store
        }),
{
    apply_course_is_outcome(resource, url, store, fresh);
    let observed = found(store.secrets, resource.spec.secret_ref);
    planned_secret_is_settled(observed, resource.spec.username, url, fresh, fresh);
    secret_keys_differ();
}

/// Idempotence. An apply on collaborators that hold all that the resource
/// declares asks four questions, writes nothing and reports that neither
/// role nor user had to change.
pub proof fn apply_on_converged_is_noop(
    resource: ElasticsearchUserView,
    url: Seq<char>,
    store: Store,
    fresh: Seq<char>,
)
    requires
        converged(resource, url, store),
    ensures
        ({
            let end = apply_course(resource, url, store, fresh);
            let username = resource.spec.username;
            &&& end.state.step == ApplyStep::Done
            &&& end.state.report.role_change is NoOp
            &&& end.state.report.user_change is NoOp
            &&& end.state.verify == Some(VerifyOutcome::Accepted)
            &&& end.store == store
            &&& end.asked == seq![
                RequestView::GetSecret { name: resource.spec.secret_ref },
                RequestView::GetRole { name: role_name_of(username) },
                RequestView::GetUser { name: username },
                RequestView::Authenticate { username, password: end.state.password },
            ]
        }),
{
    apply_course_is_outcome(resource, url, store, fresh);
    let end = apply_outcome(resource, url, store, fresh);
    let username = resource.spec.username;
    assert(end.asked =~= seq![
        RequestView::GetSecret { name: resource.spec.secret_ref },
        RequestView::GetRole { name: role_name_of(username) },
        RequestView::GetUser { name: username },
        RequestView::Authenticate { username, password: end.state.password },
    ]);
}

/// Idempotence. An apply right after an apply that went well, with nobody
/// else touching the collaborators in between, changes nothing and reports
/// that neither role nor user had to change, whatever passwords were on
/// offer.
pub proof fn second_apply_is_noop(
    resource: ElasticsearchUserView,
    url: Seq<char>,
    store: Store,
    fresh: Seq<char>,
    later: Seq<char>,
)
    ensures
        ({
            let first = apply_course(resource, url, store, fresh);
            let second = apply_course(resource, url, first.store, later);
            first.state.step == ApplyStep::Done ==> {
                &&& second.state.step == ApplyStep::Done
                &&& second.state.report.role_change is NoOp
                &&& second.state.report.user_change is NoOp
                &&& second.state.verify == Some(VerifyOutcome::Accepted)
                &&& second.store == first.store
            }
        }),
{
    apply_converges(resource, url, store, fresh);
    let first = apply_course(resource, url, store, fresh);
    if first.state.step == ApplyStep::Done {
        apply_on_converged_is_noop(resource, url, first.store, later);
    }
}

/// Secret stability. A password that the secret holds before an apply is
/// the password that it holds afterwards.
pub proof fn apply_keeps_password(
    resource: ElasticsearchUserView,
    url: Seq<char>,
    store: Store,
    fresh: Seq<char>,
)
    requires
        found(store.secrets, resource.spec.secret_ref) matches Some(secret) && secret.contains_key(
            SECRET_PASS@,
        ),
    ensures
        ({
            let end = apply_course(resource, url, store, fresh);
            let name = resource.spec.secret_ref;
            end.store.secrets.contains_key(name) && end.store.secrets[name].contains_key(
                SECRET_PASS@,
            ) && end.store.secrets[name][SECRET_PASS@] == store.secrets[name][SECRET_PASS@]
        }),
{
    apply_course_is_outcome(resource, url, store, fresh);
    secret_keys_differ();
}

/// Drift correction. Where the store has a role under the user's role name
/// that differs from the target, an apply that goes well reports the role as
/// updated and leaves the target in the store.
pub proof fn drifted_role_is_corrected(
    resource: ElasticsearchUserView,
    url: Seq<char>,
    store: Store,
    fresh: Seq<char>,
)
    requires
        found(store.roles, role_name_of(resource.spec.username)) matches Some(role) && role
            != target_role_of(resource.spec),
    ensures
        ({
            let end = apply_course(resource, url, store, fresh);
            end.state.step == ApplyStep::Done ==> {
                &&& end.state.report.role_change == ChangeView::Updated("attributes"@)
                &&& found(end.store.roles, role_name_of(resource.spec.username)) == Some(
                    target_role_of(resource.spec),
                )
            }
        }),
{
    apply_course_is_outcome(resource, url, store, fresh);
    let observed = found(store.secrets, resource.spec.secret_ref);
    credentials_are_read_back(observed, resource.spec.username, url, fresh);
}

/// How many of `asked` put a user.
pub open spec fn user_puts(asked: Seq<RequestView>) -> nat
    decreases asked.len(),
{
    if asked.len() == 0 {
        0
    } else {
        user_puts(asked.drop_last()) + if asked.last() is PutUser {
            1nat
        } else {
            0nat
        }
    }
}

/// Credential self-healing, step by step. When the store declines the
/// credentials, the apply notes the password as stale and puts the target
/// user; when that is written, the apply is done and asks nothing more. So
/// the user is put once.
pub proof fn declined_credentials_are_healed_once(
    resource: ElasticsearchUserView,
    url: Seq<char>,
    state: ApplyStateView,
    fresh: Seq<char>,
)
    requires
        state.step == ApplyStep::Verifying,
    ensures
        ({
            let declined = ResponseView::Failed(
                OperatorErrorView::ElasticError(ElasticErrorView::WrongCredentials),
            );
            let (healing, request) = apply_next(resource, url, state, declined, fresh);
            &&& healing == ApplyStateView {
                step: ApplyStep::Healing,
                verify: Some(VerifyOutcome::PasswordStale),
                ..state
            }
            &&& request == Some(
                RequestView::PutUser {
                    name: state.username,
                    user: target_user_of(state.username, state.password),
                },
            )
            &&& apply_next(resource, url, healing, ResponseView::Written, fresh) == (
                ApplyStateView { step: ApplyStep::Done, ..healing },
                None::<RequestView>,
            )
        }),
{
}

/// Credential self-healing, where the credentials are tried. Whenever the
/// store has another password for the user than the secret, trying the
/// credentials finds the password stale, the user is put exactly once, and
/// afterwards the store has the password of the secret.
pub proof fn stale_password_is_put_once(
    resource: ElasticsearchUserView,
    url: Seq<char>,
    fresh: Seq<char>,
    course: ApplyCourse,
    turns: nat,
)
    requires
        turns >= 2,
        course.state.step == ApplyStep::Verifying,
        course.pending == Some(
            RequestView::Authenticate {
                username: course.state.username,
                password: course.state.password,
            },
        ),
        password_is_stale(course),
    ensures
        ({
            let end = apply_turns(resource, url, fresh, course, turns);
            let username = course.state.username;
            let password = course.state.password;
            let target = target_user_of(username, password);
            &&& end.state.step == ApplyStep::Done
            &&& end.state.verify == Some(VerifyOutcome::PasswordStale)
            &&& end.pending is None
            &&& end.asked == course.asked.push(RequestView::Authenticate { username, password }).push(
                RequestView::PutUser { name: username, user: target },
            )
            &&& user_puts(end.asked) == user_puts(course.asked) + 1
            &&& found(end.store.users, username) == Some(target)
            &&& !password_is_stale(end)
        }),
{
    verify_phase_runs(resource, url, fresh, course, turns);
    let username = course.state.username;
    let password = course.state.password;
    let tried = RequestView::Authenticate { username, password };
    puts_after_push(course.asked, tried);
    puts_after_push(
        course.asked.push(tried),
        RequestView::PutUser { name: username, user: target_user_of(username, password) },
    );
}

/// Credential self-healing, as a whole. Where the store has the user with
/// the right attributes but with another password than the secret, an apply
/// finds the password stale, puts the user exactly once, as its last
/// request, and leaves the store with the password of the secret.
pub proof fn stale_password_is_healed(
    resource: ElasticsearchUserView,
    url: Seq<char>,
    store: Store,
    fresh: Seq<char>,
)
    requires
        password_in(resource, url, store, fresh) matches Some(password) && (found(
            store.users,
            resource.spec.username,
        ) matches Some(user) && same_attributes(
            target_user_of(resource.spec.username, password),
            user,
        ) && user.password != Some(password)),
    ensures
        ({
            let end = apply_course(resource, url, store, fresh);
            let username = resource.spec.username;
            let password = password_in(resource, url, store, fresh)->0;
            let target = target_user_of(username, password);
            &&& end.state.step == ApplyStep::Done
            &&& end.state.verify == Some(VerifyOutcome::PasswordStale)
            &&& end.state.report.user_change is NoOp
            &&& user_puts(end.asked) == 1
            &&& end.asked.last() == RequestView::PutUser { name: username, user: target }
            &&& found(end.store.users, username) == Some(target)
            &&& answer(end.store, RequestView::Authenticate { username, password }).1
                == ResponseView::Authenticated
        }),
{
    apply_course_is_outcome(resource, url, store, fresh);
    let observed = found(store.secrets, resource.spec.secret_ref);
    credentials_are_read_back(observed, resource.spec.username, url, fresh);
    let (state, request) = apply_start(resource);
    let begun = ApplyCourse { store, state, pending: Some(request), asked: Seq::empty() };
    let a = secret_phase(resource, url, fresh, begun);
    let b = role_phase(resource, a);
    let c = user_phase(b);
    let d = verify_phase(c);
    assert(user_puts(begun.asked) == 0);
    assert forall|asked: Seq<RequestView>, request: RequestView|
        #[trigger] user_puts(asked.push(request)) == user_puts(asked) + (if request is PutUser {
            1nat
        } else {
            0nat
        }) by {
        puts_after_push(asked, request);
    }
    assert(user_puts(a.asked) == 0);
    assert(user_puts(b.asked) == 0);
    assert(user_puts(c.asked) == 0);
    assert(user_puts(d.asked) == 1);
}

/// One more request is one more put of a user exactly when it puts a user.
proof fn puts_after_push(asked: Seq<RequestView>, request: RequestView)
    ensures
        user_puts(asked.push(request)) == user_puts(asked) + (if request is PutUser {
            1nat
        } else {
            0nat
        }),
{
    assert(asked.push(request).drop_last() =~= asked);
}


/// A cleanup under way: what the collaborators hold, what the cleanup
/// knows, the request that is out, and all requests made so far.
pub struct CleanupCourse {
    pub store: Store,
    pub state: CleanupStateView,
    pub pending: Option<RequestView>,
    pub asked: Seq<RequestView>,
}

/// One turn: the collaborators answer the request that is out, and the
/// cleanup takes its step. Where no request is out, nothing happens.
pub open spec fn cleanup_turn(resource: ElasticsearchUserView, course: CleanupCourse) -> CleanupCourse {
    match course.pending {
        None => course,
        Some(request) => {
            let (store, response) = answer(course.store, request);
            let (state, pending) = cleanup_next(resource, course.state, response);
            CleanupCourse { store, state, pending, asked: course.asked.push(request) }
        },
    }
}

/// A whole cleanup on `store`: from the first request on, two turns, which
/// is as many requests as a cleanup makes at most.
pub open spec fn cleanup_course(resource: ElasticsearchUserView, store: Store) -> CleanupCourse {
    let (state, pending) = cleanup_start(resource);
    let begun = CleanupCourse { store, state, pending, asked: Seq::empty() };
    cleanup_turn(resource, cleanup_turn(resource, begun))
}

/// Cleanup ordering, as a whole. Unless the resource asks to keep them, a
/// cleanup deletes the user, then the role, and is done, whether or not
/// either was there; afterwards neither is. Where the resource asks to keep
/// them, a cleanup asks nothing and touches nothing.
pub proof fn cleanup_deletes_user_then_role(resource: ElasticsearchUserView, store: Store)
    ensures
        ({
            let end = cleanup_course(resource, store);
            let username = resource.spec.username;
            let role = role_name_of(username);
            &&& end.pending is None
            &&& wants_kept(resource.keep) ==> {
                &&& end.state.step == CleanupStep::Skipped
                &&& end.asked == Seq::<RequestView>::empty()
                &&& end.store == store
            }
            &&& !wants_kept(resource.keep) ==> {
                &&& end.state.step == CleanupStep::Done
                &&& end.state.error is None
                &&& end.state.user_deleted == store.users.contains_key(username)
                &&& end.state.role_deleted == store.roles.contains_key(role)
                &&& end.asked == seq![
                    RequestView::DeleteUser { name: username },
                    RequestView::DeleteRole { name: role },
                ]
                &&& end.store == Store {
                    users: store.users.remove(username),
                    roles: store.roles.remove(role),
                    ..store
                }
                &&& !end.store.users.contains_key(username)
                &&& !end.store.roles.contains_key(role)
            }
        }),
{
    let end = cleanup_course(resource, store);
    if !wants_kept(resource.keep) {
        let username = resource.spec.username;
        assert(end.asked =~= seq![
            RequestView::DeleteUser { name: username },
            RequestView::DeleteRole { name: role_name_of(username) },
        ]);
    }
}

/// The requests that a cleanup makes when its requests are answered with
/// `answers`, one after the other, whatever those answers are.
pub open spec fn cleanup_requests(resource: ElasticsearchUserView, answers: Seq<ResponseView>) -> Seq<
    RequestView,
> {
    let (state, pending) = cleanup_start(resource);
    requests_from(resource, state, pending, answers)
}

/// The requests that a cleanup makes from `state` on, with `pending` out,
/// when its requests are answered with `answers`.
pub open spec fn requests_from(
    resource: ElasticsearchUserView,
    state: CleanupStateView,
    pending: Option<RequestView>,
    answers: Seq<ResponseView>,
) -> Seq<RequestView>
    decreases answers.len(),
{
    match pending {
        None => Seq::empty(),
        Some(request) => if answers.len() == 0 {
            seq![request]
        } else {
            let (next, then) = cleanup_next(resource, state, answers[0]);
            seq![request] + requests_from(resource, next, then, answers.drop_first())
        },
    }
}

/// Cleanup ordering, whatever the collaborators answer. A cleanup asks to
/// delete the user first; it asks to delete the role only after that, and
/// only when deleting the user did not fail; it asks nothing else; and an
/// answer that there was nothing to delete counts as done, never as failed.
pub proof fn cleanup_asks_user_then_role(resource: ElasticsearchUserView, answers: Seq<ResponseView>)
    ensures
        ({
            let asked = cleanup_requests(resource, answers);
            let username = resource.spec.username;
            &&& asked.len() <= 2
            &&& asked.len() >= 1 ==> asked[0] == RequestView::DeleteUser { name: username }
            &&& asked.len() == 2 ==> asked[1] == RequestView::DeleteRole {
                name: role_name_of(username),
            } && answers[0] is Deleted
            &&& wants_kept(resource.keep) <==> asked.len() == 0
        }),
        forall|state: CleanupStateView, was_there: bool|
            state.step == CleanupStep::UserDeleting || state.step == CleanupStep::RoleDeleting
                ==> (#[trigger] cleanup_next(
                resource,
                state,
                ResponseView::Deleted(was_there),
            )).0.step != CleanupStep::Failed,
{
    reveal_with_fuel(requests_from, 4);
    let (state, pending) = cleanup_start(resource);
    if pending is Some && answers.len() > 0 {
        let (next, then) = cleanup_next(resource, state, answers[0]);
        let rest = answers.drop_first();
        if then is Some && rest.len() > 0 {
            let (last, after) = cleanup_next(resource, next, rest[0]);
            assert(after is None);
        }
    }
}

} // verus!
