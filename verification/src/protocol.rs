//! What the operator asks of its two collaborators, the control plane and
//! the external store, and what they answer. The operator decides; whoever
//! drives it carries each request out and hands the answer back.

use vstd::prelude::*;

use crate::elasticsearch::error::{ElasticError, ElasticErrorView};
use crate::elasticsearch::role::{Role, RoleView};
use crate::elasticsearch::user::{User, UserView};
use crate::error::{OperatorError, OperatorErrorView};
use crate::resource::{ElasticsearchUser, ElasticsearchUserView};
use crate::secret::SecretData;

verus! {

/// The resource that owns a secret: when the owner goes, the control plane
/// removes the secret with it.
#[derive(Debug)]
pub struct OwnerReference {
    pub api_version: String,
    pub kind: String,
    pub name: String,
    pub uid: String,
}

/// What contracts say of an [`OwnerReference`].
pub struct OwnerReferenceView {
    pub api_version: Seq<char>,
    pub kind: Seq<char>,
    pub name: Seq<char>,
    pub uid: Seq<char>,
}

impl DeepView for OwnerReference {
    type V = OwnerReferenceView;

    open spec fn deep_view(&self) -> OwnerReferenceView {
        self@
    }
}

impl View for OwnerReference {
    type V = OwnerReferenceView;

    open spec fn view(&self) -> OwnerReferenceView {
        OwnerReferenceView {
            api_version: self.api_version@,
            kind: self.kind@,
            name: self.name@,
            uid: self.uid@,
        }
    }
}

/// The reference by which a secret names `resource` as its owner. A
/// resource without a unique id is named with an empty one.
pub open spec fn owner_of(resource: ElasticsearchUserView) -> OwnerReferenceView {
    OwnerReferenceView {
        api_version: "eeops.io/v1"@,
        kind: "ElasticsearchUser"@,
        name: resource.name,
        uid: match resource.uid {
            Some(uid) => uid,
            None => Seq::empty(),
        },
    }
}

/// The reference by which a secret names `resource` as its owner.
pub fn owner_reference(resource: &ElasticsearchUser) -> (r: OwnerReference)
    ensures
        r@ == owner_of(resource@),
{
    OwnerReference {
        api_version: "eeops.io/v1".to_string(),
        kind: "ElasticsearchUser".to_string(),
        name: resource.name.clone(),
        uid: match &resource.uid {
            Some(uid) => uid.clone(),
            None => String::new(),
        },
    }
}

/// One request to a collaborator.
#[derive(Debug)]
pub enum Request {
    /// Control plane: read the secret called `name`.
    GetSecret { name: String },
    /// Control plane: create the secret called `name`.
    CreateSecret { name: String, owner: OwnerReference, data: SecretData },
    /// Control plane: bring the secret called `name` to hold `data`.
    PatchSecret { name: String, owner: OwnerReference, data: SecretData },
    /// External store: read the role called `name`.
    GetRole { name: String },
    /// External store: put `role` in place of whatever is called `name`.
    PutRole { name: String, role: Role },
    /// External store: read the user called `name`.
    GetUser { name: String },
    /// External store: put `user` in place of whatever is called `name`.
    PutUser { name: String, user: User },
    /// External store: say who is calling, with these credentials.
    Authenticate { username: String, password: String },
    /// External store: delete the user called `name`.
    DeleteUser { name: String },
    /// External store: delete the role called `name`.
    DeleteRole { name: String },
}

/// What contracts say of a [`Request`].
pub enum RequestView {
    GetSecret { name: Seq<char> },
    CreateSecret { name: Seq<char>, owner: OwnerReferenceView, data: Map<Seq<char>, Seq<u8>> },
    PatchSecret { name: Seq<char>, owner: OwnerReferenceView, data: Map<Seq<char>, Seq<u8>> },
    GetRole { name: Seq<char> },
    PutRole { name: Seq<char>, role: RoleView },
    GetUser { name: Seq<char> },
    PutUser { name: Seq<char>, user: UserView },
    Authenticate { username: Seq<char>, password: Seq<char> },
    DeleteUser { name: Seq<char> },
    DeleteRole { name: Seq<char> },
}

impl DeepView for Request {
    type V = RequestView;

    open spec fn deep_view(&self) -> RequestView {
        self@
    }
}

impl View for Request {
    type V = RequestView;

    open spec fn view(&self) -> RequestView {
        match self {
            Request::GetSecret { name } => RequestView::GetSecret { name: name@ },
            Request::CreateSecret { name, owner, data } => RequestView::CreateSecret {
                name: name@,
                owner: owner@,
                data: data@,
            },
            Request::PatchSecret { name, owner, data } => RequestView::PatchSecret {
                name: name@,
                owner: owner@,
                data: data@,
            },
            Request::GetRole { name } => RequestView::GetRole { name: name@ },
            Request::PutRole { name, role } => RequestView::PutRole { name: name@, role: role@ },
            Request::GetUser { name } => RequestView::GetUser { name: name@ },
            Request::PutUser { name, user } => RequestView::PutUser { name: name@, user: user@ },
            Request::Authenticate { username, password } => RequestView::Authenticate {
                username: username@,
                password: password@,
            },
            Request::DeleteUser { name } => RequestView::DeleteUser { name: name@ },
            Request::DeleteRole { name } => RequestView::DeleteRole { name: name@ },
        }
    }
}

/// One answer of a collaborator.
#[derive(Debug)]
pub enum Response {
    /// To `GetSecret`: the secret's data, or `None` where there is no secret.
    Secret(Option<SecretData>),
    /// To `GetRole`: the role, or `None` where there is none.
    Role(Option<Role>),
    /// To `GetUser`: the user, or `None` where there is none.
    User(Option<User>),
    /// To a create, patch or put: done.
    Written,
    /// To a delete: done; `false` where there was nothing to delete.
    Deleted(bool),
    /// To `Authenticate`: the credentials are good.
    Authenticated,
    /// To any request: it failed.
    Failed(OperatorError),
}

/// What contracts say of a [`Response`].
pub enum ResponseView {
    Secret(Option<Map<Seq<char>, Seq<u8>>>),
    Role(Option<RoleView>),
    User(Option<UserView>),
    Written,
    Deleted(bool),
    Authenticated,
    Failed(OperatorErrorView),
}

impl DeepView for Response {
    type V = ResponseView;

    open spec fn deep_view(&self) -> ResponseView {
        self@
    }
}

impl View for Response {
    type V = ResponseView;

    open spec fn view(&self) -> ResponseView {
        match self {
            Response::Secret(found) => ResponseView::Secret(found.deep_view()),
            Response::Role(found) => ResponseView::Role(found.deep_view()),
            Response::User(found) => ResponseView::User(found.deep_view()),
            Response::Written => ResponseView::Written,
            Response::Deleted(was_there) => ResponseView::Deleted(*was_there),
            Response::Authenticated => ResponseView::Authenticated,
            Response::Failed(e) => ResponseView::Failed(e@),
        }
    }
}


/// The answer that the outcome of reading a role makes.
pub open spec fn role_answer_of(outcome: Result<Option<RoleView>, ElasticErrorView>) -> ResponseView {
    match outcome {
        Ok(found) => ResponseView::Role(found),
        Err(e) => ResponseView::Failed(OperatorErrorView::ElasticError(e)),
    }
}

/// The answer that the outcome of reading a user makes.
pub open spec fn user_answer_of(outcome: Result<Option<UserView>, ElasticErrorView>) -> ResponseView {
    match outcome {
        Ok(found) => ResponseView::User(found),
        Err(e) => ResponseView::Failed(OperatorErrorView::ElasticError(e)),
    }
}

/// The answer that the outcome of a put makes.
pub open spec fn written_answer_of(outcome: Result<(), OperatorErrorView>) -> ResponseView {
    match outcome {
        Ok(_) => ResponseView::Written,
        Err(e) => ResponseView::Failed(e),
    }
}

/// The answer that the outcome of a delete makes. That there was nothing
/// to delete is an answer like any other, not a failure.
pub open spec fn deleted_answer_of(outcome: Result<bool, ElasticErrorView>) -> ResponseView {
    match outcome {
        Ok(was_there) => ResponseView::Deleted(was_there),
        Err(e) => ResponseView::Failed(OperatorErrorView::ElasticError(e)),
    }
}

/// The answer that the outcome of trying credentials makes.
pub open spec fn identity_answer_of(outcome: Result<(), ElasticErrorView>) -> ResponseView {
    match outcome {
        Ok(_) => ResponseView::Authenticated,
        Err(e) => ResponseView::Failed(OperatorErrorView::ElasticError(e)),
    }
}

impl Response {
    /// The answer that the outcome of reading a secret makes.
    pub fn of_secret(outcome: Result<Option<SecretData>, OperatorError>) -> (r: Response)
        ensures
            r@ == match outcome {
                Ok(found) => ResponseView::Secret(found.deep_view()),
                Err(e) => ResponseView::Failed(e@),
            },
    {
        match outcome {
            Ok(found) => Response::Secret(found),
            Err(e) => Response::Failed(e),
        }
    }

    /// The answer that the outcome of reading a role makes.
    pub fn of_role(outcome: Result<Option<Role>, ElasticError>) -> (r: Response)
        ensures
            r@ == role_answer_of(
                match outcome {
                    Ok(found) => Ok(found.deep_view()),
                    Err(e) => Err(e@),
                },
            ),
    {
        match outcome {
            Ok(found) => Response::Role(found),
            Err(e) => Response::Failed(OperatorError::ElasticError(e)),
        }
    }

    /// The answer that the outcome of reading a user makes.
    pub fn of_user(outcome: Result<Option<User>, ElasticError>) -> (r: Response)
        ensures
            r@ == user_answer_of(
                match outcome {
                    Ok(found) => Ok(found.deep_view()),
                    Err(e) => Err(e@),
                },
            ),
    {
        match outcome {
            Ok(found) => Response::User(found),
            Err(e) => Response::Failed(OperatorError::ElasticError(e)),
        }
    }

    /// The answer that the outcome of a create, patch or put makes.
    pub fn of_write(outcome: Result<(), OperatorError>) -> (r: Response)
        ensures
            r@ == written_answer_of(
                match outcome {
                    Ok(_) => Ok(()),
                    Err(e) => Err(e@),
                },
            ),
    {
        match outcome {
            Ok(_) => Response::Written,
            Err(e) => Response::Failed(e),
        }
    }

    /// The answer that the outcome of a delete makes.
    pub fn of_delete(outcome: Result<bool, ElasticError>) -> (r: Response)
        ensures
            r@ == deleted_answer_of(
                match outcome {
                    Ok(was_there) => Ok(was_there),
                    Err(e) => Err(e@),
                },
            ),
    {
        match outcome {
            Ok(was_there) => Response::Deleted(was_there),
            Err(e) => Response::Failed(OperatorError::ElasticError(e)),
        }
    }

    /// The answer that the outcome of trying credentials makes.
    pub fn of_identity(outcome: Result<(), ElasticError>) -> (r: Response)
        ensures
            r@ == identity_answer_of(
                match outcome {
                    Ok(_) => Ok(()),
                    Err(e) => Err(e@),
                },
            ),
    {
        match outcome {
            Ok(_) => Response::Authenticated,
            Err(e) => Response::Failed(OperatorError::ElasticError(e)),
        }
    }
}

} // verus!
