//! The declared resource: what a managed user should look like, and the
//! status that each reconciliation writes back.

use vstd::prelude::*;

use crate::text::{clone_opt_text, clone_texts};

verus! {

/// The permission tier a managed user is declared with.
#[derive(Clone, Copy, Debug, PartialEq, Eq, Structural)]
pub enum UserPermissions {
    Read,
    Write,
    Create,
}

/// The desired state of one managed user.
#[derive(Debug)]
pub struct ElasticsearchUserSpec {
    pub secret_ref: String,
    pub username: String,
    pub prefixes: Vec<String>,
    pub permissions: UserPermissions,
}

/// What contracts say of an [`ElasticsearchUserSpec`].
pub struct ElasticsearchUserSpecView {
    pub secret_ref: Seq<char>,
    pub username: Seq<char>,
    pub prefixes: Seq<Seq<char>>,
    pub permissions: UserPermissions,
}

impl DeepView for ElasticsearchUserSpec {
    type V = ElasticsearchUserSpecView;

    open spec fn deep_view(&self) -> ElasticsearchUserSpecView {
        self@
    }
}

impl View for ElasticsearchUserSpec {
    type V = ElasticsearchUserSpecView;

    open spec fn view(&self) -> ElasticsearchUserSpecView {
        ElasticsearchUserSpecView {
            secret_ref: self.secret_ref@,
            username: self.username@,
            prefixes: self.prefixes.deep_view(),
            permissions: self.permissions,
        }
    }
}

impl Clone for ElasticsearchUserSpec {
    fn clone(&self) -> (r: Self)
        ensures
            r@ == self@,
    {
        ElasticsearchUserSpec {
            secret_ref: self.secret_ref.clone(),
            username: self.username.clone(),
            prefixes: clone_texts(&self.prefixes),
            permissions: self.permissions,
        }
    }
}

/// The outcome of the last reconciliation, as recorded on the resource.
#[derive(Debug)]
pub struct ElasticSearchUserStatus {
    pub ok: bool,
    pub error_message: Option<String>,
}

/// What contracts say of an [`ElasticSearchUserStatus`].
pub struct ElasticSearchUserStatusView {
    pub ok: bool,
    pub error_message: Option<Seq<char>>,
}

impl DeepView for ElasticSearchUserStatus {
    type V = ElasticSearchUserStatusView;

    open spec fn deep_view(&self) -> ElasticSearchUserStatusView {
        self@
    }
}

impl View for ElasticSearchUserStatus {
    type V = ElasticSearchUserStatusView;

    open spec fn view(&self) -> ElasticSearchUserStatusView {
        ElasticSearchUserStatusView {
            ok: self.ok,
            error_message: self.error_message.deep_view(),
        }
    }
}

impl Clone for ElasticSearchUserStatus {
    fn clone(&self) -> (r: Self)
        ensures
            r@ == self@,
    {
        ElasticSearchUserStatus {
            ok: self.ok,
            error_message: clone_opt_text(&self.error_message),
        }
    }
}

impl Default for ElasticSearchUserStatus {
    fn default() -> (r: Self)
        ensures
            r@ == (ElasticSearchUserStatusView { ok: false, error_message: None }),
    {
        ElasticSearchUserStatus { ok: false, error_message: None }
    }
}

impl ElasticSearchUserStatus {
    /// The status of a resource whose last reconciliation succeeded.
    pub fn ok() -> (r: Self)
        ensures
            r@ == (ElasticSearchUserStatusView { ok: true, error_message: None }),
    {
        Self { ok: true, error_message: None }
    }

    /// The status of a resource whose last reconciliation failed with `msg`.
    pub fn err(msg: &str) -> (r: Self)
        ensures
            r@ == (ElasticSearchUserStatusView { ok: false, error_message: Some(msg@) }),
    {
        Self { ok: false, error_message: Some(msg.to_string()) }
    }
}

/// One declared managed user, as the control plane holds it.
#[derive(Debug)]
pub struct ElasticsearchUser {
    /// The resource's name in the control plane.
    pub name: String,
    /// The resource's unique id, once the control plane has assigned one.
    pub uid: Option<String>,
    /// The value of the keep annotation, if the resource carries one.
    pub keep: Option<String>,
    pub spec: ElasticsearchUserSpec,
    pub status: Option<ElasticSearchUserStatus>,
}

/// What contracts say of an [`ElasticsearchUser`].
pub struct ElasticsearchUserView {
    pub name: Seq<char>,
    pub uid: Option<Seq<char>>,
    pub keep: Option<Seq<char>>,
    pub spec: ElasticsearchUserSpecView,
    pub status: Option<ElasticSearchUserStatusView>,
}

impl DeepView for ElasticsearchUser {
    type V = ElasticsearchUserView;

    open spec fn deep_view(&self) -> ElasticsearchUserView {
        self@
    }
}

impl View for ElasticsearchUser {
    type V = ElasticsearchUserView;

    open spec fn view(&self) -> ElasticsearchUserView {
        ElasticsearchUserView {
            name: self.name@,
            uid: self.uid.deep_view(),
            keep: self.keep.deep_view(),
            spec: self.spec@,
            status: self.status.deep_view(),
        }
    }
}

} // verus!
