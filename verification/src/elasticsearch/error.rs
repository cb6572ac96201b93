//! What can go wrong when talking to the external store.

use vstd::prelude::*;
use vstd::string::*;

use crate::text::concat2;

verus! {

/// An error of the external store, or of the way to it.
#[derive(Debug)]
pub enum ElasticError {
    /// The request did not get through, or its answer could not be read.
    /// Holds the transport's own description.
    HttpRequest(String),
    /// The store declined the credentials the request was made with.
    WrongCredentials,
    /// The credentials work, but belong to no superuser.
    NotSuperuser,
    /// The store answered with something the operator did not expect.
    Custom(String),
}

/// What contracts say of an [`ElasticError`].
pub enum ElasticErrorView {
    HttpRequest(Seq<char>),
    WrongCredentials,
    NotSuperuser,
    Custom(Seq<char>),
}

/// The text that describes an error of the external store.
pub open spec fn elastic_error_text(e: ElasticErrorView) -> Seq<char> {
    match e {
        ElasticErrorView::HttpRequest(m) => m,
        ElasticErrorView::WrongCredentials => "The provided credentials have been declined by ElasticSearch"@,
        ElasticErrorView::NotSuperuser => "The provided login does work, but the user is missing the superuser credentials."@,
        ElasticErrorView::Custom(m) => "An unexpected error occurred: "@ + m,
    }
}

impl DeepView for ElasticError {
    type V = ElasticErrorView;

    open spec fn deep_view(&self) -> ElasticErrorView {
        self@
    }
}

impl View for ElasticError {
    type V = ElasticErrorView;

    open spec fn view(&self) -> ElasticErrorView {
        match self {
            ElasticError::HttpRequest(m) => ElasticErrorView::HttpRequest(m@),
            ElasticError::WrongCredentials => ElasticErrorView::WrongCredentials,
            ElasticError::NotSuperuser => ElasticErrorView::NotSuperuser,
            ElasticError::Custom(m) => ElasticErrorView::Custom(m@),
        }
    }
}

impl Clone for ElasticError {
    fn clone(&self) -> (r: Self)
        ensures
            r@ == self@,
    {
        match self {
            ElasticError::HttpRequest(m) => ElasticError::HttpRequest(m.clone()),
            ElasticError::WrongCredentials => ElasticError::WrongCredentials,
            ElasticError::NotSuperuser => ElasticError::NotSuperuser,
            ElasticError::Custom(m) => ElasticError::Custom(m.clone()),
        }
    }
}

impl ElasticError {
    /// The text that describes this error.
    pub fn message(&self) -> (r: String)
        ensures
            r@ == elastic_error_text(self@),
    {
        match self {
            ElasticError::HttpRequest(m) => m.clone(),
            ElasticError::WrongCredentials => String::from_str(
                "The provided credentials have been declined by ElasticSearch",
            ),
            ElasticError::NotSuperuser => String::from_str(
                "The provided login does work, but the user is missing the superuser credentials.",
            ),
            ElasticError::Custom(m) => concat2("An unexpected error occurred: ", m.as_str()),
        }
    }

    /// Whether the store declined the credentials.
    pub fn is_wrong_credentials(&self) -> (r: bool)
        ensures
            r == (self@ is WrongCredentials),
    {
        match self {
            ElasticError::WrongCredentials => true,
            _ => false,
        }
    }
}

} // verus!
