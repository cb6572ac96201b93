//! The error of one reconciliation.

use vstd::prelude::*;
use vstd::std_specs::convert::FromSpecImpl;
use vstd::string::*;

use crate::elasticsearch::error::{elastic_error_text, ElasticError, ElasticErrorView};

verus! {

/// Why a reconciliation failed.
#[derive(Debug)]
pub enum OperatorError {
    /// The external store failed or refused.
    ElasticError(ElasticError),
    /// The control plane failed or refused. Holds its own description.
    KubeError(String),
    /// Anything else, with what it says of itself and of its first cause.
    Anyhow { message: String, root_cause: String },
}

/// What contracts say of an [`OperatorError`].
pub enum OperatorErrorView {
    ElasticError(ElasticErrorView),
    KubeError(Seq<char>),
    Anyhow { message: Seq<char>, root_cause: Seq<char> },
}

/// The text that describes a reconciliation's error.
pub open spec fn operator_error_text(e: OperatorErrorView) -> Seq<char> {
    match e {
        OperatorErrorView::ElasticError(inner) => elastic_error_text(inner),
        OperatorErrorView::KubeError(m) => m,
        OperatorErrorView::Anyhow { message, root_cause } => "[AH] "@ + message + " ("@
            + root_cause + ")"@,
    }
}

impl DeepView for OperatorError {
    type V = OperatorErrorView;

    open spec fn deep_view(&self) -> OperatorErrorView {
        self@
    }
}

impl View for OperatorError {
    type V = OperatorErrorView;

    open spec fn view(&self) -> OperatorErrorView {
        match self {
            OperatorError::ElasticError(inner) => OperatorErrorView::ElasticError(inner@),
            OperatorError::KubeError(m) => OperatorErrorView::KubeError(m@),
            OperatorError::Anyhow { message, root_cause } => OperatorErrorView::Anyhow {
                message: message@,
                root_cause: root_cause@,
            },
        }
    }
}

impl Clone for OperatorError {
    fn clone(&self) -> (r: Self)
        ensures
            r@ == self@,
    {
        match self {
            OperatorError::ElasticError(inner) => OperatorError::ElasticError(inner.clone()),
            OperatorError::KubeError(m) => OperatorError::KubeError(m.clone()),
            OperatorError::Anyhow { message, root_cause } => OperatorError::Anyhow {
                message: message.clone(),
                root_cause: root_cause.clone(),
            },
        }
    }
}

impl From<ElasticError> for OperatorError {
    fn from(value: ElasticError) -> (r: Self) {
        OperatorError::ElasticError(value)
    }
}

impl FromSpecImpl<ElasticError> for OperatorError {
    open spec fn obeys_from_spec() -> bool {
        true
    }

    open spec fn from_spec(value: ElasticError) -> Self {
        OperatorError::ElasticError(value)
    }
}

impl OperatorError {
    /// The text that describes this error.
    pub fn message(&self) -> (r: String)
        ensures
            r@ == operator_error_text(self@),
    {
        match self {
            OperatorError::ElasticError(inner) => inner.message(),
            OperatorError::KubeError(m) => m.clone(),
            OperatorError::Anyhow { message, root_cause } => {
                let mut out = String::from_str("[AH] ");
                out.append(message.as_str());
                out.append(" (");
                out.append(root_cause.as_str());
                out.append(")");
                out
            },
        }
    }

    /// Whether this is the external store declining the credentials.
    pub fn is_wrong_credentials(&self) -> (r: bool)
        ensures
            r == (self@ == OperatorErrorView::ElasticError(ElasticErrorView::WrongCredentials)),
    {
        match self {
            OperatorError::ElasticError(inner) => inner.is_wrong_credentials(),
            _ => false,
        }
    }
}

} // verus!
