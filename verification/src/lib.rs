//! An operator that keeps the users and roles of an external Elasticsearch
//! in line with users declared in Kubernetes.
//!
//! This library holds every decision of the operator, with a contract on
//! each: what a declared user should have ([`reconciliation`]), what its
//! secret should hold ([`secret`]), how a request to the store is put
//! together and its answer read ([`elasticsearch`]), and when a resource may
//! go ([`lifecycle`]). It never talks to anybody: it hands out requests
//! ([`protocol`]) and takes the answers. [`model`] proves what whole courses
//! of such requests achieve. [`keyed`] holds what the secret's data and a
//! user's metadata share: lists by key in which no key occurs twice.

use vstd::prelude::*;

pub mod elasticsearch;
pub mod env;
pub mod error;
pub mod keyed;
pub mod lifecycle;
pub mod model;
pub mod password;
pub mod protocol;
pub mod reconciliation;
pub mod resource;
pub mod secret;
pub mod text;

verus! {

/// The annotation that asks the operator to leave the user and role of a
/// deleted resource in the external store.
pub const KEEP_ANNOTATION: &'static str = "eeops.io/keep";

/// The secret's key for the user name.
pub const SECRET_USER: &'static str = "ELASTICSEARCH_USERNAME";

/// The secret's key for the password.
pub const SECRET_PASS: &'static str = "ELASTICSEARCH_PASSWORD";

/// The secret's key for the URL of the external store.
pub const SECRET_URL: &'static str = "ELASTICSEARCH_URL";

/// Length of every password this operator generates.
pub const PASSWORD_LENGTH: usize = 24;

/// Seconds after which every resource is reconciled again.
pub const REQUEUE_SECONDS: u64 = 900;

} // verus!
