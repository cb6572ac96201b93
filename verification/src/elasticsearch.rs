//! What the operator knows of the external store: its roles, its users, its
//! errors, and how a request to it is put together and its answer read.
//! Sending the request is left to whoever drives the operator.

use base64::engine::general_purpose::STANDARD;
use base64::Engine;
use vstd::prelude::*;
use vstd::string::*;
use vstd::utf8::encode_utf8;

pub mod error;
pub mod role;
pub mod user;

pub use error::ElasticError;
pub use role::{IndexPermission, Privilege, Privileges, Role};
pub use user::{Metadata, MetadataEntry, User};

use crate::text::{concat2, contains_text, same_text};
use error::ElasticErrorView;

verus! {

/// Milliseconds after which a request to the external store is given up.
pub const REQUEST_TIMEOUT_MILLIS: u64 = 5_000;

/// The content type of every request to the external store.
pub const CONTENT_TYPE: &'static str = "Application/Json";

/// Where the external store says who is calling.
pub const AUTHENTICATE_PATH: &'static str = "/_security/_authenticate";

/// The role that the operator's own login must have.
pub const SUPERUSER: &'static str = "superuser";

/// What `base64`'s standard engine makes of a byte string: its base64
/// encoding in the standard alphabet, with padding.
pub uninterp spec fn base64_standard(bytes: Seq<u8>) -> Seq<char>;

/// Whether a byte string of this length can be encoded: the encoding, four
/// characters for every three bytes or part of three, must fit in `usize`.
pub open spec fn fits_base64(len: nat) -> bool {
    (len + 2) / 3 * 4 <= usize::MAX
}

/// `base64::Engine::encode` of `base64::engine::general_purpose::STANDARD`.
/// Trusted: the result depends on the bytes alone. The engine panics where
/// the length of the encoding overflows `usize`; such input is left out.
#[verifier::external_body]
fn base64_encode(input: &[u8]) -> (r: String)
    requires
        fits_base64(input@.len()),
    ensures
        r@ == base64_standard(input@),
{
    STANDARD.encode(input)
}

/// `s` without any `c` at its end.
pub open spec fn without_trailing(s: Seq<char>, c: char) -> Seq<char>
    decreases s.len(),
{
    if s.len() > 0 && s.last() == c {
        without_trailing(s.drop_last(), c)
    } else {
        s
    }
}

/// The text without every `c` at its end.
fn trim_end_matches(s: &str, c: char) -> (r: &str)
    ensures
        r@ == without_trailing(s@, c),
{
    let mut end = s.unicode_len();
    assert(s@.take(end as int) =~= s@);
    while end > 0 && s.get_char(end - 1) == c
        invariant
            end <= s@.len(),
            without_trailing(s@, c) == without_trailing(s@.take(end as int), c),
        decreases end,
    {
        assert(s@.take(end as int).drop_last() =~= s@.take(end - 1));
        end -= 1;
    }
    assert(s@.take(end as int) =~= s@.subrange(0, end as int));
    s.substring_char(0, end)
}

/// The text of which the basic authorization is the encoding.
pub open spec fn login_text(username: Seq<char>, password: Seq<char>) -> Seq<char> {
    username + ":"@ + password
}

/// The value of the authorization header for a login.
pub open spec fn basic_authorization(username: Seq<char>, password: Seq<char>) -> Seq<char> {
    "Basic "@ + base64_standard(encode_utf8(login_text(username, password)))
}

/// The value of the authorization header of which `encoded` is the encoded
/// login.
pub fn basic_header(encoded: &str) -> (r: String)
    ensures
        r@ == "Basic "@ + encoded@,
{
    concat2("Basic ", encoded)
}

/// The value of the authorization header for a login: `Basic` and the
/// base64 encoding of user name, colon and password.
pub fn username_password_to_basic(username: &str, password: &str) -> (r: String)
    requires
        fits_base64(encode_utf8(login_text(username@, password@)).len()),
    ensures
        r@ == basic_authorization(username@, password@),
{
    let mut login = String::from_str(username);
    login.append(":");
    login.append(password);
    let encoded = base64_encode(login.as_str().as_bytes());
    basic_header(encoded.as_str())
}

/// Whether the login of `username` with `password` is short enough to be
/// encoded.
pub fn login_fits(username: &str, password: &str) -> (r: bool)
    ensures
        r == fits_base64(encode_utf8(login_text(username@, password@)).len()),
{
    let mut login = String::from_str(username);
    login.append(":");
    login.append(password);
    let n = login.as_str().as_bytes().len();
    n <= usize::MAX - 2 && (n + 2) / 3 <= usize::MAX / 4
}

/// How to reach the external store: where it is, as whom to call, and
/// whether to check its certificate.
#[derive(Debug)]
pub struct ElasticAdmin {
    /// The store's URL, without a slash at its end.
    pub url: String,
    /// The value of the authorization header of every request.
    pub authorization: String,
    /// Whether the store's certificate goes unchecked.
    pub skip_verify: bool,
}

/// What contracts say of an [`ElasticAdmin`].
pub struct ElasticAdminView {
    pub url: Seq<char>,
    pub authorization: Seq<char>,
    pub skip_verify: bool,
}

impl View for ElasticAdmin {
    type V = ElasticAdminView;

    open spec fn view(&self) -> ElasticAdminView {
        ElasticAdminView {
            url: self.url@,
            authorization: self.authorization@,
            skip_verify: self.skip_verify,
        }
    }
}

impl ElasticAdmin {
    /// The way to the store at `url`, as `username`. Slashes at the end of
    /// the URL are dropped.
    pub fn new(url: &str, username: &str, password: &str, skip_verify: bool) -> (r: Self)
        requires
            fits_base64(encode_utf8(login_text(username@, password@)).len()),
        ensures
            r@.url == without_trailing(url@, '/'),
            r@.authorization == basic_authorization(username@, password@),
            r@.skip_verify == skip_verify,
    {
        let url = trim_end_matches(url, '/');
        Self {
            url: url.to_string(),
            authorization: username_password_to_basic(username, password),
            skip_verify,
        }
    }

    /// The way to the same store, as somebody else.
    pub fn clone_with_new_login(&self, username: &str, password: &str) -> (r: Self)
        requires
            fits_base64(encode_utf8(login_text(username@, password@)).len()),
        ensures
            r@.url == without_trailing(self@.url, '/'),
            r@.authorization == basic_authorization(username@, password@),
            r@.skip_verify == self@.skip_verify,
    {
        Self::new(self.url.as_str(), username, password, self.skip_verify)
    }

    /// The address of `uri` at the store.
    pub fn format_url(&self, uri: &str) -> (r: String)
        ensures
            r@ == self@.url + uri@,
    {
        concat2(self.url.as_str(), uri)
    }
}

/// What a request to the external store is about.
#[derive(Clone, Copy, Debug, PartialEq, Eq, Structural)]
pub enum Subject {
    Role,
    User,
}

/// The word for a subject, as it stands in addresses and messages.
pub open spec fn subject_word(subject: Subject) -> Seq<char> {
    match subject {
        Subject::Role => "role"@,
        Subject::User => "user"@,
    }
}

/// Where the external store keeps the role or user called `name`.
pub open spec fn subject_path(subject: Subject, name: Seq<char>) -> Seq<char> {
    "/_security/"@ + subject_word(subject) + "/"@ + name
}

impl Subject {
    /// The word for the subject.
    pub fn word(&self) -> (r: &'static str)
        ensures
            r@ == subject_word(*self),
    {
        match self {
            Subject::Role => "role",
            Subject::User => "user",
        }
    }

    /// Where the external store keeps the role or user called `name`.
    pub fn path(&self, name: &str) -> (r: String)
        ensures
            r@ == subject_path(*self, name@),
    {
        let mut out = String::from_str("/_security/");
        out.append(self.word());
        out.append("/");
        out.append(name);
        out
    }
}

/// What the status of an answer says.
#[derive(Clone, Copy, Debug, PartialEq, Eq, Structural)]
pub enum StatusClass {
    /// 200 to 299: the request was carried out.
    Success,
    /// 401: the credentials were declined.
    Unauthorized,
    /// 404: there is no such thing.
    NotFound,
    /// Anything else.
    Failure,
}

/// What a status says.
pub open spec fn status_class(status: u16) -> StatusClass {
    if status == 404 {
        StatusClass::NotFound
    } else if status == 401 {
        StatusClass::Unauthorized
    } else if 200 <= status <= 299 {
        StatusClass::Success
    } else {
        StatusClass::Failure
    }
}

/// What `status` says.
pub fn classify(status: u16) -> (r: StatusClass)
    ensures
        r == status_class(status),
{
    if status == 404 {
        StatusClass::NotFound
    } else if status == 401 {
        StatusClass::Unauthorized
    } else if 200 <= status && status <= 299 {
        StatusClass::Success
    } else {
        StatusClass::Failure
    }
}

/// What the answer to the question who is calling says, as far as the
/// status tells.
#[derive(Clone, Copy, Debug, PartialEq, Eq, Structural)]
pub enum AuthOutcome {
    /// 401: the store declined the credentials.
    Declined,
    /// Success: the body names the caller.
    InBody,
    /// Anything else: the body says what went wrong.
    Refused,
}

/// What the status of the answer to the question who is calling says.
pub open spec fn auth_outcome(status: u16) -> AuthOutcome {
    match status_class(status) {
        StatusClass::Unauthorized => AuthOutcome::Declined,
        StatusClass::Success => AuthOutcome::InBody,
        _ => AuthOutcome::Refused,
    }
}

/// What the status of the answer to the question who is calling says. Only
/// a status of 401 means that the credentials are wrong; only a status of
/// success means that the body names the caller.
pub fn read_authenticate(status: u16) -> (r: AuthOutcome)
    ensures
        r == auth_outcome(status),
{
    match classify(status) {
        StatusClass::Unauthorized => AuthOutcome::Declined,
        StatusClass::Success => AuthOutcome::InBody,
        _ => AuthOutcome::Refused,
    }
}

/// The error of a question who is calling that the store refused, with the
/// body of its answer.
pub fn authenticate_refused(body: &str) -> (r: ElasticError)
    ensures
        r@ == ElasticErrorView::Custom("Error authenticating: "@ + body@),
{
    ElasticError::Custom(concat2("Error authenticating: ", body))
}

/// Whether the caller that the store named is a superuser.
pub fn check_superuser(caller: &User) -> (r: Result<(), ElasticError>)
    ensures
        caller@.roles.contains(SUPERUSER@) ==> r is Ok,
        !caller@.roles.contains(SUPERUSER@) ==> (r matches Err(e) && e@
            == ElasticErrorView::NotSuperuser),
{
    if contains_text(&caller.roles, SUPERUSER) {
        Ok(())
    } else {
        Err(ElasticError::NotSuperuser)
    }
}

/// What the answer to a get says, as far as the status tells.
#[derive(Clone, Copy, Debug, PartialEq, Eq, Structural)]
pub enum GetOutcome {
    /// 404: there is none. This is an answer, not an error.
    Missing,
    /// Success: the body holds it.
    InBody,
    /// Anything else: the body says what went wrong.
    Refused,
}

/// What the status of the answer to a get says.
pub open spec fn get_outcome(status: u16) -> GetOutcome {
    if status == 404 {
        GetOutcome::Missing
    } else if 200 <= status <= 299 {
        GetOutcome::InBody
    } else {
        GetOutcome::Refused
    }
}

/// What the status of the answer to a get says.
pub fn read_get(status: u16) -> (r: GetOutcome)
    ensures
        r == get_outcome(status),
{
    if status == 404 {
        GetOutcome::Missing
    } else if 200 <= status && status <= 299 {
        GetOutcome::InBody
    } else {
        GetOutcome::Refused
    }
}

/// The error of a get that the store refused, with the body of its answer.
pub fn get_refused(subject: Subject, name: &str, body: &str) -> (r: ElasticError)
    ensures
        r@ == ElasticErrorView::Custom(
            "Error getting "@ + subject_word(subject) + " "@ + name@ + ": "@ + body@,
        ),
{
    let mut out = String::from_str("Error getting ");
    out.append(subject.word());
    out.append(" ");
    out.append(name);
    out.append(": ");
    out.append(body);
    ElasticError::Custom(out)
}

/// The error of a get whose answer does not hold what was asked for.
pub fn get_incomplete(subject: Subject, name: &str) -> (r: ElasticError)
    ensures
        r@ == ElasticErrorView::Custom(
            "Unexpected response: Got "@ + subject_word(subject) + " "@ + name@
                + " successfully, but response did not contain "@ + subject_word(subject) + "."@,
        ),
{
    let mut out = String::from_str("Unexpected response: Got ");
    out.append(subject.word());
    out.append(" ");
    out.append(name);
    out.append(" successfully, but response did not contain ");
    out.append(subject.word());
    out.append(".");
    ElasticError::Custom(out)
}

/// Where in the names of an answer's entries `name` first stands, if it
/// stands there. The store answers a get with entries by name; the one
/// under the name asked for is the one that counts.
pub fn find_named(names: &Vec<String>, name: &str) -> (r: Option<usize>)
    ensures
        r is Some <==> names.deep_view().contains(name@),
        r matches Some(i) ==> i < names.len() && names[i as int]@ == name@ && forall|j: int|
            0 <= j < i ==> names[j]@ != name@,
{
    let mut i: usize = 0;
    while i < names.len()
        invariant
            i <= names.len(),
            forall|j: int| 0 <= j < i ==> names[j]@ != name@,
        decreases names.len() - i,
    {
        if same_text(names[i].as_str(), name) {
            assert(names.deep_view()[i as int] == name@);
            return Some(i);
        }
        i += 1;
    }
    assert(!names.deep_view().contains(name@)) by {
        if names.deep_view().contains(name@) {
            let j = choose|j: int| 0 <= j < names.deep_view().len() && names.deep_view()[j] == name@;
            assert(names[j]@ == name@);
        }
    }
    None
}

/// What the answer to a delete says: with status 404 there was nothing to
/// delete, which is fine; with success it is deleted; anything else is an
/// error, of which the body has to be read.
pub open spec fn delete_outcome(status: u16) -> Option<bool> {
    if status == 404 {
        Some(false)
    } else if 200 <= status <= 299 {
        Some(true)
    } else {
        None
    }
}

/// What the status of the answer to a delete says: whether something was
/// deleted, or `None` where the store refused.
pub fn read_delete(status: u16) -> (r: Option<bool>)
    ensures
        r == delete_outcome(status),
{
    if status == 404 {
        Some(false)
    } else if 200 <= status && status <= 299 {
        Some(true)
    } else {
        None
    }
}

/// The error of a delete that the store refused, with the body of its
/// answer.
pub fn delete_refused(subject: Subject, body: &str) -> (r: ElasticError)
    ensures
        r@ == ElasticErrorView::Custom("Error deleting "@ + subject_word(subject) + ": "@ + body@),
{
    let mut out = String::from_str("Error deleting ");
    out.append(subject.word());
    out.append(": ");
    out.append(body);
    ElasticError::Custom(out)
}

/// Whether the answer to a put says that the store took the role or user:
/// only a status of success does.
pub open spec fn put_accepted(subject: Subject, status: u16) -> bool {
    200 <= status <= 299
}

/// Whether the answer to a put says that the store took the role or user.
pub fn read_put(subject: Subject, status: u16) -> (r: bool)
    ensures
        r == put_accepted(subject, status),
{
    200 <= status && status <= 299
}

/// The error of a put that the store refused, with the body of its answer.
pub fn put_refused(subject: Subject, name: &str, body: &str) -> (r: ElasticError)
    ensures
        r@ == ElasticErrorView::Custom(
            "Error creating "@ + subject_word(subject) + " "@ + name@ + ": "@ + body@,
        ),
{
    let mut out = String::from_str("Error creating ");
    out.append(subject.word());
    out.append(" ");
    out.append(name);
    out.append(": ");
    out.append(body);
    ElasticError::Custom(out)
}

} // verus!
