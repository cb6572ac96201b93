//! The credential secret: a small key/value store in which no key occurs
//! twice, and the rule that says what it has to hold.

use vstd::prelude::*;
use vstd::string::*;
use vstd::utf8::{decode_utf8, encode_utf8, valid_utf8};

use crate::keyed::{
    absent_is_unmapped,
    count_pairs,
    distinct_keys,
    folded,
    pair_is_mapped,
    pairs_map,
    put_is_insert,
};
use crate::password::{generate_password, is_generated_password};
use crate::text::{clone_bytes, same_bytes, same_text};
use crate::{SECRET_PASS, SECRET_URL, SECRET_USER};

verus! {

/// One entry of a secret.
#[derive(Debug)]
pub struct SecretEntry {
    pub key: String,
    pub value: Vec<u8>,
}

impl DeepView for SecretEntry {
    type V = (Seq<char>, Seq<u8>);

    open spec fn deep_view(&self) -> (Seq<char>, Seq<u8>) {
        self@
    }
}

impl View for SecretEntry {
    type V = (Seq<char>, Seq<u8>);

    open spec fn view(&self) -> (Seq<char>, Seq<u8>) {
        (self.key@, self.value@)
    }
}

impl Clone for SecretEntry {
    fn clone(&self) -> (r: Self)
        ensures
            r@ == self@,
    {
        SecretEntry { key: self.key.clone(), value: clone_bytes(&self.value) }
    }
}

/// The data of a secret: values under keys, each key at most once.
#[derive(Debug)]
pub struct SecretData {
    entries: Vec<SecretEntry>,
}

impl DeepView for SecretData {
    type V = Map<Seq<char>, Seq<u8>>;

    open spec fn deep_view(&self) -> Map<Seq<char>, Seq<u8>> {
        self@
    }
}

impl View for SecretData {
    type V = Map<Seq<char>, Seq<u8>>;

    closed spec fn view(&self) -> Map<Seq<char>, Seq<u8>> {
        pairs_map(self.entries.deep_view())
    }
}

impl SecretData {
    #[verifier::type_invariant]
    spec fn keys_are_distinct(&self) -> bool {
        distinct_keys(self.entries.deep_view())
    }

    /// A secret without entries.
    pub fn new() -> (r: Self)
        ensures
            r@ == Map::<Seq<char>, Seq<u8>>::empty(),
    {
        let r = SecretData { entries: Vec::new() };
        assert(r@ =~= Map::<Seq<char>, Seq<u8>>::empty());
        r
    }

    /// The number of entries.
    pub fn len(&self) -> (r: usize)
        ensures
            r == self@.len(),
            self@.dom().finite(),
    {
        proof {
            use_type_invariant(self);
            count_pairs(self.entries.deep_view());
        }
        self.entries.len()
    }

    /// Where in the list the entry with `key` stands, if there is one.
    fn position(&self, key: &str) -> (r: Option<usize>)
        ensures
            r matches Some(i) ==> i < self.entries.len() && self.entries[i as int].key@ == key@,
            r is None ==> forall|j: int|
                0 <= j < self.entries.len() ==> (#[trigger] self.entries[j]).key@ != key@,
    {
        let mut i: usize = 0;
        while i < self.entries.len()
            invariant
                i <= self.entries.len(),
                forall|j: int| 0 <= j < i ==> (#[trigger] self.entries[j]).key@ != key@,
            decreases self.entries.len() - i,
        {
            if same_text(self.entries[i].key.as_str(), key) {
                return Some(i);
            }
            i += 1;
        }
        None
    }

    /// The value under `key`, if there is one.
    pub fn get(&self, key: &str) -> (r: Option<&Vec<u8>>)
        ensures
            r is Some <==> self@.contains_key(key@),
            r matches Some(value) ==> value@ == self@[key@],
    {
        proof {
            use_type_invariant(self);
        }
        let ghost pairs = self.entries.deep_view();
        match self.position(key) {
            Some(i) => {
                proof {
                    assert(pairs[i as int] == self.entries[i as int]@);
                    pair_is_mapped(pairs, i as int);
                }
                Some(&self.entries[i].value)
            },
            None => {
                proof {
                    assert forall|j: int| 0 <= j < pairs.len() implies (#[trigger] pairs[j]).0
                        != key@ by {
                        assert(pairs[j] == self.entries[j]@);
                    }
                    absent_is_unmapped(pairs, key@);
                }
                None
            },
        }
    }

    /// Whether the value under `key` is `value`.
    pub fn holds(&self, key: &str, value: &Vec<u8>) -> (r: bool)
        ensures
            r == (self@.contains_key(key@) && self@[key@] == value@),
    {
        match self.get(key) {
            Some(found) => same_bytes(found, value),
            None => false,
        }
    }

    /// Puts `value` under `key`, in place of what was there.
    pub fn insert(&mut self, key: String, value: Vec<u8>)
        ensures
            final(self)@ == old(self)@.insert(key@, value@),
    {
        proof {
            use_type_invariant(&*self);
        }
        let ghost before = self.entries.deep_view();
        let ghost k = key@;
        let ghost v = value@;
        let found = self.position(key.as_str());
        let mut out: Vec<SecretEntry> = Vec::new();
        let mut i: usize = 0;
        while i < self.entries.len()
            invariant
                i <= self.entries.len(),
                self.entries.deep_view() == before,
                out.len() == i,
                forall|j: int| 0 <= j < i ==> (#[trigger] out[j])@ == before[j],
            decreases self.entries.len() - i,
        {
            assert(before[i as int] == self.entries[i as int]@);
            out.push(self.entries[i].clone());
            i += 1;
        }
        match found {
            Some(at) => {
                out.set(at, SecretEntry { key, value });
            },
            None => {
                out.push(SecretEntry { key, value });
            },
        }
        proof {
            let after = out.deep_view();
            let at: int = match found {
                Some(at) => at as int,
                None => before.len() as int,
            };
            assert(after[at] == out[at]@);
            assert forall|j: int| 0 <= j < before.len() && j != at implies #[trigger] after[j]
                == before[j] by {
                assert(after[j] == out[j]@);
            }
            assert forall|j: int| 0 <= j < before.len() && j != at implies (#[trigger] before[j]).0
                != k by {
                assert(before[j] == self.entries[j]@);
                if found is Some {
                    assert(before[at] == self.entries[at]@);
                    if j < at {
                        assert(before[j].0 != before[at].0);
                    } else {
                        assert(before[at].0 != before[j].0);
                    }
                }
            }
            if found is Some {
                assert(before[at] == self.entries[at]@);
            }
            put_is_insert(before, after, at, k, v);
        }
        self.entries = out;
    }

    /// The entries, in the order in which their keys first came in. No key
    /// occurs twice among them.
    pub fn entries(&self) -> (r: &Vec<SecretEntry>)
        ensures
            distinct_keys(r.deep_view()),
            pairs_map(r.deep_view()) == self@,
    {
        proof {
            use_type_invariant(self);
        }
        &self.entries
    }

    /// The secret that holds each of `entries`; where a key occurs more than
    /// once, the last value stays.
    pub fn from_entries(entries: Vec<SecretEntry>) -> (r: Self)
        ensures
            r@ == folded(entries.deep_view()),
    {
        let mut out = SecretData::new();
        let mut i: usize = 0;
        while i < entries.len()
            invariant
                i <= entries.len(),
                out@ == folded(entries.deep_view().take(i as int)),
            decreases entries.len() - i,
        {
            assert(entries.deep_view().take(i + 1).drop_last() =~= entries.deep_view().take(
                i as int,
            ));
            assert(entries.deep_view().take(i + 1).last() == entries[i as int]@);
            let e = entries[i].clone();
            out.insert(e.key, e.value);
            i += 1;
        }
        assert(entries.deep_view().take(entries.len() as int) =~= entries.deep_view());
        out
    }
}

impl Clone for SecretData {
    fn clone(&self) -> (r: Self)
        ensures
            r@ == self@,
    {
        proof {
            use_type_invariant(self);
        }
        let mut out: Vec<SecretEntry> = Vec::new();
        let mut i: usize = 0;
        while i < self.entries.len()
            invariant
                i <= self.entries.len(),
                out.len() == i,
                forall|j: int| 0 <= j < i ==> (#[trigger] out[j])@ == self.entries[j]@,
            decreases self.entries.len() - i,
        {
            out.push(self.entries[i].clone());
            i += 1;
        }
        assert(out.deep_view() =~= self.entries.deep_view());
        SecretData { entries: out }
    }
}

/// `std::str::Utf8Error`: why bytes are no UTF-8. Carried, never looked into.
#[verifier::external_type_specification]
#[verifier::external_body]
pub struct ExUtf8Error(std::str::Utf8Error);

/// `std::str::from_utf8`. Trusted: it accepts exactly the byte strings that
/// are valid UTF-8, and the string slice it hands out has those bytes.
pub assume_specification[ std::str::from_utf8 ](v: &[u8]) -> (r: Result<&str, std::str::Utf8Error>)
    ensures
        r is Ok <==> valid_utf8(v@),
        r matches Ok(s) ==> s.spec_bytes() == v@,
;

/// The text that `b` encodes, if it is valid UTF-8.
pub fn parse_bytes(b: &[u8]) -> (r: Option<&str>)
    ensures
        r is Some <==> valid_utf8(b@),
        r matches Some(s) ==> s@ == decode_utf8(b@),
{
    broadcast use vstd::utf8::encode_utf8_decode_utf8;

    match std::str::from_utf8(b) {
        Ok(s) => Some(s),
        Err(_) => None,
    }
}

/// The bytes that encode `s`.
pub fn text_bytes(s: &str) -> (r: Vec<u8>)
    ensures
        r@ == encode_utf8(s@),
{
    s.as_bytes_vec()
}


/// What has to be done to a secret so that it holds what it should.
#[derive(Clone, Copy, Debug, PartialEq, Eq, Structural)]
pub enum SecretWrite {
    /// Nothing: the secret holds what it should.
    Keep,
    /// There is no secret yet: create it.
    Create,
    /// The secret is there, but some entry is missing or wrong: patch it.
    Patch,
}

/// What a secret has to hold, and what has to be done to it.
#[derive(Debug)]
pub struct SecretPlan {
    pub data: SecretData,
    pub write: SecretWrite,
}

/// Whether a new password is needed: there is no secret, or it has none.
pub open spec fn lacks_password(observed: Option<Map<Seq<char>, Seq<u8>>>) -> bool {
    match observed {
        None => true,
        Some(data) => !data.contains_key(SECRET_PASS@),
    }
}

/// What the secret has to hold. The user name and the URL are the
/// operator's to decide; a password that is there stays, and only a missing
/// one is filled in with `fresh`; entries under other keys are left alone.
pub open spec fn planned_secret(
    observed: Option<Map<Seq<char>, Seq<u8>>>,
    username: Seq<char>,
    url: Seq<char>,
    fresh: Seq<char>,
) -> Map<Seq<char>, Seq<u8>> {
    let base = match observed {
        None => Map::empty(),
        Some(data) => data,
    };
    let settled = base.insert(SECRET_URL@, encode_utf8(url)).insert(
        SECRET_USER@,
        encode_utf8(username),
    );
    if lacks_password(observed) {
        settled.insert(SECRET_PASS@, encode_utf8(fresh))
    } else {
        settled
    }
}

/// What has to be done to the secret: create it where there is none, patch
/// it where an entry is missing or wrong, and else leave it.
pub open spec fn planned_write(
    observed: Option<Map<Seq<char>, Seq<u8>>>,
    username: Seq<char>,
    url: Seq<char>,
) -> SecretWrite {
    match observed {
        None => SecretWrite::Create,
        Some(data) => if data.contains_key(SECRET_URL@) && data[SECRET_URL@] == encode_utf8(url)
            && data.contains_key(SECRET_USER@) && data[SECRET_USER@] == encode_utf8(username)
            && data.contains_key(SECRET_PASS@) {
            SecretWrite::Keep
        } else {
            SecretWrite::Patch
        },
    }
}

/// The text under `key`, where there is an entry and it is valid UTF-8.
pub open spec fn text_under(data: Map<Seq<char>, Seq<u8>>, key: Seq<char>) -> Option<Seq<char>> {
    if data.contains_key(key) && valid_utf8(data[key]) {
        Some(decode_utf8(data[key]))
    } else {
        None
    }
}

/// The three keys of a secret are three different keys.
pub proof fn secret_keys_differ()
    ensures
        SECRET_USER@ != SECRET_PASS@,
        SECRET_USER@ != SECRET_URL@,
        SECRET_PASS@ != SECRET_URL@,
{
    reveal_strlit("ELASTICSEARCH_USERNAME");
    reveal_strlit("ELASTICSEARCH_PASSWORD");
    reveal_strlit("ELASTICSEARCH_URL");
    assert(SECRET_USER@[14] == 'U');
    assert(SECRET_PASS@[14] == 'P');
    assert(SECRET_URL@.len() == 17);
    assert(SECRET_USER@.len() == 22);
    assert(SECRET_PASS@.len() == 22);
}

/// What an apply reads back from a planned secret: the user name is the one
/// that was planned, and where the secret lacked a password, the password is
/// the fresh one.
pub proof fn credentials_are_read_back(
    observed: Option<Map<Seq<char>, Seq<u8>>>,
    username: Seq<char>,
    url: Seq<char>,
    fresh: Seq<char>,
)
    ensures
        text_under(planned_secret(observed, username, url, fresh), SECRET_USER@) == Some(username),
        lacks_password(observed) ==> text_under(
            planned_secret(observed, username, url, fresh),
            SECRET_PASS@,
        ) == Some(fresh),
{
    broadcast use vstd::utf8::encode_utf8_decode_utf8, vstd::utf8::encode_utf8_valid_utf8;

    secret_keys_differ();
}

/// A password that a secret holds stays: whatever fresh password is on
/// offer, the plan keeps the bytes that are there.
pub proof fn password_is_kept(
    data: Map<Seq<char>, Seq<u8>>,
    username: Seq<char>,
    url: Seq<char>,
    fresh: Seq<char>,
)
    requires
        data.contains_key(SECRET_PASS@),
    ensures
        planned_secret(Some(data), username, url, fresh).contains_key(SECRET_PASS@),
        planned_secret(Some(data), username, url, fresh)[SECRET_PASS@] == data[SECRET_PASS@],
{
    secret_keys_differ();
}

/// Once a secret has been brought to its plan, planning again with the same
/// user name and URL changes nothing and asks for no write, whatever fresh
/// password is on offer. Applied over and over, the password never changes.
pub proof fn planned_secret_is_settled(
    observed: Option<Map<Seq<char>, Seq<u8>>>,
    username: Seq<char>,
    url: Seq<char>,
    fresh: Seq<char>,
    later: Seq<char>,
)
    ensures
        ({
            let first = planned_secret(observed, username, url, fresh);
            &&& planned_write(Some(first), username, url) == SecretWrite::Keep
            &&& planned_secret(Some(first), username, url, later) == first
            &&& !lacks_password(Some(first))
        }),
{
    secret_keys_differ();
    let first = planned_secret(observed, username, url, fresh);
    assert(planned_secret(Some(first), username, url, later) =~= first);
}

/// What `n` rounds of planning make of a secret, each round with a fresh
/// password of its own on offer.
pub open spec fn planned_repeatedly(
    observed: Option<Map<Seq<char>, Seq<u8>>>,
    username: Seq<char>,
    url: Seq<char>,
    fresh: Seq<Seq<char>>,
) -> Option<Map<Seq<char>, Seq<u8>>>
    decreases fresh.len(),
{
    if fresh.len() == 0 {
        observed
    } else {
        Some(
            planned_secret(
                planned_repeatedly(observed, username, url, fresh.drop_last()),
                username,
                url,
                fresh.last(),
            ),
        )
    }
}

/// However often a secret is planned again, a password that it holds is
/// the one that it keeps.
pub proof fn password_is_stable(
    data: Map<Seq<char>, Seq<u8>>,
    username: Seq<char>,
    url: Seq<char>,
    fresh: Seq<Seq<char>>,
)
    requires
        data.contains_key(SECRET_PASS@),
    ensures
        planned_repeatedly(Some(data), username, url, fresh) matches Some(after)
            && after.contains_key(SECRET_PASS@) && after[SECRET_PASS@] == data[SECRET_PASS@],
    decreases fresh.len(),
{
    if fresh.len() > 0 {
        password_is_stable(data, username, url, fresh.drop_last());
        let before = planned_repeatedly(Some(data), username, url, fresh.drop_last())->0;
        password_is_kept(before, username, url, fresh.last());
    }
}

/// The plan for a secret of which `observed` is there, with `fresh` as the
/// password to use if the secret has none.
pub fn plan_secret(observed: Option<SecretData>, username: &str, url: &str, fresh: &str) -> (r:
    SecretPlan)
    ensures
        r.data@ == planned_secret(observed.deep_view(), username@, url@, fresh@),
        r.write == planned_write(observed.deep_view(), username@, url@),
{
    proof {
        secret_keys_differ();
    }
    match observed {
        None => {
            let mut data = SecretData::new();
            data.insert(SECRET_URL.to_string(), text_bytes(url));
            data.insert(SECRET_USER.to_string(), text_bytes(username));
            data.insert(SECRET_PASS.to_string(), text_bytes(fresh));
            SecretPlan { data, write: SecretWrite::Create }
        },
        Some(found) => {
            let mut data = found;
            let mut changed = false;
            if !data.holds(SECRET_URL, &text_bytes(url)) {
                changed = true;
            }
            data.insert(SECRET_URL.to_string(), text_bytes(url));
            if !data.holds(SECRET_USER, &text_bytes(username)) {
                changed = true;
            }
            data.insert(SECRET_USER.to_string(), text_bytes(username));
            if data.get(SECRET_PASS).is_none() {
                data.insert(SECRET_PASS.to_string(), text_bytes(fresh));
                changed = true;
            }
            SecretPlan {
                data,
                write: if changed {
                    SecretWrite::Patch
                } else {
                    SecretWrite::Keep
                },
            }
        },
    }
}

/// Whether a new password is needed for the secret of which `observed` is
/// there.
pub fn needs_password(observed: &Option<SecretData>) -> (r: bool)
    ensures
        r == lacks_password(observed.deep_view()),
{
    match observed {
        None => true,
        Some(data) => data.get(SECRET_PASS).is_none(),
    }
}

/// The plan for a secret of which `observed` is there. A password is drawn
/// at random only where the secret lacks one.
pub fn ensure_secret(observed: Option<SecretData>, username: &str, url: &str) -> (r: SecretPlan)
    ensures
        r.write == planned_write(observed.deep_view(), username@, url@),
        lacks_password(observed.deep_view()) ==> exists|fresh: Seq<char>|
            #[trigger] is_generated_password(fresh) && r.data@ == planned_secret(
                observed.deep_view(),
                username@,
                url@,
                fresh,
            ),
        !lacks_password(observed.deep_view()) ==> forall|fresh: Seq<char>|
            r.data@ == #[trigger] planned_secret(observed.deep_view(), username@, url@, fresh),
{
    if needs_password(&observed) {
        let fresh = generate_password();
        plan_secret(observed, username, url, fresh.as_str())
    } else {
        plan_secret(observed, username, url, "")
    }
}

/// The text under `key`, where there is an entry and it is valid UTF-8.
pub fn secret_text(data: &SecretData, key: &str) -> (r: Option<String>)
    ensures
        r.deep_view() == text_under(data@, key@),
{
    match data.get(key) {
        Some(bytes) => match parse_bytes(bytes.as_slice()) {
            Some(s) => Some(s.to_string()),
            None => None,
        },
        None => None,
    }
}

} // verus!
