//! Users of the external store.

use vstd::prelude::*;
use vstd::string::*;

use crate::keyed::{
    absent_is_unmapped,
    count_pairs,
    distinct_keys,
    folded,
    pair_is_mapped,
    pairs_map,
    put_is_insert,
};
use crate::text::{
    clone_opt_text,
    clone_texts,
    join,
    joined,
    same_opt_text,
    same_text,
    same_texts,
};

verus! {

/// One entry of a user's metadata.
#[derive(Debug)]
pub struct MetadataEntry {
    pub key: String,
    pub value: String,
}

impl DeepView for MetadataEntry {
    type V = (Seq<char>, Seq<char>);

    open spec fn deep_view(&self) -> (Seq<char>, Seq<char>) {
        self@
    }
}

impl View for MetadataEntry {
    type V = (Seq<char>, Seq<char>);

    open spec fn view(&self) -> (Seq<char>, Seq<char>) {
        (self.key@, self.value@)
    }
}

impl Clone for MetadataEntry {
    fn clone(&self) -> (r: Self)
        ensures
            r@ == self@,
    {
        MetadataEntry { key: self.key.clone(), value: self.value.clone() }
    }
}

/// The metadata of a user: texts under keys, each key at most once.
#[derive(Debug)]
pub struct Metadata {
    entries: Vec<MetadataEntry>,
}

impl DeepView for Metadata {
    type V = Map<Seq<char>, Seq<char>>;

    open spec fn deep_view(&self) -> Map<Seq<char>, Seq<char>> {
        self@
    }
}

impl View for Metadata {
    type V = Map<Seq<char>, Seq<char>>;

    closed spec fn view(&self) -> Map<Seq<char>, Seq<char>> {
        pairs_map(self.entries.deep_view())
    }
}

impl Metadata {
    #[verifier::type_invariant]
    spec fn keys_are_distinct(&self) -> bool {
        distinct_keys(self.entries.deep_view())
    }

    /// Metadata without entries.
    pub fn new() -> (r: Self)
        ensures
            r@ == Map::<Seq<char>, Seq<char>>::empty(),
    {
        let r = Metadata { entries: Vec::new() };
        assert(r@ =~= Map::<Seq<char>, Seq<char>>::empty());
        r
    }

    /// The number of entries.
    pub fn len(&self) -> (r: usize)
        ensures
            r == self@.len(),
            self@.dom().finite(),
    {
        proof {
            use_type_invariant(self);
            count_pairs(self.entries.deep_view());
        }
        self.entries.len()
    }

    /// Where in the list the entry with `key` stands, if there is one.
    fn position(&self, key: &str) -> (r: Option<usize>)
        ensures
            r matches Some(i) ==> i < self.entries.len() && self.entries[i as int].key@ == key@,
            r is None ==> forall|j: int|
                0 <= j < self.entries.len() ==> (#[trigger] self.entries[j]).key@ != key@,
    {
        let mut i: usize = 0;
        while i < self.entries.len()
            invariant
                i <= self.entries.len(),
                forall|j: int| 0 <= j < i ==> (#[trigger] self.entries[j]).key@ != key@,
            decreases self.entries.len() - i,
        {
            if same_text(self.entries[i].key.as_str(), key) {
                return Some(i);
            }
            i += 1;
        }
        None
    }

    /// The text under `key`, if there is one.
    pub fn get(&self, key: &str) -> (r: Option<&String>)
        ensures
            r is Some <==> self@.contains_key(key@),
            r matches Some(value) ==> value@ == self@[key@],
    {
        proof {
            use_type_invariant(self);
        }
        let ghost pairs = self.entries.deep_view();
        match self.position(key) {
            Some(i) => {
                proof {
                    assert(pairs[i as int] == self.entries[i as int]@);
                    pair_is_mapped(pairs, i as int);
                }
                Some(&self.entries[i].value)
            },
            None => {
                proof {
                    assert forall|j: int| 0 <= j < pairs.len() implies (#[trigger] pairs[j]).0
                        != key@ by {
                        assert(pairs[j] == self.entries[j]@);
                    }
                    absent_is_unmapped(pairs, key@);
                }
                None
            },
        }
    }

    /// Puts `value` under `key`, in place of what was there.
    pub fn insert(&mut self, key: String, value: String)
        ensures
            final(self)@ == old(self)@.insert(key@, value@),
    {
        proof {
            use_type_invariant(&*self);
        }
        let ghost before = self.entries.deep_view();
        let ghost k = key@;
        let ghost v = value@;
        let found = self.position(key.as_str());
        let mut out: Vec<MetadataEntry> = Vec::new();
        let mut i: usize = 0;
        while i < self.entries.len()
            invariant
                i <= self.entries.len(),
                self.entries.deep_view() == before,
                out.len() == i,
                forall|j: int| 0 <= j < i ==> (#[trigger] out[j])@ == before[j],
            decreases self.entries.len() - i,
        {
            assert(before[i as int] == self.entries[i as int]@);
            out.push(self.entries[i].clone());
            i += 1;
        }
        match found {
            Some(at) => {
                out.set(at, MetadataEntry { key, value });
            },
            None => {
                out.push(MetadataEntry { key, value });
            },
        }
        proof {
            let after = out.deep_view();
            let at: int = match found {
                Some(at) => at as int,
                None => before.len() as int,
            };
            assert(after[at] == out[at]@);
            assert forall|j: int| 0 <= j < before.len() && j != at implies #[trigger] after[j]
                == before[j] by {
                assert(after[j] == out[j]@);
            }
            assert forall|j: int| 0 <= j < before.len() && j != at implies (#[trigger] before[j]).0
                != k by {
                assert(before[j] == self.entries[j]@);
                if found is Some {
                    assert(before[at] == self.entries[at]@);
                    if j < at {
                        assert(before[j].0 != before[at].0);
                    } else {
                        assert(before[at].0 != before[j].0);
                    }
                }
            }
            if found is Some {
                assert(before[at] == self.entries[at]@);
            }
            put_is_insert(before, after, at, k, v);
        }
        self.entries = out;
    }

    /// The entries, in the order in which their keys first came in. No key
    /// occurs twice among them.
    pub fn entries(&self) -> (r: &Vec<MetadataEntry>)
        ensures
            distinct_keys(r.deep_view()),
            pairs_map(r.deep_view()) == self@,
    {
        proof {
            use_type_invariant(self);
        }
        &self.entries
    }

    /// The metadata that holds each of `entries`; where a key occurs more
    /// than once, the last value stays.
    pub fn from_entries(entries: Vec<MetadataEntry>) -> (r: Self)
        ensures
            r@ == folded(entries.deep_view()),
    {
        let mut out = Metadata::new();
        let mut i: usize = 0;
        while i < entries.len()
            invariant
                i <= entries.len(),
                out@ == folded(entries.deep_view().take(i as int)),
            decreases entries.len() - i,
        {
            assert(entries.deep_view().take(i + 1).drop_last() =~= entries.deep_view().take(
                i as int,
            ));
            assert(entries.deep_view().take(i + 1).last() == entries[i as int]@);
            let e = entries[i].clone();
            out.insert(e.key, e.value);
            i += 1;
        }
        assert(entries.deep_view().take(entries.len() as int) =~= entries.deep_view());
        out
    }
}

impl Clone for Metadata {
    fn clone(&self) -> (r: Self)
        ensures
            r@ == self@,
    {
        proof {
            use_type_invariant(self);
        }
        let mut out: Vec<MetadataEntry> = Vec::new();
        let mut i: usize = 0;
        while i < self.entries.len()
            invariant
                i <= self.entries.len(),
                out.len() == i,
                forall|j: int| 0 <= j < i ==> (#[trigger] out[j])@ == self.entries[j]@,
            decreases self.entries.len() - i,
        {
            out.push(self.entries[i].clone());
            i += 1;
        }
        assert(out.deep_view() =~= self.entries.deep_view());
        Metadata { entries: out }
    }
}

/// A user of the external store. The store never hands a password out, and
/// the operator never reads metadata back: both only travel towards the store.
#[derive(Debug)]
pub struct User {
    pub password: Option<String>,
    pub roles: Vec<String>,
    pub full_name: Option<String>,
    pub email: Option<String>,
    pub metadata: Option<Metadata>,
}

/// What contracts say of a [`User`].
pub struct UserView {
    pub password: Option<Seq<char>>,
    pub roles: Seq<Seq<char>>,
    pub full_name: Option<Seq<char>>,
    pub email: Option<Seq<char>>,
    pub metadata: Option<Map<Seq<char>, Seq<char>>>,
}

/// Whether two users have the same roles, full name and email. These are
/// the attributes the store shows of a user.
pub open spec fn same_attributes(a: UserView, b: UserView) -> bool {
    a.roles == b.roles && a.full_name == b.full_name && a.email == b.email
}

/// A value that may be missing, as it reads in a log line.
pub open spec fn or_undefined(value: Option<Seq<char>>) -> Seq<char> {
    match value {
        Some(v) => v,
        None => "<undefined>"@,
    }
}

/// `[label before => after]`
pub open spec fn change_text(label: Seq<char>, before: Seq<char>, after: Seq<char>) -> Seq<char> {
    "["@ + label + " "@ + before + " => "@ + after + "]"@
}

/// One text for each attribute in which `target` differs from `old`, in the
/// order roles, full name, email, each with the value before and after.
pub open spec fn attribute_changes(target: UserView, old: UserView) -> Seq<Seq<char>> {
    (if target.roles != old.roles {
        seq![change_text("Roles"@, joined(old.roles, ", "@), joined(target.roles, ", "@))]
    } else {
        seq![]
    }) + (if target.full_name != old.full_name {
        seq![change_text("Name"@, or_undefined(old.full_name), or_undefined(target.full_name))]
    } else {
        seq![]
    }) + (if target.email != old.email {
        seq![change_text("Email"@, or_undefined(old.email), or_undefined(target.email))]
    } else {
        seq![]
    })
}

/// The changes that turn `old` into `target`, separated by a space; nothing
/// where the attributes are the same.
pub open spec fn delta_text(target: UserView, old: UserView) -> Option<Seq<char>> {
    if same_attributes(target, old) {
        None
    } else {
        Some(joined(attribute_changes(target, old), " "@))
    }
}

impl DeepView for User {
    type V = UserView;

    open spec fn deep_view(&self) -> UserView {
        self@
    }
}

impl View for User {
    type V = UserView;

    open spec fn view(&self) -> UserView {
        UserView {
            password: self.password.deep_view(),
            roles: self.roles.deep_view(),
            full_name: self.full_name.deep_view(),
            email: self.email.deep_view(),
            metadata: self.metadata.deep_view(),
        }
    }
}

impl Default for User {
    fn default() -> (r: Self)
        ensures
            r@ == (UserView {
                password: None,
                roles: Seq::empty(),
                full_name: None,
                email: None,
                metadata: None,
            }),
    {
        let r = User {
            password: None,
            roles: Vec::new(),
            full_name: None,
            email: None,
            metadata: None,
        };
        assert(r@.roles =~= Seq::empty());
        r
    }
}

impl Clone for User {
    fn clone(&self) -> (r: Self)
        ensures
            r@ == self@,
    {
        let metadata = match &self.metadata {
            Some(entries) => Some(entries.clone()),
            None => None,
        };
        User {
            password: clone_opt_text(&self.password),
            roles: clone_texts(&self.roles),
            full_name: clone_opt_text(&self.full_name),
            email: clone_opt_text(&self.email),
            metadata,
        }
    }
}

/// `[label before => after]`
fn describe_change(label: &str, before: &str, after: &str) -> (r: String)
    ensures
        r@ == change_text(label@, before@, after@),
{
    let mut out = String::from_str("[");
    out.append(label);
    out.append(" ");
    out.append(before);
    out.append(" => ");
    out.append(after);
    out.append("]");
    out
}

/// The value, or `<undefined>` where there is none.
fn text_or_undefined(value: &Option<String>) -> (r: String)
    ensures
        r@ == or_undefined(value.deep_view()),
{
    match value {
        Some(v) => v.clone(),
        None => String::from_str("<undefined>"),
    }
}

impl User {
    /// Whether `self` and `old` have the same roles, full name and email.
    pub fn is_same(&self, old: &Self) -> (r: bool)
        ensures
            r == same_attributes(self@, old@),
    {
        same_texts(&self.roles, &old.roles) && same_opt_text(&self.full_name, &old.full_name)
            && same_opt_text(&self.email, &old.email)
    }

    /// A description of what has to change to turn `old` into `self`: one
    /// bracketed text for each of roles, full name and email that differs,
    /// with the value before and after; `None` where none differs.
    pub fn delta_string(&self, old: &Self) -> (r: Option<String>)
        ensures
            r.deep_view() == delta_text(self@, old@),
            r is None <==> same_attributes(self@, old@),
    {
        let mut diffs: Vec<String> = Vec::new();
        if !same_texts(&self.roles, &old.roles) {
            let before = join(&old.roles, ", ");
            let after = join(&self.roles, ", ");
            diffs.push(describe_change("Roles", before.as_str(), after.as_str()));
        }
        assert(diffs.deep_view() =~= attribute_changes(self@, old@).take(diffs.len() as int));
        if !same_opt_text(&self.full_name, &old.full_name) {
            let before = text_or_undefined(&old.full_name);
            let after = text_or_undefined(&self.full_name);
            diffs.push(describe_change("Name", before.as_str(), after.as_str()));
        }
        assert(diffs.deep_view() =~= attribute_changes(self@, old@).take(diffs.len() as int));
        if !same_opt_text(&self.email, &old.email) {
            let before = text_or_undefined(&old.email);
            let after = text_or_undefined(&self.email);
            diffs.push(describe_change("Email", before.as_str(), after.as_str()));
        }
        assert(diffs.deep_view() =~= attribute_changes(self@, old@));
        if diffs.len() == 0 {
            None
        } else {
            Some(join(&diffs, " "))
        }
    }
}

} // verus!
