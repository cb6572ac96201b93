//! Roles of the external store: a list of index patterns with the
//! privileges granted on them.

use vstd::prelude::*;
use vstd::std_specs::cmp::PartialEqSpecImpl;
use vstd::std_specs::convert::FromSpecImpl;
use vstd::string::*;

use crate::resource::UserPermissions;
use crate::text::{clone_texts, join, joined, same_text, same_texts};

verus! {

/// One thing a role may allow on the indices it names.
#[derive(Clone, Copy, Debug, PartialEq, Eq, Structural)]
pub enum Privilege {
    Read,
    Write,
    Create,
}

/// The name under which the external store knows a privilege.
pub open spec fn privilege_name(p: Privilege) -> Seq<char> {
    match p {
        Privilege::Read => "read"@,
        Privilege::Write => "write"@,
        Privilege::Create => "create"@,
    }
}

/// Whether `name` names a privilege.
pub open spec fn is_privilege_name(name: Seq<char>) -> bool {
    name == "read"@ || name == "write"@ || name == "create"@
}

/// The names of the privileges in `set`, in the order read, write, create.
pub open spec fn privilege_names(set: Set<Privilege>) -> Seq<Seq<char>> {
    (if set.contains(Privilege::Read) {
        seq!["read"@]
    } else {
        seq![]
    }) + (if set.contains(Privilege::Write) {
        seq!["write"@]
    } else {
        seq![]
    }) + (if set.contains(Privilege::Create) {
        seq!["create"@]
    } else {
        seq![]
    })
}

/// The privileges that `names` lists.
pub open spec fn privileges_named(names: Seq<Seq<char>>) -> Set<Privilege> {
    Set::new(|p: Privilege| names.contains(privilege_name(p)))
}

/// The privileges of a permission tier: each tier holds all of the tier below.
pub open spec fn tier_privileges(tier: UserPermissions) -> Set<Privilege> {
    match tier {
        UserPermissions::Read => set![Privilege::Read],
        UserPermissions::Write => set![Privilege::Read, Privilege::Write],
        UserPermissions::Create => set![Privilege::Read, Privilege::Write, Privilege::Create],
    }
}

/// The position of a tier among the three, lowest first.
pub open spec fn tier_rank(tier: UserPermissions) -> int {
    match tier {
        UserPermissions::Read => 0,
        UserPermissions::Write => 1,
        UserPermissions::Create => 2,
    }
}

/// A tier's privileges contain those of every lower tier, and more than
/// those of a strictly lower tier.
pub proof fn tiers_are_nested(lower: UserPermissions, higher: UserPermissions)
    ensures
        tier_rank(lower) <= tier_rank(higher) ==> tier_privileges(lower).subset_of(
            tier_privileges(higher),
        ),
        tier_rank(lower) < tier_rank(higher) ==> tier_privileges(lower) != tier_privileges(higher),
        tier_privileges(UserPermissions::Read).subset_of(tier_privileges(UserPermissions::Write)),
        tier_privileges(UserPermissions::Write).subset_of(tier_privileges(UserPermissions::Create)),
{
    assert(tier_privileges(UserPermissions::Write).contains(Privilege::Write));
    assert(!tier_privileges(UserPermissions::Read).contains(Privilege::Write));
    assert(tier_privileges(UserPermissions::Create).contains(Privilege::Create));
    assert(!tier_privileges(UserPermissions::Write).contains(Privilege::Create));
    assert(!tier_privileges(UserPermissions::Read).contains(Privilege::Create));
}

/// A set of privileges.
#[derive(Clone, Copy, Debug, PartialEq, Eq, Structural)]
pub struct Privileges {
    read: bool,
    write: bool,
    create: bool,
}

impl View for Privileges {
    type V = Set<Privilege>;

    closed spec fn view(&self) -> Set<Privilege> {
        Set::new(
            |p: Privilege|
                match p {
                    Privilege::Read => self.read,
                    Privilege::Write => self.write,
                    Privilege::Create => self.create,
                },
        )
    }
}

impl Default for Privileges {
    fn default() -> (r: Self)
        ensures
            r@ == Set::<Privilege>::empty(),
    {
        Self::new()
    }
}

impl From<UserPermissions> for Privileges {
    fn from(value: UserPermissions) -> (r: Self)
        ensures
            r@ == tier_privileges(value),
    {
        let r = match value {
            UserPermissions::Read => Privileges::new().enable_read(),
            UserPermissions::Write => Privileges::new().enable_read().enable_write(),
            UserPermissions::Create => Privileges::new().enable_read().enable_write().enable_create(),
        };
        proof {
            assert(r@ =~= tier_privileges(value));
            assert(Privileges::of_tier(value)@ =~= tier_privileges(value));
            r.view_is_injective(Privileges::of_tier(value));
        }
        r
    }
}

impl FromSpecImpl<UserPermissions> for Privileges {
    open spec fn obeys_from_spec() -> bool {
        true
    }

    open spec fn from_spec(value: UserPermissions) -> Self {
        Privileges::of_tier(value)
    }
}

impl Privileges {
    /// The one value whose view is the set of a tier's privileges.
    pub closed spec fn of_tier(tier: UserPermissions) -> Privileges {
        Privileges {
            read: true,
            write: tier != UserPermissions::Read,
            create: tier == UserPermissions::Create,
        }
    }

    /// Two values with the same privileges are the same value.
    pub proof fn view_is_injective(self, other: Privileges)
        ensures
            (self@ == other@) <==> (self == other),
    {
        if self@ == other@ {
            assert(self@.contains(Privilege::Read) == other@.contains(Privilege::Read));
            assert(self@.contains(Privilege::Write) == other@.contains(Privilege::Write));
            assert(self@.contains(Privilege::Create) == other@.contains(Privilege::Create));
        }
    }

    /// No privilege at all.
    pub fn new() -> (r: Self)
        ensures
            r@ == Set::<Privilege>::empty(),
    {
        let r = Self { read: false, write: false, create: false };
        assert(r@ =~= Set::<Privilege>::empty());
        r
    }

    /// The same privileges, and the one to read.
    pub fn enable_read(self) -> (r: Self)
        ensures
            r@ == self@.insert(Privilege::Read),
    {
        let r = Self { read: true, write: self.write, create: self.create };
        assert(r@ =~= self@.insert(Privilege::Read));
        r
    }

    /// The same privileges, and the one to write.
    pub fn enable_write(self) -> (r: Self)
        ensures
            r@ == self@.insert(Privilege::Write),
    {
        let r = Self { read: self.read, write: true, create: self.create };
        assert(r@ =~= self@.insert(Privilege::Write));
        r
    }

    /// The same privileges, and the one to create.
    pub fn enable_create(self) -> (r: Self)
        ensures
            r@ == self@.insert(Privilege::Create),
    {
        let r = Self { read: self.read, write: self.write, create: true };
        assert(r@ =~= self@.insert(Privilege::Create));
        r
    }

    /// Whether the set holds `p`.
    pub fn allows(&self, p: Privilege) -> (r: bool)
        ensures
            r == self@.contains(p),
    {
        match p {
            Privilege::Read => self.read,
            Privilege::Write => self.write,
            Privilege::Create => self.create,
        }
    }

    /// Whether both sets hold the same privileges.
    pub fn same_as(&self, other: &Privileges) -> (r: bool)
        ensures
            r == (self@ == other@),
    {
        proof {
            self.view_is_injective(*other);
        }
        self.read == other.read && self.write == other.write && self.create == other.create
    }

    /// The names of the privileges held, in the order read, write, create.
    /// This is the form in which the external store lists them.
    pub fn names(&self) -> (r: Vec<String>)
        ensures
            r.deep_view() == privilege_names(self@),
    {
        let mut out: Vec<String> = Vec::new();
        if self.read {
            out.push(String::from_str("read"));
        }
        if self.write {
            out.push(String::from_str("write"));
        }
        if self.create {
            out.push(String::from_str("create"));
        }
        assert(out.deep_view() =~= privilege_names(self@));
        out
    }

    /// The set that a list of privilege names stands for. A name that is
    /// none of read, write and create is refused: the first such name comes
    /// back as the error.
    pub fn from_names(names: &Vec<String>) -> (r: Result<Privileges, String>)
        ensures
            r is Ok <==> (forall|i: int|
                0 <= i < names.len() ==> is_privilege_name(#[trigger] names.deep_view()[i])),
            r matches Ok(p) ==> p@ == privileges_named(names.deep_view()),
            r matches Err(bad) ==> exists|i: int|
                0 <= i < names.len() && bad@ == #[trigger] names.deep_view()[i]
                    && !is_privilege_name(bad@) && forall|j: int|
                    0 <= j < i ==> is_privilege_name(#[trigger] names.deep_view()[j]),
    {
        let mut permissions = Privileges::new();
        let mut i: usize = 0;
        while i < names.len()
            invariant
                i <= names.len(),
                forall|j: int| 0 <= j < i ==> is_privilege_name(#[trigger] names.deep_view()[j]),
                permissions@ == privileges_named(names.deep_view().take(i as int)),
            decreases names.len() - i,
        {
            let name = names[i].as_str();
            let ghost before = names.deep_view().take(i as int);
            let ghost after = names.deep_view().take(i + 1);
            assert(after =~= before.push(name@));
            assert(names.deep_view()[i as int] == name@);
            assert forall|p: Privilege|
                after.contains(privilege_name(p)) == (before.contains(privilege_name(p))
                    || privilege_name(p) == name@) by {
                if before.contains(privilege_name(p)) {
                    let j = choose|j: int| 0 <= j < before.len() && before[j] == privilege_name(p);
                    assert(after[j] == privilege_name(p));
                }
                if privilege_name(p) == name@ {
                    assert(after[i as int] == privilege_name(p));
                }
            }
            proof {
                reveal_strlit("read");
                reveal_strlit("write");
                reveal_strlit("create");
            }
            if same_text(name, "read") {
                permissions = permissions.enable_read();
            } else if same_text(name, "write") {
                permissions = permissions.enable_write();
            } else if same_text(name, "create") {
                permissions = permissions.enable_create();
            } else {
                return Err(names[i].clone());
            }
            assert(permissions@ =~= privileges_named(after));
            i += 1;
        }
        assert(names.deep_view().take(names.len() as int) =~= names.deep_view());
        Ok(permissions)
    }

    /// The names of the privileges held, separated by a comma and a space.
    pub fn describe(&self) -> (r: String)
        ensures
            r@ == joined(privilege_names(self@), ", "@),
    {
        let names = self.names();
        join(&names, ", ")
    }
}

/// The privileges granted on the indices that match one of `names`.
#[derive(Debug)]
pub struct IndexPermission {
    pub names: Vec<String>,
    pub privileges: Privileges,
}

/// What contracts say of an [`IndexPermission`].
pub struct IndexPermissionView {
    pub names: Seq<Seq<char>>,
    pub privileges: Set<Privilege>,
}

/// How an index permission reads in a log line.
pub open spec fn index_permission_text(p: IndexPermissionView) -> Seq<char> {
    "["@ + joined(privilege_names(p.privileges), ", "@) + "] on ["@ + joined(p.names, ", "@) + "]"@
}

impl DeepView for IndexPermission {
    type V = IndexPermissionView;

    open spec fn deep_view(&self) -> IndexPermissionView {
        self@
    }
}

impl View for IndexPermission {
    type V = IndexPermissionView;

    open spec fn view(&self) -> IndexPermissionView {
        IndexPermissionView { names: self.names.deep_view(), privileges: self.privileges@ }
    }
}

impl Clone for IndexPermission {
    fn clone(&self) -> (r: Self)
        ensures
            r@ == self@,
    {
        IndexPermission { names: clone_texts(&self.names), privileges: self.privileges }
    }
}

impl PartialEq for IndexPermission {
    fn eq(&self, other: &Self) -> (r: bool) {
        same_texts(&self.names, &other.names) && self.privileges.same_as(&other.privileges)
    }
}

impl Eq for IndexPermission {

}

impl PartialEqSpecImpl for IndexPermission {
    open spec fn obeys_eq_spec() -> bool {
        true
    }

    open spec fn eq_spec(&self, other: &Self) -> bool {
        self@ == other@
    }
}

impl IndexPermission {
    /// `[privileges] on [names]`, each list separated by a comma and a space.
    pub fn describe(&self) -> (r: String)
        ensures
            r@ == index_permission_text(self@),
    {
        let mut out = String::from_str("[");
        out.append(self.privileges.describe().as_str());
        out.append("] on [");
        out.append(join(&self.names, ", ").as_str());
        out.append("]");
        out
    }
}

/// A role of the external store.
#[derive(Debug)]
pub struct Role {
    pub indices: Vec<IndexPermission>,
}

/// What contracts say of a [`Role`].
pub struct RoleView {
    pub indices: Seq<IndexPermissionView>,
}

/// How a role reads in a log line: its index permissions, separated by a
/// semicolon and a space.
pub open spec fn role_text(role: RoleView) -> Seq<char> {
    joined(role.indices.map_values(|p: IndexPermissionView| index_permission_text(p)), "; "@)
}

impl DeepView for Role {
    type V = RoleView;

    open spec fn deep_view(&self) -> RoleView {
        self@
    }
}

impl View for Role {
    type V = RoleView;

    open spec fn view(&self) -> RoleView {
        RoleView { indices: self.indices.deep_view() }
    }
}

impl Clone for Role {
    fn clone(&self) -> (r: Self)
        ensures
            r@ == self@,
    {
        let mut out: Vec<IndexPermission> = Vec::new();
        let mut i: usize = 0;
        while i < self.indices.len()
            invariant
                i <= self.indices.len(),
                out.len() == i,
                forall|j: int| 0 <= j < i ==> out[j]@ == self.indices[j]@,
            decreases self.indices.len() - i,
        {
            out.push(self.indices[i].clone());
            i += 1;
        }
        let r = Role { indices: out };
        assert(r@.indices =~= self@.indices);
        r
    }
}

impl PartialEq for Role {
    fn eq(&self, other: &Self) -> (r: bool) {
        if self.indices.len() != other.indices.len() {
            assert(self@.indices.len() != other@.indices.len());
            return false;
        }
        let mut i: usize = 0;
        while i < self.indices.len()
            invariant
                i <= self.indices.len(),
                self.indices.len() == other.indices.len(),
                forall|j: int| 0 <= j < i ==> self.indices[j]@ == other.indices[j]@,
            decreases self.indices.len() - i,
        {
            if !(self.indices[i] == other.indices[i]) {
                assert(self@.indices[i as int] != other@.indices[i as int]);
                return false;
            }
            i += 1;
        }
        assert(self@.indices =~= other@.indices);
        true
    }
}

impl Eq for Role {

}

impl PartialEqSpecImpl for Role {
    open spec fn obeys_eq_spec() -> bool {
        true
    }

    open spec fn eq_spec(&self, other: &Self) -> bool {
        self@ == other@
    }
}

impl Role {
    /// The role's index permissions as they read in a log line.
    pub fn describe(&self) -> (r: String)
        ensures
            r@ == role_text(self@),
    {
        let mut parts: Vec<String> = Vec::new();
        let mut i: usize = 0;
        while i < self.indices.len()
            invariant
                i <= self.indices.len(),
                parts.len() == i,
                forall|j: int| 0 <= j < i ==> parts[j]@ == index_permission_text(self.indices[j]@),
            decreases self.indices.len() - i,
        {
            parts.push(self.indices[i].describe());
            i += 1;
        }
        assert(parts.deep_view() =~= self@.indices.map_values(
            |p: IndexPermissionView| index_permission_text(p),
        ));
        join(&parts, "; ")
    }
}

} // verus!
