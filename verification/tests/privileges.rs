use ext_elasticsearch_operator::elasticsearch::{IndexPermission, Privilege, Privileges, Role};
use ext_elasticsearch_operator::resource::UserPermissions;

fn names(list: &[&str]) -> Vec<String> {
    list.iter().map(|s| s.to_string()).collect()
}

#[test]
fn new_privileges_allow_nothing() {
    let p = Privileges::new();
    assert!(!p.allows(Privilege::Read));
    assert!(!p.allows(Privilege::Write));
    assert!(!p.allows(Privilege::Create));
    assert!(p == Privileges::default());
    assert_eq!(p.describe(), "");
    assert!(p.names().is_empty());
}

#[test]
fn enabling_adds_one_privilege() {
    let p = Privileges::new().enable_write();
    assert!(!p.allows(Privilege::Read));
    assert!(p.allows(Privilege::Write));
    assert!(!p.allows(Privilege::Create));
    let q = p.enable_create();
    assert!(q.allows(Privilege::Write));
    assert!(q.allows(Privilege::Create));
    assert!(q.enable_create() == q);
    assert!(Privileges::new().enable_read().allows(Privilege::Read));
}

#[test]
fn read_tier_grants_read() {
    let p = Privileges::from(UserPermissions::Read);
    assert!(p == Privileges::new().enable_read());
    assert_eq!(p.describe(), "read");
}

#[test]
fn write_tier_grants_read_and_write() {
    let p = Privileges::from(UserPermissions::Write);
    assert!(p.allows(Privilege::Read));
    assert!(p.allows(Privilege::Write));
    assert!(!p.allows(Privilege::Create));
    assert_eq!(p.describe(), "read, write");
}

#[test]
fn create_tier_grants_all() {
    let p = Privileges::from(UserPermissions::Create);
    assert!(p == Privileges::new().enable_read().enable_write().enable_create());
    assert_eq!(p.describe(), "read, write, create");
}

#[test]
fn tiers_are_nested() {
    let tiers = [UserPermissions::Read, UserPermissions::Write, UserPermissions::Create];
    let all = [Privilege::Read, Privilege::Write, Privilege::Create];
    for (i, lower) in tiers.iter().enumerate() {
        for higher in tiers.iter().skip(i) {
            let low = Privileges::from(*lower);
            let high = Privileges::from(*higher);
            for p in all.iter() {
                assert!(!low.allows(*p) || high.allows(*p));
            }
        }
    }
    assert!(Privileges::from(UserPermissions::Read) != Privileges::from(UserPermissions::Write));
    assert!(Privileges::from(UserPermissions::Write) != Privileges::from(UserPermissions::Create));
}

#[test]
fn names_are_listed_in_order() {
    let p = Privileges::new().enable_create().enable_read();
    assert_eq!(p.names(), names(&["read", "create"]));
    assert!(p.same_as(&Privileges::new().enable_read().enable_create()));
    assert!(!p.same_as(&Privileges::new().enable_read()));
}

#[test]
fn from_names_reads_any_order_and_repeats() {
    let p = Privileges::from_names(&names(&["write", "read", "write"])).expect("all are names");
    assert!(p == Privileges::from(UserPermissions::Write));
    let none = Privileges::from_names(&Vec::new()).expect("nothing to refuse");
    assert!(none == Privileges::new());
}

#[test]
fn from_names_refuses_the_first_unknown_name() {
    let refused = Privileges::from_names(&names(&["read", "delete", "manage"]));
    assert_eq!(refused, Err("delete".to_string()));
    assert_eq!(Privileges::from_names(&names(&["Read"])), Err("Read".to_string()));
}

#[test]
fn names_round_trip() {
    for tier in [UserPermissions::Read, UserPermissions::Write, UserPermissions::Create] {
        let p = Privileges::from(tier);
        assert_eq!(Privileges::from_names(&p.names()), Ok(p));
    }
}

#[test]
fn index_permission_reads_as_privileges_on_names() {
    let permission = IndexPermission {
        names: names(&["logs*", "metrics*"]),
        privileges: Privileges::from(UserPermissions::Write),
    };
    assert_eq!(permission.describe(), "[read, write] on [logs*, metrics*]");
    let empty = IndexPermission { names: Vec::new(), privileges: Privileges::new() };
    assert_eq!(empty.describe(), "[] on []");
}

#[test]
fn role_reads_as_its_index_permissions() {
    let role = Role {
        indices: vec![
            IndexPermission {
                names: names(&["logs*"]),
                privileges: Privileges::from(UserPermissions::Read),
            },
            IndexPermission {
                names: names(&["audit*"]),
                privileges: Privileges::from(UserPermissions::Create),
            },
        ],
    };
    assert_eq!(role.describe(), "[read] on [logs*]; [read, write, create] on [audit*]");
    assert_eq!(Role { indices: Vec::new() }.describe(), "");
}

#[test]
fn roles_are_equal_by_value() {
    let make = |name: &str, tier: UserPermissions| Role {
        indices: vec![IndexPermission {
            names: names(&[name]),
            privileges: Privileges::from(tier),
        }],
    };
    assert!(make("logs*", UserPermissions::Read) == make("logs*", UserPermissions::Read));
    assert!(make("logs*", UserPermissions::Read) != make("logs*", UserPermissions::Write));
    assert!(make("logs*", UserPermissions::Read) != make("log*", UserPermissions::Read));
    assert!(make("logs*", UserPermissions::Read) != Role { indices: Vec::new() });
    let copy = make("logs*", UserPermissions::Create).clone();
    assert!(copy == make("logs*", UserPermissions::Create));
}
