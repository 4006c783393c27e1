use cgpt::error::{exit_code, Failure};
use cgpt::types::{Message, Role};

#[test]
fn role_names_are_lowercase() {
    assert_eq!(Role::System.name(), "system");
    assert_eq!(Role::User.name(), "user");
    assert_eq!(Role::Assistant.name(), "assistant");
}

#[test]
fn role_is_found_by_its_name() {
    assert_eq!(Role::from_name("system"), Some(Role::System));
    assert_eq!(Role::from_name("user"), Some(Role::User));
    assert_eq!(Role::from_name("assistant"), Some(Role::Assistant));
}

#[test]
fn role_names_round_trip() {
    for role in [Role::System, Role::User, Role::Assistant] {
        assert_eq!(Role::from_name(role.name()), Some(role));
    }
}

#[test]
fn unknown_role_names_are_refused() {
    assert_eq!(Role::from_name("User"), None);
    assert_eq!(Role::from_name("tool"), None);
    assert_eq!(Role::from_name(""), None);
    assert_eq!(Role::from_name("user "), None);
}

#[test]
fn roles_are_ordered_as_declared() {
    assert!(Role::System < Role::User);
    assert!(Role::User < Role::Assistant);
}

#[test]
fn messages_are_equal_by_role_and_content() {
    let a = Message { role: Role::User, content: "A".to_string() };
    assert_eq!(a, Message { role: Role::User, content: "A".to_string() });
    assert_ne!(a, Message { role: Role::Assistant, content: "A".to_string() });
    assert_ne!(a, Message { role: Role::User, content: "B".to_string() });
    assert_eq!(a.clone(), a);
}

#[test]
fn exit_code_is_zero_only_on_success() {
    assert_eq!(exit_code(Ok(())), 0);
    for failure in [
        Failure::Config,
        Failure::StorageCorrupt,
        Failure::StorageWrite,
        Failure::Network,
        Failure::Decode,
        Failure::EmptyResponse,
    ] {
        assert_eq!(exit_code(Err(failure)), 1);
    }
}

#[test]
fn failures_are_told_apart() {
    let all = [
        Failure::Config,
        Failure::StorageCorrupt,
        Failure::StorageWrite,
        Failure::Network,
        Failure::Decode,
        Failure::EmptyResponse,
    ];
    for a in all {
        for b in all {
            assert_eq!(a.describe() == b.describe(), a == b);
        }
    }
    assert_eq!(Failure::Network.describe(), "network error: the service could not be reached");
}
