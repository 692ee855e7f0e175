use federog::account::{display_name, is_valid_username, Account, MAX_USERNAME};

fn account(username: &str, name: Option<&str>) -> Account {
    Account {
        username: username.to_string(),
        name: name.map(str::to_string),
        handle: format!("@{username}@blog.example"),
    }
}

#[test]
fn usernames_are_lower_case_letters_digits_and_marks() {
    for username in ["a", "alice", "al-ice_9", "0", "_", "-", "z"] {
        assert!(is_valid_username(username), "{username}");
    }
    for username in ["", "Alice", "al ice", "alice!", "al/ice", "älice", "{", "`", ":", "/", "a\n"] {
        assert!(!is_valid_username(username), "{username}");
    }
}

#[test]
fn usernames_have_at_most_fifty_characters() {
    assert_eq!(MAX_USERNAME, 50);
    assert!(is_valid_username(&"a".repeat(50)));
    assert!(!is_valid_username(&"a".repeat(51)));
}

#[test]
fn an_account_is_shown_by_its_name() {
    assert_eq!(display_name(&account("alice", Some("Alice"))), "Alice");
}

#[test]
fn an_account_without_a_name_is_shown_by_its_username() {
    assert_eq!(display_name(&account("alice", None)), "alice");
    assert_eq!(display_name(&account("alice", Some(""))), "alice");
}

#[test]
fn a_duplicate_has_the_same_contents() {
    let copy = account("alice", Some("Alice")).duplicate();
    assert_eq!(copy.username, "alice");
    assert_eq!(copy.name.as_deref(), Some("Alice"));
    assert_eq!(copy.handle, "@alice@blog.example");
    assert_eq!(account("alice", None).duplicate().name, None);
}
