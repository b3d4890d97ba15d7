use exec_inspect::command::{is_allowed, known_commands, validate, InvalidCommand};

fn strings(items: &[&str]) -> Vec<String> {
    items.iter().map(|s| s.to_string()).collect()
}

#[test]
fn allowed_first_token_passes_whatever_follows() {
    assert_eq!(validate(&strings(&["whoami"])), Ok(()));
    assert_eq!(validate(&strings(&["whoami", "--help", "x y"])), Ok(()));
    assert_eq!(validate(&strings(&["candump", "-l", "can0"])), Ok(()));
    assert_eq!(validate(&strings(&["can-calc-bit-timing", "rm", "-rf", "/"])), Ok(()));
}

#[test]
fn empty_command_is_invalid() {
    assert_eq!(validate(&Vec::new()), Err(InvalidCommand::Empty));
}

#[test]
fn unknown_utility_is_invalid() {
    assert_eq!(
        validate(&strings(&["rm", "-rf", "/"])),
        Err(InvalidCommand::NotAllowed { token: "rm".to_string() })
    );
}

#[test]
fn only_the_first_token_is_checked() {
    assert_eq!(
        validate(&strings(&["bash", "whoami"])),
        Err(InvalidCommand::NotAllowed { token: "bash".to_string() })
    );
}

#[test]
fn membership_is_exact() {
    assert!(is_allowed(&"whoami".to_string()));
    assert!(is_allowed(&"slcan_attach".to_string()));
    assert!(!is_allowed(&"whoam".to_string()));
    assert!(!is_allowed(&"WHOAMI".to_string()));
    assert!(!is_allowed(&"whoami ".to_string()));
    assert!(!is_allowed(&"".to_string()));
}

#[test]
fn allow_list_has_every_known_utility() {
    let list = known_commands();
    assert_eq!(list.len(), 33);
    assert_eq!(list[0], "cansniffer");
    assert_eq!(list[32], "whoami");
    for name in &list {
        assert!(is_allowed(name));
    }
}

#[test]
fn refusal_messages_name_the_token() {
    let e = InvalidCommand::NotAllowed { token: "bash".to_string() };
    assert_eq!(e.message(), "Invalid command: bash");
    assert_eq!(InvalidCommand::Empty.message(), "Invalid command: no command given");
}
