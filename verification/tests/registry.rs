use rustedbot::commands::registry::{is_builtin, register, Registry, RegistryError};
use rustedbot::commands::BuiltinCommand;

const NAMES: [(&str, BuiltinCommand); 11] = [
    ("commands", BuiltinCommand::Commands),
    ("ping", BuiltinCommand::Ping),
    ("addcmd", BuiltinCommand::AddCmd),
    ("delcmd", BuiltinCommand::DelCmd),
    ("updcmd", BuiltinCommand::UpdateCmd),
    ("trust", BuiltinCommand::Trust),
    ("untrust", BuiltinCommand::Untrust),
    ("clima", BuiltinCommand::Wttr),
    ("gtasa", BuiltinCommand::GTASA),
    ("node", BuiltinCommand::Node),
    ("odds", BuiltinCommand::Odds),
];

#[test]
fn every_kind_is_found_under_its_name() {
    for (name, command) in NAMES {
        assert_eq!(BuiltinCommand::from_string(name), Some(command));
        assert_eq!(command.name(), name);
    }
    assert_eq!(BuiltinCommand::from_string("wttr"), None);
    assert_eq!(BuiltinCommand::from_string(""), None);
    assert_eq!(BuiltinCommand::from_string("Ping"), None);
    assert_eq!(BuiltinCommand::from_string("ping "), None);
}

#[test]
fn the_commands_that_change_something_ask_for_trust() {
    let privileged = [
        BuiltinCommand::AddCmd,
        BuiltinCommand::DelCmd,
        BuiltinCommand::UpdateCmd,
        BuiltinCommand::Trust,
        BuiltinCommand::Untrust,
        BuiltinCommand::Node,
    ];
    for (_, command) in NAMES {
        assert_eq!(command.requires_trust(), privileged.contains(&command));
    }
}

#[test]
fn all_kinds_in_declared_order() {
    let all = BuiltinCommand::all();
    assert_eq!(all.len(), 11);
    for (i, (_, command)) in NAMES.iter().enumerate() {
        assert_eq!(all[i], *command);
    }
}

#[test]
fn a_new_registry_is_empty() {
    let registry = Registry::new();
    assert!(registry.all().is_empty());
    assert_eq!(registry.get("ping"), None);
    assert!(!is_builtin(&registry, "ping"));
}

#[test]
fn a_second_registration_under_the_same_name_is_rejected() {
    let mut registry = Registry::new();
    assert_eq!(register(&mut registry, BuiltinCommand::Ping), Ok(()));
    assert_eq!(register(&mut registry, BuiltinCommand::Odds), Ok(()));
    assert_eq!(register(&mut registry, BuiltinCommand::Ping), Err(RegistryError::Duplicate));
    assert_eq!(registry.all(), vec![BuiltinCommand::Ping, BuiltinCommand::Odds]);
    assert_eq!(registry.get("ping"), Some(BuiltinCommand::Ping));
    assert_eq!(registry.get("odds"), Some(BuiltinCommand::Odds));
    assert_eq!(registry.get("trust"), None);
}

#[test]
fn one_entry_per_name_in_the_registry_of_all() {
    let registry = Registry::with_builtins();
    let all = registry.all();
    assert_eq!(all, BuiltinCommand::all());
    for (i, a) in all.iter().enumerate() {
        for (j, b) in all.iter().enumerate() {
            assert_eq!(a.name() == b.name(), i == j);
        }
    }
    let mut again = Registry::with_builtins();
    for (_, command) in NAMES {
        assert_eq!(register(&mut again, command), Err(RegistryError::Duplicate));
    }
    assert_eq!(again.all().len(), 11);
}

#[test]
fn is_builtin_holds_of_the_registered_names_only() {
    let registry = Registry::with_builtins();
    for (name, command) in NAMES {
        assert!(is_builtin(&registry, name));
        assert_eq!(registry.get(name), Some(command));
        assert!(registry.contains(command));
    }
    for name in ["greet", "", "PING", "pong", "ping1", "wttr", "gta"] {
        assert!(!is_builtin(&registry, name));
        assert_eq!(registry.get(name), None);
    }
}

#[test]
fn a_name_that_was_never_registered_is_no_builtin() {
    let mut registry = Registry::new();
    assert_eq!(register(&mut registry, BuiltinCommand::Commands), Ok(()));
    assert!(is_builtin(&registry, "commands"));
    assert!(!is_builtin(&registry, "ping"));
    assert!(!registry.contains(BuiltinCommand::Ping));
}

#[test]
fn the_order_of_registration_does_not_show() {
    let mut first = Registry::new();
    assert_eq!(register(&mut first, BuiltinCommand::Ping), Ok(()));
    assert_eq!(register(&mut first, BuiltinCommand::Odds), Ok(()));
    assert_eq!(register(&mut first, BuiltinCommand::Commands), Ok(()));
    let mut second = Registry::new();
    assert_eq!(register(&mut second, BuiltinCommand::Odds), Ok(()));
    assert_eq!(register(&mut second, BuiltinCommand::Commands), Ok(()));
    assert_eq!(register(&mut second, BuiltinCommand::Ping), Ok(()));
    let declared = vec![BuiltinCommand::Commands, BuiltinCommand::Ping, BuiltinCommand::Odds];
    assert_eq!(first.all(), declared);
    assert_eq!(second.all(), declared);
}

#[test]
fn all_the_kinds_registered_backwards_are_listed_as_declared() {
    let mut registry = Registry::new();
    for (_, command) in NAMES.iter().rev() {
        assert_eq!(register(&mut registry, *command), Ok(()));
    }
    assert_eq!(registry.all(), BuiltinCommand::all());
}
