use librebot::registry::{command_from_name, resolve, CommandKind};

fn names(v: &[&str]) -> Vec<String> {
    v.iter().map(|s| s.to_string()).collect()
}

#[test]
fn resolve_drops_unknown_and_keeps_order() {
    let r = resolve(&names(&["ping", "bogus", "help"]));
    assert_eq!(r, vec![CommandKind::Ping, CommandKind::Help]);
}

#[test]
fn resolve_all_known_names() {
    let r = resolve(&names(&["server_info", "avatar", "about", "help", "ping"]));
    assert_eq!(
        r,
        vec![
            CommandKind::ServerInfo,
            CommandKind::Avatar,
            CommandKind::About,
            CommandKind::Help,
            CommandKind::Ping
        ]
    );
}

#[test]
fn resolve_empty_and_all_unknown() {
    assert_eq!(resolve(&Vec::new()), Vec::<CommandKind>::new());
    assert_eq!(resolve(&names(&["Ping", "pong", "", "server-info"])), Vec::<CommandKind>::new());
}

#[test]
fn resolve_keeps_duplicates() {
    let r = resolve(&names(&["ping", "ping"]));
    assert_eq!(r, vec![CommandKind::Ping, CommandKind::Ping]);
}

#[test]
fn lookup_each_name() {
    assert_eq!(command_from_name("ping"), Some(CommandKind::Ping));
    assert_eq!(command_from_name("help"), Some(CommandKind::Help));
    assert_eq!(command_from_name("about"), Some(CommandKind::About));
    assert_eq!(command_from_name("avatar"), Some(CommandKind::Avatar));
    assert_eq!(command_from_name("server_info"), Some(CommandKind::ServerInfo));
    assert_eq!(command_from_name("ping "), None);
    assert_eq!(command_from_name("HELP"), None);
}

#[test]
fn kind_names_round_trip() {
    for k in [
        CommandKind::Ping,
        CommandKind::Help,
        CommandKind::About,
        CommandKind::Avatar,
        CommandKind::ServerInfo,
    ] {
        assert_eq!(command_from_name(k.name()), Some(k));
    }
}
