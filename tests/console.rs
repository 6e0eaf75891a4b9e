use librebot::console::{console_step, parse_console_line, ConsoleCommand};

#[test]
fn recognises_commands() {
    assert_eq!(parse_console_line("stop"), ConsoleCommand::Stop);
    assert_eq!(parse_console_line("status"), ConsoleCommand::Status);
    assert_eq!(parse_console_line("debug on"), ConsoleCommand::DebugOn);
    assert_eq!(parse_console_line("debug off"), ConsoleCommand::DebugOff);
    assert_eq!(parse_console_line("debug"), ConsoleCommand::Unknown);
    assert_eq!(parse_console_line(" stop"), ConsoleCommand::Unknown);
    assert_eq!(parse_console_line(""), ConsoleCommand::Unknown);
}

#[test]
fn stop_exits() {
    let o = console_step(true, "librebot", "stop");
    assert!(o.exit);
    assert_eq!(o.message, "Stopping the bot...");
}

#[test]
fn status_keeps_state_and_names_bot() {
    for debug in [false, true] {
        let o = console_step(debug, "librebot", "status");
        assert!(!o.exit);
        assert_eq!(o.debug, debug);
        assert_eq!(o.message, "The bot 'librebot' is running.");
    }
}

#[test]
fn debug_toggles() {
    let on = console_step(false, "b", "debug on");
    assert!(on.debug && !on.exit);
    assert_eq!(on.message, "Debug mode enabled.");
    let off = console_step(on.debug, "b", "debug off");
    assert!(!off.debug && !off.exit);
    assert_eq!(off.message, "Debug mode disabled.");
}

#[test]
fn unknown_line_is_echoed() {
    let o = console_step(true, "b", "restart");
    assert!(o.debug && !o.exit);
    assert_eq!(o.message, "Unknown command: restart");
}
