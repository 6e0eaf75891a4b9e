use vstd::prelude::*;
use vstd::string::*;

use crate::text::same_text;

verus! {

/// A line typed on the operator console.
#[derive(Clone, Copy, Debug, PartialEq, Eq, Structural)]
pub enum ConsoleCommand {
    Stop,
    Status,
    DebugOn,
    DebugOff,
    Unknown,
}

/// What the console does with one line: the debug flag afterwards, the line it
/// prints, and whether the process ends.
#[derive(Clone, Debug, PartialEq)]
pub struct ConsoleOutcome {
    pub debug: bool,
    pub message: String,
    pub exit: bool,
}

/// The command that a console line stands for.
pub open spec fn console_command_of(line: Seq<char>) -> ConsoleCommand {
    if line == "stop"@ {
        ConsoleCommand::Stop
    } else if line == "status"@ {
        ConsoleCommand::Status
    } else if line == "debug on"@ {
        ConsoleCommand::DebugOn
    } else if line == "debug off"@ {
        ConsoleCommand::DebugOff
    } else {
        ConsoleCommand::Unknown
    }
}

/// The debug flag after a console line.
pub open spec fn debug_after(debug: bool, line: Seq<char>) -> bool {
    match console_command_of(line) {
        ConsoleCommand::DebugOn => true,
        ConsoleCommand::DebugOff => false,
        _ => debug,
    }
}

/// The line that the console prints for a console line.
pub open spec fn console_message(bot_name: Seq<char>, line: Seq<char>) -> Seq<char> {
    match console_command_of(line) {
        ConsoleCommand::Stop => "Stopping the bot..."@,
        ConsoleCommand::Status => "The bot '"@ + bot_name + "' is running."@,
        ConsoleCommand::DebugOn => "Debug mode enabled."@,
        ConsoleCommand::DebugOff => "Debug mode disabled."@,
        ConsoleCommand::Unknown => "Unknown command: "@ + line,
    }
}

/// Recognises a console line; anything but the four commands, exactly as
/// written, is unknown.
pub fn parse_console_line(line: &str) -> (r: ConsoleCommand)
    ensures
        r == console_command_of(line@),
{
    if same_text(line, "stop") {
        ConsoleCommand::Stop
    } else if same_text(line, "status") {
        ConsoleCommand::Status
    } else if same_text(line, "debug on") {
        ConsoleCommand::DebugOn
    } else if same_text(line, "debug off") {
        ConsoleCommand::DebugOff
    } else {
        ConsoleCommand::Unknown
    }
}

/// Handles one console line, given the debug flag and the bot's name.
pub fn console_step(debug: bool, bot_name: &str, line: &str) -> (r: ConsoleOutcome)
    ensures
        r.debug == debug_after(debug, line@),
        r.message@ == console_message(bot_name@, line@),
        r.exit == (console_command_of(line@) == ConsoleCommand::Stop),
{
    match parse_console_line(line) {
        ConsoleCommand::Stop => ConsoleOutcome {
            debug,
            message: String::from_str("Stopping the bot..."),
            exit: true,
        },
        ConsoleCommand::Status => {
            let mut message = String::from_str("The bot '");
            message.append(bot_name);
            message.append("' is running.");
            ConsoleOutcome { debug, message, exit: false }
        },
        ConsoleCommand::DebugOn => ConsoleOutcome {
            debug: true,
            message: String::from_str("Debug mode enabled."),
            exit: false,
        },
        ConsoleCommand::DebugOff => ConsoleOutcome {
            debug: false,
            message: String::from_str("Debug mode disabled."),
            exit: false,
        },
        ConsoleCommand::Unknown => {
            let mut message = String::from_str("Unknown command: ");
            message.append(line);
            ConsoleOutcome { debug, message, exit: false }
        },
    }
}

/// `stop` ends the process; `status` ends nothing, leaves the debug flag as it
/// was and prints a line that holds the bot's name.
pub proof fn lemma_stop_and_status(debug: bool, bot_name: Seq<char>)
    ensures
        console_command_of("stop"@) == ConsoleCommand::Stop,
        console_command_of("status"@) == ConsoleCommand::Status,
        debug_after(debug, "status"@) == debug,
        console_message(bot_name, "status"@).subrange(
            "The bot '"@.len() as int,
            ("The bot '"@.len() + bot_name.len()) as int,
        ) == bot_name,
{
    reveal_strlit("stop");
    reveal_strlit("status");
    reveal_strlit("The bot '");
    reveal_strlit("' is running.");
    assert("status"@.len() != "stop"@.len());
    let m = console_message(bot_name, "status"@);
    assert(m.subrange("The bot '"@.len() as int, ("The bot '"@.len() + bot_name.len()) as int) =~= bot_name);
}

} // verus!
