//! The command language of the terminal client.
//!
//! A line that starts with `/` is a command: the slashes, the command's name
//! up to the first space, and its arguments behind that space. Any other
//! line that is not blank is a chat message.

use vstd::prelude::*;
use vstd::string::*;
use crate::text::{
    after_first, before_first, split_at_first, starts_with, strip_leading, trim, trimmed,
    without_leading,
};

verus! {

/// What a command line asks for.
#[derive(Debug, PartialEq, Eq)]
pub enum Command {
    /// Leave the chat.
    Quit,
    /// Show the commands.
    Help,
    /// Go by this name from now on.
    Nick(String),
    /// `nick` came without a name: show how it is used.
    NickUsage,
    /// Clear the screen.
    Clear,
    /// List who is connected.
    Users,
    /// No command goes by this name.
    Unknown(String),
}

/// What a command is, as plain text.
pub enum CommandView {
    Quit,
    Help,
    Nick(Seq<char>),
    NickUsage,
    Clear,
    Users,
    Unknown(Seq<char>),
}

impl View for Command {
    type V = CommandView;

    open spec fn view(&self) -> CommandView {
        match self {
            Command::Quit => CommandView::Quit,
            Command::Help => CommandView::Help,
            Command::Nick(name) => CommandView::Nick(name@),
            Command::NickUsage => CommandView::NickUsage,
            Command::Clear => CommandView::Clear,
            Command::Users => CommandView::Users,
            Command::Unknown(name) => CommandView::Unknown(name@),
        }
    }
}

/// The command that goes by `name`, given `arguments`.
///
/// Only `nick` reads its arguments: trimmed of whitespace they are the new
/// name, and without any it asks for the usage note.
pub open spec fn command_named(name: Seq<char>, arguments: Seq<char>) -> CommandView {
    if name == "quit"@ {
        CommandView::Quit
    } else if name == "help"@ {
        CommandView::Help
    } else if name == "nick"@ {
        if trimmed(arguments).len() == 0 {
            CommandView::NickUsage
        } else {
            CommandView::Nick(trimmed(arguments))
        }
    } else if name == "clear"@ {
        CommandView::Clear
    } else if name == "users"@ {
        CommandView::Users
    } else {
        CommandView::Unknown(name)
    }
}

/// Whether a line is a command: whether it starts with `/`.
pub open spec fn is_command(line: Seq<char>) -> bool {
    line.len() > 0 && line[0] == '/'
}

/// The command a line stands for, if it is one.
pub open spec fn parsed(line: Seq<char>) -> Option<CommandView> {
    if is_command(line) {
        let body = without_leading(line, '/');
        Some(command_named(before_first(body, ' '), after_first(body, ' ')))
    } else {
        None
    }
}

/// Looks up the command that goes by `name`.
pub fn lookup(name: &str, arguments: &str) -> (command: Command)
    ensures
        command@ == command_named(name@, arguments@),
{
    if *name == *"quit" {
        Command::Quit
    } else if *name == *"help" {
        Command::Help
    } else if *name == *"nick" {
        let new_name = trim(arguments);
        if new_name.unicode_len() == 0 {
            Command::NickUsage
        } else {
            Command::Nick(String::from_str(new_name))
        }
    } else if *name == *"clear" {
        Command::Clear
    } else if *name == *"users" {
        Command::Users
    } else {
        Command::Unknown(String::from_str(name))
    }
}

/// Reads a line as a command. `None` means that the line is not one.
pub fn parse_command(line: &str) -> (command: Option<Command>)
    ensures
        match command {
            Some(command) => parsed(line@) == Some(command@),
            None => parsed(line@) is None,
        },
{
    if !starts_with(line, '/') {
        return None;
    }
    let body = strip_leading(line, '/');
    let (name, arguments) = split_at_first(body, ' ');
    Some(lookup(name, arguments))
}

/// What the client does with a line the user typed.
#[derive(Debug, PartialEq, Eq)]
pub enum LineAction {
    /// Carry out this command.
    Run(Command),
    /// Send the line, as it was typed, as a chat message.
    Send,
    /// The line is blank: show the prompt again.
    Redisplay,
}

/// What a line the user typed calls for, as plain text.
pub enum LineActionView {
    Run(CommandView),
    Send,
    Redisplay,
}

impl View for LineAction {
    type V = LineActionView;

    open spec fn view(&self) -> LineActionView {
        match self {
            LineAction::Run(command) => LineActionView::Run(command@),
            LineAction::Send => LineActionView::Send,
            LineAction::Redisplay => LineActionView::Redisplay,
        }
    }
}

/// What a typed line calls for: trimmed of whitespace, a line that starts
/// with `/` is a command, another that is not empty is a message, and an
/// empty one is blank.
pub open spec fn action_for(line: Seq<char>) -> LineActionView {
    let content = trimmed(line);
    if is_command(content) {
        LineActionView::Run(parsed(content)->0)
    } else if content.len() > 0 {
        LineActionView::Send
    } else {
        LineActionView::Redisplay
    }
}

/// Decides what to do with a line the user typed.
pub fn classify_line(line: &str) -> (action: LineAction)
    ensures
        action@ == action_for(line@),
{
    let content = trim(line);
    match parse_command(content) {
        Some(command) => LineAction::Run(command),
        None => {
            if content.unicode_len() > 0 {
                LineAction::Send
            } else {
                LineAction::Redisplay
            }
        },
    }
}

} // verus!
