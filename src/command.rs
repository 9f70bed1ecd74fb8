//! The four commands a client can send, and their text form.

use vstd::prelude::*;
use vstd::string::*;
use crate::error::{ProtocolError, ProtocolErrorView};
use crate::text::{same_text, trim_end, trim_start, trim_text, trimmed};

verus! {

/// An instruction to the device; it carries no payload.
#[derive(Debug, Clone, Copy, PartialEq, Eq, Structural)]
pub enum Command {
    TurnOn,
    TurnOff,
    GetStatus,
    GetInfo,
}

/// The wire text of a command.
pub open spec fn command_text(c: Command) -> Seq<char> {
    match c {
        Command::TurnOn => "ON"@,
        Command::TurnOff => "OFF"@,
        Command::GetStatus => "STATUS"@,
        Command::GetInfo => "INFO"@,
    }
}

/// Reading a command: surrounding whitespace is ignored and the rest must be
/// one of the four words exactly; otherwise the text is rejected as given.
pub open spec fn parse_command(s: Seq<char>) -> Result<Command, ProtocolErrorView> {
    let t = trimmed(s);
    if t == "ON"@ {
        Ok(Command::TurnOn)
    } else if t == "OFF"@ {
        Ok(Command::TurnOff)
    } else if t == "STATUS"@ {
        Ok(Command::GetStatus)
    } else if t == "INFO"@ {
        Ok(Command::GetInfo)
    } else {
        Err(ProtocolErrorView::InvalidCommand(s))
    }
}

pub open spec fn command_result_view(r: Result<Command, ProtocolError>) -> Result<
    Command,
    ProtocolErrorView,
> {
    match r {
        Ok(c) => Ok(c),
        Err(e) => Err(e@),
    }
}

/// Reading back the text of any command gives that command.
pub proof fn lemma_command_round_trip(c: Command)
    ensures
        parse_command(command_text(c)) == Ok::<Command, ProtocolErrorView>(c),
{
    reveal_strlit("ON");
    reveal_strlit("OFF");
    reveal_strlit("STATUS");
    reveal_strlit("INFO");
    let s = command_text(c);
    assert(trim_start(s) == s);
    assert(trim_end(s) == s);
}

impl Command {
    /// Parses a command from its wire text.
    pub fn from_str(s: &str) -> (r: Result<Command, ProtocolError>)
        ensures
            command_result_view(r) == parse_command(s@),
    {
        let t = trim_text(s);
        if same_text(t, "ON") {
            Ok(Command::TurnOn)
        } else if same_text(t, "OFF") {
            Ok(Command::TurnOff)
        } else if same_text(t, "STATUS") {
            Ok(Command::GetStatus)
        } else if same_text(t, "INFO") {
            Ok(Command::GetInfo)
        } else {
            Err(ProtocolError::InvalidCommand(s.to_owned()))
        }
    }

    /// The wire text of this command.
    pub fn to_string(&self) -> (r: String)
        ensures
            r@ == command_text(*self),
    {
        match self {
            Command::TurnOn => String::from_str("ON"),
            Command::TurnOff => String::from_str("OFF"),
            Command::GetStatus => String::from_str("STATUS"),
            Command::GetInfo => String::from_str("INFO"),
        }
    }
}

} // verus!
