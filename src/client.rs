//! The client side of a request: the frame to send for a command, reading the
//! reply, and the interactive front end's reading of user input and display
//! of replies.

use vstd::prelude::*;
use vstd::string::*;
use crate::command::{command_text, Command};
use crate::error::{ProtocolError, ProtocolErrorView};
use crate::frame::{frame_of, serialize_message};
use crate::response::{parse_response, response_result_view, Response, ResponseView};
use crate::text::{decimal, same_text, trim_text, trimmed, u32_text};

verus! {

/// A line typed at the interactive prompt.
#[derive(Debug, Clone, Copy, PartialEq, Eq, Structural)]
pub enum UserInput {
    /// Send this command to the device.
    Send(Command),
    /// Show the list of commands.
    Help,
    /// Close the connection and leave.
    Exit,
    /// Anything else.
    Unknown,
}

/// Reading a prompt line: surrounding whitespace is ignored and the rest must
/// be one of the lower-case words exactly.
pub open spec fn input_meaning(line: Seq<char>) -> UserInput {
    let t = trimmed(line);
    if t == "on"@ {
        UserInput::Send(Command::TurnOn)
    } else if t == "off"@ {
        UserInput::Send(Command::TurnOff)
    } else if t == "status"@ {
        UserInput::Send(Command::GetStatus)
    } else if t == "info"@ {
        UserInput::Send(Command::GetInfo)
    } else if t == "help"@ {
        UserInput::Help
    } else if t == "exit"@ {
        UserInput::Exit
    } else {
        UserInput::Unknown
    }
}

/// How a reply is shown to the user.
pub open spec fn display_text(r: ResponseView) -> Seq<char> {
    match r {
        ResponseView::Okay(m) => m,
        ResponseView::Status { is_on, power } => "Socket is "@ + (if is_on {
            "ON"@
        } else {
            "OFF"@
        }) + ", power consumption: "@ + decimal(power as nat) + "W"@,
        ResponseView::Info(t) => t,
        ResponseView::Error(e) => "Error: "@ + e,
    }
}

/// The reply to a request: a frame that could not be read fails the request,
/// otherwise its text is read as a response.
pub open spec fn reply_of(frame: Result<Seq<char>, ProtocolErrorView>) -> Result<
    ResponseView,
    ProtocolErrorView,
> {
    match frame {
        Err(e) => Err(e),
        Ok(t) => parse_response(t),
    }
}

/// Reads a line typed at the prompt.
pub fn interpret_input(line: &str) -> (r: UserInput)
    ensures
        r == input_meaning(line@),
{
    let t = trim_text(line);
    if same_text(t, "on") {
        UserInput::Send(Command::TurnOn)
    } else if same_text(t, "off") {
        UserInput::Send(Command::TurnOff)
    } else if same_text(t, "status") {
        UserInput::Send(Command::GetStatus)
    } else if same_text(t, "info") {
        UserInput::Send(Command::GetInfo)
    } else if same_text(t, "help") {
        UserInput::Help
    } else if same_text(t, "exit") {
        UserInput::Exit
    } else {
        UserInput::Unknown
    }
}

/// The frame that carries a command.
pub fn request_frame(cmd: Command) -> (r: Vec<u8>)
    ensures
        r@ == frame_of(command_text(cmd)),
{
    let text = cmd.to_string();
    proof {
        reveal_strlit("ON");
        reveal_strlit("OFF");
        reveal_strlit("STATUS");
        reveal_strlit("INFO");
        vstd::utf8::is_ascii_chars_encode_utf8(text@);
    }
    serialize_message(text.as_str())
}

/// The reply to a request, from the outcome of reading its frame.
pub fn reply_from_frame(frame: Result<String, ProtocolError>) -> (r: Result<Response, ProtocolError>)
    ensures
        response_result_view(r) == reply_of(
            match frame {
                Ok(t) => Ok(t@),
                Err(e) => Err(e@),
            },
        ),
{
    match frame {
        Err(e) => Err(e),
        Ok(t) => Response::from_str(t.as_str()),
    }
}

/// A reply as shown to the user.
pub fn format_response(resp: &Response) -> (r: String)
    ensures
        r@ == display_text(resp@),
{
    match resp {
        Response::Okay(m) => m.clone(),
        Response::Status { is_on, power } => {
            let mut r = String::from_str("Socket is ");
            if *is_on {
                r.append("ON");
            } else {
                r.append("OFF");
            }
            r.append(", power consumption: ");
            let digits = u32_text(*power);
            r.append(digits.as_str());
            r.append("W");
            r
        },
        Response::Info(t) => t.clone(),
        Response::Error(e) => {
            let mut r = String::from_str("Error: ");
            r.append(e.as_str());
            r
        },
    }
}

} // verus!
