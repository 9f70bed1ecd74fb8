//! The decisions of a connection handler. The caller reads frames, performs
//! the device call under the device lock and writes frames; these functions
//! say what to do with each frame and what to answer.

use vstd::prelude::*;
use vstd::string::*;
use vstd::utf8::encode_utf8;
use crate::command::{parse_command, Command};
use crate::error::{error_text, ProtocolError};
use crate::frame::{frame_of, serialize_message};
use crate::response::{response_text, Response, ResponseView};

verus! {

/// What a connection does with the outcome of reading one frame.
#[derive(Debug)]
pub enum FrameStep {
    /// The peer is gone or the frame could not be read: end the connection.
    Close,
    /// A valid command: apply it to the device under exclusive access.
    Apply(Command),
    /// A protocol error: send this reply and keep serving.
    Reply(Response),
}

/// What the device did, or reported, while the handler held it.
#[derive(Debug)]
pub enum DeviceReport {
    SwitchedOn,
    SwitchedOff,
    Status { is_on: bool, power: u32 },
    Description(String),
}

pub open spec fn turned_on_text() -> Seq<char> {
    "Socket turned on"@
}

pub open spec fn turned_off_text() -> Seq<char> {
    "Socket turned off"@
}

/// The reply owed for what the device did or reported.
pub open spec fn report_response(report: DeviceReport) -> ResponseView {
    match report {
        DeviceReport::SwitchedOn => ResponseView::Okay(turned_on_text()),
        DeviceReport::SwitchedOff => ResponseView::Okay(turned_off_text()),
        DeviceReport::Status { is_on, power } => ResponseView::Status { is_on, power },
        DeviceReport::Description(d) => ResponseView::Info(d@),
    }
}

/// Decides what to do with one frame read from the peer.
pub fn on_frame(frame: Result<String, ProtocolError>) -> (r: FrameStep)
    ensures
        match frame {
            Err(_) => r is Close,
            Ok(text) => match parse_command(text@) {
                Ok(c) => r == FrameStep::Apply(c),
                Err(e) => match r {
                    FrameStep::Reply(resp) => resp@ == ResponseView::Error(error_text(e)),
                    _ => false,
                },
            },
        },
{
    match frame {
        Err(_) => FrameStep::Close,
        Ok(text) => match Command::from_str(text.as_str()) {
            Ok(c) => FrameStep::Apply(c),
            Err(e) => FrameStep::Reply(Response::Error(e.to_string())),
        },
    }
}

/// The reply to a command, from what the device did or reported for it.
pub fn response_for(report: DeviceReport) -> (r: Response)
    ensures
        r@ == report_response(report),
{
    match report {
        DeviceReport::SwitchedOn => Response::Okay(String::from_str("Socket turned on")),
        DeviceReport::SwitchedOff => Response::Okay(String::from_str("Socket turned off")),
        DeviceReport::Status { is_on, power } => Response::Status { is_on, power },
        DeviceReport::Description(d) => Response::Info(d),
    }
}

/// The frame that carries a reply, or `None` when its text is too long for
/// the length prefix.
pub fn response_frame(resp: &Response) -> (r: Option<Vec<u8>>)
    ensures
        match r {
            Some(f) => f@ == frame_of(response_text(resp@)),
            None => encode_utf8(response_text(resp@)).len() > u32::MAX,
        },
{
    let text = resp.to_string();
    let t = text.as_str();
    if t.as_bytes().len() <= 0xFFFF_FFFF {
        Some(serialize_message(t))
    } else {
        None
    }
}

} // verus!
