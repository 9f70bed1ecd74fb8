//! The four response shapes and their colon-delimited text form.

use vstd::prelude::*;
use vstd::string::*;
use crate::error::{ProtocolError, ProtocolErrorView};
use crate::text::{
    decimal, lemma_decimal, lemma_split_colon_after, lemma_split_colon_none, no_colon, parse_u32, parse_u32_text, same_text, split_at_colon, split_colon, u32_text,
};

verus! {

/// A reply from the device side.
#[derive(Debug, Clone, PartialEq, Eq)]
pub enum Response {
    /// Generic success acknowledgement.
    Okay(String),
    /// Snapshot of the device state at the time of the query.
    Status { is_on: bool, power: u32 },
    /// Human-readable device description.
    Info(String),
    /// Protocol- or device-level failure.
    Error(String),
}

/// A response with its texts as character sequences.
pub enum ResponseView {
    Okay(Seq<char>),
    Status { is_on: bool, power: u32 },
    Info(Seq<char>),
    Error(Seq<char>),
}

impl View for Response {
    type V = ResponseView;

    open spec fn view(&self) -> ResponseView {
        match self {
            Response::Okay(m) => ResponseView::Okay(m@),
            Response::Status { is_on, power } => ResponseView::Status {
                is_on: *is_on,
                power: *power,
            },
            Response::Info(t) => ResponseView::Info(t@),
            Response::Error(m) => ResponseView::Error(m@),
        }
    }
}

/// The wire text of a response.
pub open spec fn response_text(r: ResponseView) -> Seq<char> {
    match r {
        ResponseView::Okay(m) => "OK:"@ + m,
        ResponseView::Status { is_on, power } => "STATUS:"@ + (if is_on {
            "ON"@
        } else {
            "OFF"@
        }) + ":"@ + decimal(power as nat),
        ResponseView::Info(t) => "INFO:"@ + t,
        ResponseView::Error(m) => "ERROR:"@ + m,
    }
}

/// The text before the first colon, or all of it when there is none.
pub open spec fn head_field(s: Seq<char>) -> Seq<char> {
    match split_colon(s) {
        Some((a, _)) => a,
        None => s,
    }
}

/// The text after the first colon, if there is one.
pub open spec fn tail_field(s: Seq<char>) -> Option<Seq<char>> {
    match split_colon(s) {
        Some((_, b)) => Some(b),
        None => None,
    }
}

/// Reading the body of a `STATUS` response: a state field (only `ON` means
/// on), then a power field that must be an unsigned 32-bit number; anything
/// after a further colon is ignored.
pub open spec fn parse_status(d: Seq<char>) -> Result<ResponseView, ProtocolErrorView> {
    match tail_field(d) {
        None => Err(ProtocolErrorView::ParseError("Missing power value"@)),
        Some(t) => match parse_u32(head_field(t)) {
            Some(p) => Ok(ResponseView::Status { is_on: head_field(d) == "ON"@, power: p }),
            None => Err(ProtocolErrorView::ParseError("Invalid power value"@)),
        },
    }
}

/// Reading a response: the tag before the first colon selects the shape and
/// the rest of the text is its body.
pub open spec fn parse_response(s: Seq<char>) -> Result<ResponseView, ProtocolErrorView> {
    let tag = head_field(s);
    let rest = tail_field(s);
    if s.len() == 0 {
        Err(ProtocolErrorView::ParseError("Empty response"@))
    } else if tag == "OK"@ {
        match rest {
            Some(m) => Ok(ResponseView::Okay(m)),
            None => Err(ProtocolErrorView::ParseError("Missing OK message"@)),
        }
    } else if tag == "STATUS"@ {
        match rest {
            Some(d) => parse_status(d),
            None => Err(ProtocolErrorView::ParseError("Missing status data"@)),
        }
    } else if tag == "INFO"@ {
        match rest {
            Some(t) => Ok(ResponseView::Info(t)),
            None => Err(ProtocolErrorView::ParseError("Missing info message"@)),
        }
    } else if tag == "ERROR"@ {
        match rest {
            Some(m) => Ok(ResponseView::Error(m)),
            None => Err(ProtocolErrorView::ParseError("Missing error message"@)),
        }
    } else {
        Err(ProtocolErrorView::InvalidResponse(tag))
    }
}

pub open spec fn response_result_view(r: Result<Response, ProtocolError>) -> Result<
    ResponseView,
    ProtocolErrorView,
> {
    match r {
        Ok(v) => Ok(v@),
        Err(e) => Err(e@),
    }
}

proof fn lemma_fields(p: Seq<char>, q: Seq<char>)
    requires
        no_colon(p),
    ensures
        head_field(p + seq![':'] + q) == p,
        tail_field(p + seq![':'] + q) == Some(q),
{
    lemma_split_colon_after(p, q);
}

/// Reading back the text of any response gives that response: the tag ends
/// at the first colon, and the body of each shape is kept whole, colons and
/// all.
pub proof fn lemma_response_round_trip(r: ResponseView)
    ensures
        parse_response(response_text(r)) == Ok::<ResponseView, ProtocolErrorView>(r),
{
    reveal_strlit("OK");
    reveal_strlit("OK:");
    reveal_strlit("STATUS");
    reveal_strlit("STATUS:");
    reveal_strlit("INFO");
    reveal_strlit("INFO:");
    reveal_strlit("ERROR");
    reveal_strlit("ERROR:");
    reveal_strlit("ON");
    reveal_strlit("OFF");
    reveal_strlit(":");
    let s = response_text(r);
    match r {
        ResponseView::Okay(m) => {
            assert(s =~= "OK"@ + seq![':'] + m);
            lemma_fields("OK"@, m);
        },
        ResponseView::Status { is_on, power } => {
            let st = if is_on { "ON"@ } else { "OFF"@ };
            let dec = decimal(power as nat);
            let d = st + seq![':'] + dec;
            assert(s =~= "STATUS"@ + seq![':'] + d);
            lemma_fields("STATUS"@, d);
            lemma_fields(st, dec);
            lemma_decimal(power as nat);
            lemma_split_colon_none(dec);
            assert(parse_u32(dec) == Some(power));
        },
        ResponseView::Info(t) => {
            assert(s =~= "INFO"@ + seq![':'] + t);
            lemma_fields("INFO"@, t);
        },
        ResponseView::Error(m) => {
            assert(s =~= "ERROR"@ + seq![':'] + m);
            lemma_fields("ERROR"@, m);
        },
    }
}

fn parse_error(detail: &str) -> (r: Result<Response, ProtocolError>)
    ensures
        response_result_view(r) == Err::<ResponseView, ProtocolErrorView>(
            ProtocolErrorView::ParseError(detail@),
        ),
{
    Err(ProtocolError::ParseError(detail.to_owned()))
}

fn split_fields(s: &str) -> (r: (&str, Option<&str>))
    ensures
        r.0@ == head_field(s@),
        match r.1 {
            Some(b) => tail_field(s@) == Some(b@),
            None => tail_field(s@) is None,
        },
{
    match split_at_colon(s) {
        Some((a, b)) => (a, Some(b)),
        None => (s, None),
    }
}

fn status_from_body(d: &str) -> (r: Result<Response, ProtocolError>)
    ensures
        response_result_view(r) == parse_status(d@),
{
    let (state, tail) = split_fields(d);
    match tail {
        None => parse_error("Missing power value"),
        Some(t) => {
            let (token, _) = split_fields(t);
            match parse_u32_text(token) {
                Some(p) => Ok(Response::Status { is_on: same_text(state, "ON"), power: p }),
                None => parse_error("Invalid power value"),
            }
        },
    }
}

impl Response {
    /// Parses a response from its wire text.
    pub fn from_str(s: &str) -> (r: Result<Response, ProtocolError>)
        ensures
            response_result_view(r) == parse_response(s@),
    {
        if s.is_empty() {
            return parse_error("Empty response");
        }
        let (tag, rest) = split_fields(s);
        if same_text(tag, "OK") {
            match rest {
                Some(m) => Ok(Response::Okay(m.to_owned())),
                None => parse_error("Missing OK message"),
            }
        } else if same_text(tag, "STATUS") {
            match rest {
                Some(d) => status_from_body(d),
                None => parse_error("Missing status data"),
            }
        } else if same_text(tag, "INFO") {
            match rest {
                Some(t) => Ok(Response::Info(t.to_owned())),
                None => parse_error("Missing info message"),
            }
        } else if same_text(tag, "ERROR") {
            match rest {
                Some(m) => Ok(Response::Error(m.to_owned())),
                None => parse_error("Missing error message"),
            }
        } else {
            Err(ProtocolError::InvalidResponse(tag.to_owned()))
        }
    }

    /// The wire text of this response.
    pub fn to_string(&self) -> (r: String)
        ensures
            r@ == response_text(self@),
    {
        match self {
            Response::Okay(m) => {
                let mut r = String::from_str("OK:");
                r.append(m.as_str());
                r
            },
            Response::Status { is_on, power } => {
                let mut r = String::from_str("STATUS:");
                if *is_on {
                    r.append("ON");
                } else {
                    r.append("OFF");
                }
                r.append(":");
                let digits = u32_text(*power);
                r.append(digits.as_str());
                r
            },
            Response::Info(t) => {
                let mut r = String::from_str("INFO:");
                r.append(t.as_str());
                r
            },
            Response::Error(m) => {
                let mut r = String::from_str("ERROR:");
                r.append(m.as_str());
                r
            },
        }
    }
}

} // verus!
