use smart_socket::{Command, ProtocolError, Response};

fn parse(s: &str) -> Result<Response, ProtocolError> {
    Response::from_str(s)
}

#[test]
fn command_round_trip_each() {
    for c in [Command::TurnOn, Command::TurnOff, Command::GetStatus, Command::GetInfo] {
        assert_eq!(Command::from_str(c.to_string().as_str()), Ok(c));
    }
}

#[test]
fn command_texts() {
    assert_eq!(Command::TurnOn.to_string(), "ON");
    assert_eq!(Command::TurnOff.to_string(), "OFF");
    assert_eq!(Command::GetStatus.to_string(), "STATUS");
    assert_eq!(Command::GetInfo.to_string(), "INFO");
}

#[test]
fn command_ignores_surrounding_whitespace() {
    assert_eq!(Command::from_str("  STATUS\r\n"), Ok(Command::GetStatus));
    assert_eq!(Command::from_str("\tOFF "), Ok(Command::TurnOff));
}

#[test]
fn command_is_case_sensitive() {
    assert_eq!(
        Command::from_str("on"),
        Err(ProtocolError::InvalidCommand("on".to_string()))
    );
}

#[test]
fn command_rejects_unknown_text() {
    assert_eq!(
        Command::from_str("BOGUS"),
        Err(ProtocolError::InvalidCommand("BOGUS".to_string()))
    );
    assert_eq!(
        Command::from_str(""),
        Err(ProtocolError::InvalidCommand("".to_string()))
    );
}

#[test]
fn response_texts() {
    assert_eq!(Response::Okay("done".to_string()).to_string(), "OK:done");
    assert_eq!(
        Response::Status { is_on: true, power: 100 }.to_string(),
        "STATUS:ON:100"
    );
    assert_eq!(
        Response::Status { is_on: false, power: 0 }.to_string(),
        "STATUS:OFF:0"
    );
    assert_eq!(Response::Info("x".to_string()).to_string(), "INFO:x");
    assert_eq!(Response::Error("bad".to_string()).to_string(), "ERROR:bad");
}

#[test]
fn response_round_trip_each_shape() {
    let all = vec![
        Response::Okay("Socket turned on".to_string()),
        Response::Okay("a:b:c".to_string()),
        Response::Okay(String::new()),
        Response::Status { is_on: true, power: 3500 },
        Response::Status { is_on: false, power: u32::MAX },
        Response::Info("Kitchen Socket, Power: 100W".to_string()),
        Response::Error("Invalid command: X:Y".to_string()),
    ];
    for r in all {
        assert_eq!(parse(r.to_string().as_str()), Ok(r));
    }
}

#[test]
fn response_parses_status() {
    assert_eq!(
        parse("STATUS:ON:100"),
        Ok(Response::Status { is_on: true, power: 100 })
    );
    assert_eq!(
        parse("STATUS:on:5"),
        Ok(Response::Status { is_on: false, power: 5 })
    );
    assert_eq!(
        parse("STATUS:ON:100:extra"),
        Ok(Response::Status { is_on: true, power: 100 })
    );
    assert_eq!(
        parse("STATUS:OFF:+7"),
        Ok(Response::Status { is_on: false, power: 7 })
    );
}

#[test]
fn response_status_errors() {
    let pe = |s: &str| Err(ProtocolError::ParseError(s.to_string()));
    assert_eq!(parse("STATUS"), pe("Missing status data"));
    assert_eq!(parse("STATUS:ON"), pe("Missing power value"));
    assert_eq!(parse("STATUS:ON:abc"), pe("Invalid power value"));
    assert_eq!(parse("STATUS:ON:"), pe("Invalid power value"));
    assert_eq!(parse("STATUS:ON:4294967296"), pe("Invalid power value"));
    assert_eq!(parse("STATUS:ON:-1"), pe("Invalid power value"));
}

#[test]
fn response_missing_bodies() {
    let pe = |s: &str| Err(ProtocolError::ParseError(s.to_string()));
    assert_eq!(parse(""), pe("Empty response"));
    assert_eq!(parse("OK"), pe("Missing OK message"));
    assert_eq!(parse("INFO"), pe("Missing info message"));
    assert_eq!(parse("ERROR"), pe("Missing error message"));
}

#[test]
fn response_keeps_colons_in_body() {
    assert_eq!(parse("OK:a:b"), Ok(Response::Okay("a:b".to_string())));
    assert_eq!(parse("INFO::"), Ok(Response::Info(":".to_string())));
    assert_eq!(parse("ERROR:"), Ok(Response::Error(String::new())));
}

#[test]
fn response_unknown_tag() {
    assert_eq!(
        parse("FOO:bar"),
        Err(ProtocolError::InvalidResponse("FOO".to_string()))
    );
    assert_eq!(
        parse("ok:bar"),
        Err(ProtocolError::InvalidResponse("ok".to_string()))
    );
    assert_eq!(
        parse("NOPE"),
        Err(ProtocolError::InvalidResponse("NOPE".to_string()))
    );
}

#[test]
fn error_texts() {
    assert_eq!(
        ProtocolError::InvalidCommand("X".to_string()).to_string(),
        "Invalid command: X"
    );
    assert_eq!(
        ProtocolError::InvalidResponse("Y".to_string()).to_string(),
        "Invalid response: Y"
    );
    assert_eq!(
        ProtocolError::ConnectionError("Z".to_string()).to_string(),
        "Connection error: Z"
    );
    assert_eq!(
        ProtocolError::ParseError("W".to_string()).to_string(),
        "Parse error: W"
    );
}
