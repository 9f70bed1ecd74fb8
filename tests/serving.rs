use smart_socket::client::{
    format_response, interpret_input, reply_from_frame, request_frame, UserInput,
};
use smart_socket::handler::{on_frame, response_for, response_frame, DeviceReport, FrameStep};
use smart_socket::supervisor::{AcceptOutcome, ListenerAction, Supervisor};
use smart_socket::{read_message, serialize_message, Command, ProtocolError, Response};

fn reply_text(report: DeviceReport) -> String {
    response_for(report).to_string()
}

fn frame_text(frame: &[u8]) -> String {
    read_message(frame).unwrap()
}

#[test]
fn turn_on_then_status() {
    assert!(matches!(
        on_frame(Ok("ON".to_string())),
        FrameStep::Apply(Command::TurnOn)
    ));
    assert_eq!(reply_text(DeviceReport::SwitchedOn), "OK:Socket turned on");
    assert!(matches!(
        on_frame(Ok("STATUS".to_string())),
        FrameStep::Apply(Command::GetStatus)
    ));
    assert_eq!(
        reply_text(DeviceReport::Status { is_on: true, power: 3500 }),
        "STATUS:ON:3500"
    );
}

#[test]
fn turn_off_reply() {
    assert!(matches!(
        on_frame(Ok("OFF".to_string())),
        FrameStep::Apply(Command::TurnOff)
    ));
    assert_eq!(reply_text(DeviceReport::SwitchedOff), "OK:Socket turned off");
}

#[test]
fn bogus_command_is_answered_and_connection_kept() {
    match on_frame(Ok("BOGUS".to_string())) {
        FrameStep::Reply(r) => assert_eq!(r.to_string(), "ERROR:Invalid command: BOGUS"),
        other => panic!("unexpected step {:?}", other),
    }
    assert!(matches!(
        on_frame(Ok("INFO".to_string())),
        FrameStep::Apply(Command::GetInfo)
    ));
}

#[test]
fn info_carries_device_name() {
    let text = reply_text(DeviceReport::Description(
        "Kitchen Socket, Power: 3500W".to_string(),
    ));
    assert!(text.starts_with("INFO:"));
    assert!(text.contains("Kitchen Socket"));
}

#[test]
fn truncated_prefix_closes_connection() {
    let frame = read_message(&[0, 0]);
    assert!(matches!(frame, Err(ProtocolError::ConnectionError(_))));
    assert!(matches!(on_frame(frame), FrameStep::Close));
}

#[test]
fn status_reply_is_the_snapshot_taken() {
    for (is_on, power) in [(true, 0), (false, 3500), (true, u32::MAX)] {
        assert_eq!(
            response_for(DeviceReport::Status { is_on, power }),
            Response::Status { is_on, power }
        );
    }
}

#[test]
fn reply_frame_encodes_text() {
    let f = response_frame(&Response::Okay("Socket turned on".to_string())).unwrap();
    assert_eq!(f, serialize_message("OK:Socket turned on"));
    assert_eq!(frame_text(&f), "OK:Socket turned on");
}

#[test]
fn supervisor_admits_until_shutdown() {
    let mut s = Supervisor::new();
    assert!(s.accepting());
    assert_eq!(s.on_accept(AcceptOutcome::Idle), ListenerAction::Backoff);
    assert_eq!(s.on_accept(AcceptOutcome::Failed), ListenerAction::Retry);
    assert_eq!(s.on_accept(AcceptOutcome::Connected), ListenerAction::Spawn);
    assert_eq!(s.active(), 1);
    s.shutdown();
    assert!(!s.accepting());
    assert_eq!(s.on_accept(AcceptOutcome::Connected), ListenerAction::Drain);
    assert_eq!(s.on_accept(AcceptOutcome::Idle), ListenerAction::Drain);
    assert_eq!(s.active(), 1);
    assert!(!s.may_exit());
    s.on_handler_done();
    assert!(s.may_exit());
}

#[test]
fn prompt_words() {
    assert_eq!(interpret_input("on"), UserInput::Send(Command::TurnOn));
    assert_eq!(interpret_input(" off\n"), UserInput::Send(Command::TurnOff));
    assert_eq!(interpret_input("status"), UserInput::Send(Command::GetStatus));
    assert_eq!(interpret_input("info"), UserInput::Send(Command::GetInfo));
    assert_eq!(interpret_input("help"), UserInput::Help);
    assert_eq!(interpret_input("exit"), UserInput::Exit);
    assert_eq!(interpret_input("ON"), UserInput::Unknown);
    assert_eq!(interpret_input(""), UserInput::Unknown);
}

#[test]
fn request_frames() {
    assert_eq!(request_frame(Command::TurnOn), vec![0, 0, 0, 2, b'O', b'N']);
    assert_eq!(frame_text(&request_frame(Command::GetStatus)), "STATUS");
}

#[test]
fn displayed_replies() {
    assert_eq!(format_response(&Response::Okay("done".to_string())), "done");
    assert_eq!(
        format_response(&Response::Status { is_on: true, power: 100 }),
        "Socket is ON, power consumption: 100W"
    );
    assert_eq!(
        format_response(&Response::Status { is_on: false, power: 0 }),
        "Socket is OFF, power consumption: 0W"
    );
    assert_eq!(format_response(&Response::Info("i".to_string())), "i");
    assert_eq!(format_response(&Response::Error("e".to_string())), "Error: e");
}

fn client_reply(server_text: &str) -> Response {
    let bytes = serialize_message(server_text);
    reply_from_frame(read_message(&bytes)).unwrap()
}

#[test]
fn test_turn_on() {
    match client_reply("OK:Socket turned on") {
        Response::Okay(msg) => assert_eq!(msg, "Socket turned on"),
        _ => panic!("Unexpected response type"),
    }
}

#[test]
fn test_turn_off() {
    match client_reply("OK:Socket turned off") {
        Response::Okay(msg) => assert_eq!(msg, "Socket turned off"),
        _ => panic!("Unexpected response type"),
    }
}

#[test]
fn test_get_status() {
    match client_reply("STATUS:ON:100") {
        Response::Status { is_on, power } => {
            assert!(is_on);
            assert_eq!(power, 100);
        }
        _ => panic!("Unexpected response type"),
    }
}

#[test]
fn test_get_info() {
    match client_reply("INFO:Kitchen Socket, Power: 100W") {
        Response::Info(info) => assert!(info.contains("Kitchen Socket")),
        _ => panic!("Unexpected response type"),
    }
}

#[test]
fn failed_read_fails_the_request() {
    let e = ProtocolError::ConnectionError("gone".to_string());
    assert_eq!(reply_from_frame(Err(e.clone())), Err(e));
    assert_eq!(
        reply_from_frame(Ok("WHAT:x".to_string())),
        Err(ProtocolError::InvalidResponse("WHAT".to_string()))
    );
}
