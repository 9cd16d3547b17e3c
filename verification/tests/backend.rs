use arkouda_proxy::backend::{
    assemble_envelope, decimal_string, encode_command, outcome_of_exchange, Exchange,
};
use arkouda_proxy::message::{CommandRequest, ErrorKind, Outcome, Status};

fn request(user: &str, cmd: &str, args: &str, id: &str) -> CommandRequest {
    CommandRequest {
        user: user.to_string(),
        cmd: cmd.to_string(),
        format: "STRING".to_string(),
        token: "tok".to_string(),
        size: 2,
        args: args.to_string(),
        request_id: id.to_string(),
    }
}

#[test]
fn decimal_string_of_small_numbers() {
    assert_eq!(decimal_string(0), "0");
    assert_eq!(decimal_string(7), "7");
    assert_eq!(decimal_string(10), "10");
    assert_eq!(decimal_string(-1), "-1");
    assert_eq!(decimal_string(1203), "1203");
    assert_eq!(decimal_string(-905), "-905");
}

#[test]
fn decimal_string_of_the_limits() {
    assert_eq!(decimal_string(i32::MAX), "2147483647");
    assert_eq!(decimal_string(i32::MIN), "-2147483648");
}

#[test]
fn decimal_string_agrees_with_the_json_encoder() {
    for n in [0, 1, -1, 9, 10, 99, 100, -100, 65536, i32::MAX, i32::MIN] {
        assert_eq!(decimal_string(n), serde_json::to_string(&n).unwrap());
    }
}

#[test]
fn assemble_envelope_orders_the_keys() {
    assert_eq!(
        assemble_envelope("\"u\"", "\"c\"", "\"f\"", "\"t\"", -3, "\"a\""),
        "{\"args\":\"a\",\"cmd\":\"c\",\"format\":\"f\",\"size\":-3,\"token\":\"t\",\"user\":\"u\"}"
    );
}

#[test]
fn encode_command_writes_the_envelope() {
    let req = request("alice", "connect", "arg1 arg2", "r1");
    assert_eq!(
        encode_command(&req),
        Ok("{\"args\":\"arg1 arg2\",\"cmd\":\"connect\",\"format\":\"STRING\",\"size\":2,\"token\":\"tok\",\"user\":\"alice\"}".to_string())
    );
}

#[test]
fn encode_command_escapes_strings() {
    let req = request("a\"b", "c\\d", "line\nbreak\t\u{1}", "r1");
    assert_eq!(
        encode_command(&req),
        Ok("{\"args\":\"line\\nbreak\\t\\u0001\",\"cmd\":\"c\\\\d\",\"format\":\"STRING\",\"size\":2,\"token\":\"tok\",\"user\":\"a\\\"b\"}".to_string())
    );
}

#[test]
fn encode_command_is_read_back_by_a_json_parser() {
    let req = request("al\"ice", "connect", "[1, 2, \"x\"]", "r9");
    let text = encode_command(&req).unwrap();
    let value: serde_json::Value = serde_json::from_str(&text).unwrap();
    let object = value.as_object().unwrap();
    assert_eq!(object.len(), 6);
    assert_eq!(object["user"].as_str(), Some("al\"ice"));
    assert_eq!(object["cmd"].as_str(), Some("connect"));
    assert_eq!(object["format"].as_str(), Some("STRING"));
    assert_eq!(object["token"].as_str(), Some("tok"));
    assert_eq!(object["size"].as_i64(), Some(2));
    assert_eq!(object["args"].as_str(), Some("[1, 2, \"x\"]"));
}

#[test]
fn encode_command_keeps_text_outside_ascii() {
    let req = request("zoë", "run", "π", "r1");
    assert_eq!(
        encode_command(&req),
        Ok("{\"args\":\"π\",\"cmd\":\"run\",\"format\":\"STRING\",\"size\":2,\"token\":\"tok\",\"user\":\"zoë\"}".to_string())
    );
}

#[test]
fn a_reply_becomes_a_success() {
    assert_eq!(
        outcome_of_exchange(Exchange::Reply("connected".to_string())),
        Outcome::Success("connected".to_string())
    );
}

#[test]
fn each_transport_failure_keeps_its_step() {
    assert_eq!(
        outcome_of_exchange(Exchange::ConnectFailed("refused".to_string())),
        Outcome::Failure(ErrorKind::TransportError, "backend connection failed: refused".to_string())
    );
    assert_eq!(
        outcome_of_exchange(Exchange::SendFailed("closed".to_string())),
        Outcome::Failure(ErrorKind::TransportError, "backend send failed: closed".to_string())
    );
    assert_eq!(
        outcome_of_exchange(Exchange::ReceiveFailed("reset".to_string())),
        Outcome::Failure(ErrorKind::TransportError, "backend receive failed: reset".to_string())
    );
}

#[test]
fn a_reply_that_is_no_text_is_a_serialization_error() {
    assert_eq!(
        outcome_of_exchange(Exchange::InvalidReply),
        Outcome::Failure(
            ErrorKind::SerializationError,
            "backend reply is not valid text".to_string()
        )
    );
}

#[test]
fn status_and_error_kind_names() {
    assert_eq!(Status::Submitted.as_str(), "SUBMITTED");
    assert_eq!(Status::Pending.as_str(), "PENDING");
    assert_eq!(Status::Complete.as_str(), "COMPLETE");
    assert_eq!(Status::Error.as_str(), "ERROR");
    assert_eq!(ErrorKind::TransportError.as_str(), "TransportError");
    assert_eq!(ErrorKind::UnknownRequest.as_str(), "UnknownRequest");
    assert_eq!(ErrorKind::DuplicateId.as_str(), "DuplicateId");
    assert_eq!(ErrorKind::BadRequest.as_str(), "BadRequest");
    assert_eq!(ErrorKind::Timeout.as_str(), "Timeout");
    assert_eq!(ErrorKind::SerializationError.as_str(), "SerializationError");
}

#[test]
fn duplicate_keeps_the_outcome() {
    let failure = Outcome::Failure(ErrorKind::Timeout, "late".to_string());
    assert_eq!(failure.duplicate(), failure);
    let success = Outcome::Success("ok".to_string());
    assert_eq!(success.duplicate(), success);
}

#[test]
fn reply_bytes_are_read_as_text() {
    assert_eq!(
        arkouda_proxy::backend::exchange_of_reply(b"created id_7".to_vec()),
        Exchange::Reply("created id_7".to_string())
    );
    assert_eq!(
        arkouda_proxy::backend::exchange_of_reply(vec![0xcf, 0x80]),
        Exchange::Reply("π".to_string())
    );
    assert_eq!(
        arkouda_proxy::backend::exchange_of_reply(Vec::new()),
        Exchange::Reply(String::new())
    );
}

#[test]
fn reply_bytes_that_are_no_text_are_invalid() {
    assert_eq!(
        arkouda_proxy::backend::exchange_of_reply(vec![0x66, 0xff, 0x6f]),
        Exchange::InvalidReply
    );
    assert_eq!(arkouda_proxy::backend::exchange_of_reply(vec![0xc3]), Exchange::InvalidReply);
}
