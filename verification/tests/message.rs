use fate::message::{ClientToServer, DecodeError, Key, Kind, Message, ServerToClient};
use rustc_serialize::json::Json;
use std::collections::BTreeMap;

#[test]
fn test_connect_response() {
    let message = ServerToClient::ConnectResponse { user_id: 3 };
    let encoded = message.stringify().unwrap();
    let parsed: ServerToClient = Message::parse(&encoded).unwrap();
    assert_eq!(parsed, message);
}

#[test]
fn test_connect_request() {
    let message = ClientToServer::ConnectRequest;
    let encoded = message.stringify().unwrap();
    let parsed: ClientToServer = Message::parse(&encoded).unwrap();
    assert_eq!(parsed, message);
}

#[test]
fn test_create_game_request() {
    let message = ClientToServer::CreateGameRequest { user_id: 3 };
    let encoded = message.stringify().unwrap();
    let parsed: ClientToServer = Message::parse(&encoded).unwrap();
    assert_eq!(parsed, message);
}

#[test]
fn test_create_game_response() {
    let message = ServerToClient::CreateGameResponse { game_id: 3 };
    let encoded = message.stringify().unwrap();
    let parsed: ServerToClient = Message::parse(&encoded).unwrap();
    assert_eq!(parsed, message);
}

#[test]
fn wire_text_of_each_variant() {
    assert_eq!(
        ClientToServer::ConnectRequest.stringify().unwrap(),
        "\"ConnectRequest\""
    );
    assert_eq!(
        ClientToServer::CreateGameRequest { user_id: 3 }.stringify().unwrap(),
        "{\"variant\":\"CreateGameRequest\",\"fields\":[3]}"
    );
    assert_eq!(
        ServerToClient::ConnectResponse { user_id: 0 }.stringify().unwrap(),
        "{\"variant\":\"ConnectResponse\",\"fields\":[0]}"
    );
    assert_eq!(
        ServerToClient::CreateGameResponse { game_id: 1234567890 }.stringify().unwrap(),
        "{\"variant\":\"CreateGameResponse\",\"fields\":[1234567890]}"
    );
}

#[test]
fn decode_rejects_garbage() {
    let result: Result<ClientToServer, DecodeError> = Message::parse("not json");
    assert!(matches!(result, Err(DecodeError::Syntax(_))));
    let result: Result<ServerToClient, DecodeError> = Message::parse("");
    assert!(matches!(result, Err(DecodeError::Syntax(_))));
    for text in [
        "not json",
        "",
        " ",
        "{",
        "}",
        "[",
        "\"ConnectRequest",
        "ConnectRequest",
        "'ConnectRequest'",
        "\"ConnectRequest\" \"ConnectRequest\"",
        "{\"variant\":\"ConnectRequest\",\"fields\":[]",
        "{\"variant\":\"ConnectRequest\",\"fields\":[],}",
        "{variant:\"ConnectRequest\",fields:[]}",
        "null",
        "true",
        "0",
        "[]",
        "[\"ConnectRequest\"]",
        "\"\"",
        "\"connectrequest\"",
        "\"ConnectRequest \"",
        "{\"Variant\":\"ConnectRequest\",\"Fields\":[]}",
        "\u{0}",
        "\u{feff}\"ConnectRequest\"",
    ] {
        let request: Result<ClientToServer, DecodeError> = Message::parse(text);
        assert!(request.is_err(), "{:?}", text);
        let response: Result<ServerToClient, DecodeError> = Message::parse(text);
        assert!(response.is_err(), "{:?}", text);
    }
}

#[test]
fn decode_names_what_is_wrong() {
    let parse = |text: &str| -> Result<ClientToServer, DecodeError> { Message::parse(text) };
    assert!(matches!(parse("3"), Err(DecodeError::Expected(Kind::StringOrObject))));
    assert!(matches!(parse("{}"), Err(DecodeError::MissingField(Key::Variant))));
    assert!(matches!(parse("{\"variant\":1}"), Err(DecodeError::Expected(Kind::String))));
    assert!(matches!(
        parse("{\"variant\":\"ConnectRequest\"}"),
        Err(DecodeError::MissingField(Key::Fields))
    ));
    assert!(matches!(
        parse("{\"variant\":\"ConnectRequest\",\"fields\":3}"),
        Err(DecodeError::Expected(Kind::Array))
    ));
    match parse("\"Hello\"") {
        Err(DecodeError::UnknownVariant(name)) => assert_eq!(name, "Hello"),
        other => panic!("{:?}", other),
    }
    assert!(matches!(parse("\"CreateGameRequest\""), Err(DecodeError::NoMoreFields)));
    assert!(matches!(
        parse("{\"variant\":\"CreateGameRequest\",\"fields\":[]}"),
        Err(DecodeError::NoMoreFields)
    ));
    assert!(matches!(
        parse("{\"variant\":\"CreateGameRequest\",\"fields\":[-1]}"),
        Err(DecodeError::Expected(Kind::Number))
    ));
    assert!(matches!(
        parse("{\"variant\":\"CreateGameRequest\",\"fields\":[1.5]}"),
        Err(DecodeError::Expected(Kind::Integer))
    ));
    assert!(matches!(
        parse("{\"variant\":\"CreateGameRequest\",\"fields\":[18446744073709551616]}"),
        Err(DecodeError::Syntax(_))
    ));
    assert!(matches!(
        parse("{\"variant\":\"CreateGameRequest\",\"fields\":[1e2]}"),
        Err(DecodeError::Expected(Kind::Integer))
    ));
    assert!(matches!(
        parse("{\"variant\":\"CreateGameRequest\",\"fields\":[true]}"),
        Err(DecodeError::Expected(Kind::Number))
    ));
    assert!(matches!(
        parse("{\"variant\":\"CreateGameRequest\",\"fields\":[\"x\"]}"),
        Err(DecodeError::Expected(Kind::Number))
    ));
}

#[test]
fn decode_reads_what_the_encoder_would_not_write() {
    let parse = |text: &str| -> Result<ClientToServer, DecodeError> { Message::parse(text) };
    assert_eq!(
        parse(" { \"fields\" : [ 7 , 8 ] , \"variant\" : \"CreateGameRequest\", \"more\": null } ").unwrap(),
        ClientToServer::CreateGameRequest { user_id: 7 }
    );
    assert_eq!(
        parse("{\"variant\":\"CreateGameRequest\",\"fields\":[\"+12\"]}").unwrap(),
        ClientToServer::CreateGameRequest { user_id: 12 }
    );
    assert_eq!(
        parse("{\"variant\":\"ConnectRequest\",\"fields\":[1]}").unwrap(),
        ClientToServer::ConnectRequest
    );
    assert_eq!(
        parse("{\"variant\":\"CreateGameRequest\",\"fields\":[-0]}").unwrap(),
        ClientToServer::CreateGameRequest { user_id: 0 }
    );
    assert_eq!(
        parse("{\"variant\":\"CreateGameRequest\",\"fields\":[18446744073709551615]}").unwrap(),
        ClientToServer::CreateGameRequest { user_id: usize::MAX }
    );
    assert_eq!(
        parse("{\"variant\":\"CreateGameRequest\",\"fields\":[\"007\", {}]}").unwrap(),
        ClientToServer::CreateGameRequest { user_id: 7 }
    );
    assert_eq!(
        parse("{\"variant\":\"\\u0043onnectRequest\",\"fields\":[]}").unwrap(),
        ClientToServer::ConnectRequest
    );
}

#[test]
fn every_message_comes_back_from_its_text() {
    for id in [0, 1, 9, 10, 99, 100, 4567, usize::MAX / 2, usize::MAX - 1, usize::MAX] {
        let request = ClientToServer::CreateGameRequest { user_id: id };
        let parsed: ClientToServer = Message::parse(&request.stringify().unwrap()).unwrap();
        assert_eq!(parsed, request);
        let response = ServerToClient::ConnectResponse { user_id: id };
        let parsed: ServerToClient = Message::parse(&response.stringify().unwrap()).unwrap();
        assert_eq!(parsed, response);
        let response = ServerToClient::CreateGameResponse { game_id: id };
        let parsed: ServerToClient = Message::parse(&response.stringify().unwrap()).unwrap();
        assert_eq!(parsed, response);
    }
}

#[test]
fn a_request_is_no_response_and_a_response_no_request() {
    let text = ClientToServer::CreateGameRequest { user_id: 1 }.stringify().unwrap();
    let result: Result<ServerToClient, DecodeError> = Message::parse(&text);
    assert!(matches!(result, Err(DecodeError::UnknownVariant(_))));
    let text = ServerToClient::CreateGameResponse { game_id: 1 }.stringify().unwrap();
    let result: Result<ClientToServer, DecodeError> = Message::parse(&text);
    assert!(matches!(result, Err(DecodeError::UnknownVariant(_))));
}

#[test]
fn from_json_reads_a_value_that_was_built() {
    let mut entries = BTreeMap::new();
    entries.insert("variant".to_string(), Json::String("ConnectResponse".to_string()));
    entries.insert("fields".to_string(), Json::Array(vec![Json::I64(5)]));
    assert_eq!(
        ServerToClient::from_json(&Json::Object(entries.clone())).unwrap(),
        ServerToClient::ConnectResponse { user_id: 5 }
    );
    entries.insert("fields".to_string(), Json::Array(vec![Json::I64(-5)]));
    assert!(matches!(
        ServerToClient::from_json(&Json::Object(entries.clone())),
        Err(DecodeError::Expected(Kind::Number))
    ));
    entries.insert("fields".to_string(), Json::Array(vec![Json::Null, Json::U64(1)]));
    assert!(matches!(
        ServerToClient::from_json(&Json::Object(entries)),
        Err(DecodeError::Expected(Kind::Number))
    ));
    assert!(matches!(
        ClientToServer::from_json(&Json::Boolean(true)),
        Err(DecodeError::Expected(Kind::StringOrObject))
    ));
    assert_eq!(
        ClientToServer::from_json(&Json::String("ConnectRequest".to_string())).unwrap(),
        ClientToServer::ConnectRequest
    );
}

#[test]
fn the_largest_id_is_written_in_full() {
    assert_eq!(
        ClientToServer::CreateGameRequest { user_id: usize::MAX }.stringify().unwrap(),
        format!("{{\"variant\":\"CreateGameRequest\",\"fields\":[{}]}}", usize::MAX)
    );
    assert_eq!(
        ServerToClient::CreateGameResponse { game_id: 10 }.stringify().unwrap(),
        "{\"variant\":\"CreateGameResponse\",\"fields\":[10]}"
    );
}

#[test]
fn a_text_that_is_too_much_for_the_parser_is_refused_before_it() {
    let parse = |text: &str| -> Result<ClientToServer, DecodeError> { Message::parse(text) };
    // An exponent that does not fit.
    assert!(matches!(parse("1e99999999999999999999"), Err(DecodeError::Refused)));
    assert!(matches!(parse("1E+1234567890"), Err(DecodeError::Refused)));
    assert!(matches!(parse("[1.5e-0000000001]"), Err(DecodeError::Refused)));
    // A key of 65536 bytes that begins with a character of two bytes.
    let key = format!("\u{e9}{}", "k".repeat(65534));
    assert_eq!(key.len(), 65536);
    let text = format!("{{\"{}\":{{\"a\":1}}}}", key);
    assert!(matches!(parse(&text), Err(DecodeError::Refused)));
    // Arrays inside arrays.
    assert!(matches!(parse(&"[".repeat(100000)), Err(DecodeError::Refused)));
    let nested = format!("{}{}", "[".repeat(129), "]".repeat(129));
    assert!(matches!(parse(&nested), Err(DecodeError::Refused)));
    let nested = format!("{}{}", "{\"a\":".repeat(129), "}".repeat(129));
    assert!(matches!(parse(&nested), Err(DecodeError::Refused)));
    // An object that ends in a comma.
    assert!(matches!(parse("{\"k\":{\"a\":1,},\"z\":3}"), Err(DecodeError::Refused)));
    // A string that ends, and what follows it.
    assert!(matches!(parse("[\"a\\\"b\", 1e1234567890]"), Err(DecodeError::Refused)));
    assert!(matches!(parse("{\"k\":\"\\\\\",}"), Err(DecodeError::Refused)));
    assert!(matches!(parse("[\"\\\\\\\"\", 1e1234567890]"), Err(DecodeError::Refused)));
}

#[test]
fn what_stands_inside_a_string_does_not_count() {
    let parse = |text: &str| -> Result<ClientToServer, DecodeError> { Message::parse(text) };
    assert_eq!(
        parse("{\"variant\":\"ConnectRequest\",\"fields\":[],\"note\":\"e1234567890\"}").unwrap(),
        ClientToServer::ConnectRequest
    );
    assert_eq!(
        parse("{\"variant\":\"ConnectRequest\",\"fields\":[],\"note\":\"a, }\"}").unwrap(),
        ClientToServer::ConnectRequest
    );
    let brackets = format!(
        "{{\"variant\":\"CreateGameRequest\",\"fields\":[5,\"{}\"]}}",
        "[{".repeat(200)
    );
    assert_eq!(parse(&brackets).unwrap(), ClientToServer::CreateGameRequest { user_id: 5 });
    assert_eq!(
        parse("{\"note\":\"\\\"1e1234567890,}\",\"variant\":\"ConnectRequest\",\"fields\":[]}").unwrap(),
        ClientToServer::ConnectRequest
    );
    match parse("\"E+1234567890,}[[[\"") {
        Err(DecodeError::UnknownVariant(name)) => assert_eq!(name, "E+1234567890,}[[["),
        other => panic!("{:?}", other),
    }
    assert!(fate::json::parser_takes_text("\"e1234567890"));
    assert!(!fate::json::parser_takes_text("\"\"e1234567890"));
    assert!(fate::json::parser_takes_text("\"\\\"e1234567890"));
    assert!(!fate::json::parser_takes_text("\"\\\\\"e1234567890"));
}

#[test]
fn a_text_at_the_limits_goes_to_the_parser() {
    let parse = |text: &str| -> Result<ClientToServer, DecodeError> { Message::parse(text) };
    assert!(matches!(parse("1e999999999"), Err(DecodeError::Expected(Kind::StringOrObject))));
    assert!(matches!(parse("1e-000000001"), Err(DecodeError::Expected(Kind::StringOrObject))));
    assert!(matches!(parse("1e+"), Err(DecodeError::Syntax(_))));
    let nested = format!("{}{}", "[".repeat(128), "]".repeat(128));
    assert!(matches!(parse(&nested), Err(DecodeError::Expected(Kind::StringOrObject))));
    assert!(matches!(parse(&"[".repeat(128)), Err(DecodeError::Syntax(_))));
    let padded = format!("{}\"ConnectRequest\"", " ".repeat(65535 - 16));
    assert_eq!(padded.len(), 65535);
    assert_eq!(parse(&padded).unwrap(), ClientToServer::ConnectRequest);
    let padded = format!(" {}", padded);
    assert!(matches!(parse(&padded), Err(DecodeError::Refused)));
    assert_eq!(
        parse("{\"variant\":\"CreateGameRequest\",\"fields\":[7],\"note\":1e123456789}").unwrap(),
        ClientToServer::CreateGameRequest { user_id: 7 }
    );
    assert!(fate::json::parser_takes_text("{\"variant\":\"CreateGameRequest\",\"fields\":[18446744073709551615]}"));
    assert!(!fate::json::parser_takes_text("e+0123456789"));
    assert!(fate::json::parser_takes_text("e+-0123456789"));
    assert!(!fate::json::parser_takes_text("{\"a\":1 , \n\t\r}"));
    assert!(fate::json::parser_takes_text("{\"a\":1 , \u{b}}"));
    assert!(fate::json::parser_takes_text(""));
}

#[test]
fn stringify_never_fails() {
    for id in [0, 7, 65535, 123456789, 1234567890, usize::MAX] {
        assert!(ClientToServer::CreateGameRequest { user_id: id }.stringify().is_ok());
        assert!(ServerToClient::ConnectResponse { user_id: id }.stringify().is_ok());
        assert!(ServerToClient::CreateGameResponse { game_id: id }.stringify().is_ok());
    }
    assert!(ClientToServer::ConnectRequest.stringify().is_ok());
}

#[test]
fn stringify_hands_out_the_text_as_the_encoder_wrote_it() {
    let text = ServerToClient::ConnectResponse { user_id: 12 }.stringify().unwrap();
    assert_eq!(text, "{\"variant\":\"ConnectResponse\",\"fields\":[12]}");
    assert_eq!(text.trim(), text);
    let other = ServerToClient::CreateGameResponse { game_id: 12 }.stringify().unwrap();
    assert_ne!(text, other);
    let other = ServerToClient::ConnectResponse { user_id: 21 }.stringify().unwrap();
    assert_ne!(text, other);
}
