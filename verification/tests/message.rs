use command_dispatch::message::{answer, handle_message, Delivery, Exchange, COMMAND_SUBJECT};

#[test]
fn commands_arrive_on_the_api_subject() {
    assert_eq!(COMMAND_SUBJECT, "api");
}

#[test]
fn reply_is_published_where_the_message_asks() {
    let exchange = handle_message(b"ping", Some("_INBOX.abc".to_string()));
    assert_eq!(
        exchange,
        Exchange {
            command: "ping".to_string(),
            response: "pong".to_string(),
            delivery: Delivery::Publish {
                subject: "_INBOX.abc".to_string(),
                body: b"pong".to_vec(),
            },
        }
    );
}

#[test]
fn reply_is_kept_when_no_subject_is_named() {
    let exchange = handle_message(b" STATUS ", None);
    assert_eq!(exchange.command, " STATUS ");
    assert_eq!(
        exchange.response,
        "Server is running and ready to process commands"
    );
    assert_eq!(exchange.delivery, Delivery::Unrequested);
}

#[test]
fn command_is_kept_as_received() {
    let exchange = handle_message(b"  Echo Hi  ", None);
    assert_eq!(exchange.command, "  Echo Hi  ");
    assert_eq!(exchange.response, "Echo: hi");
}

#[test]
fn invalid_bytes_are_replaced_not_refused() {
    let exchange = handle_message(b"\xff", Some("r".to_string()));
    assert_eq!(exchange.command, "\u{fffd}");
    let expected =
        "Unknown command: '\u{fffd}'. Available commands: ping, status, echo <message>";
    assert_eq!(exchange.response, expected);
    assert_eq!(
        exchange.delivery,
        Delivery::Publish {
            subject: "r".to_string(),
            body: expected.as_bytes().to_vec(),
        }
    );
}

#[test]
fn invalid_bytes_inside_an_echo_are_replaced() {
    let exchange = handle_message(b"echo a\xc3(b\xe2\x82", None);
    assert_eq!(exchange.command, "echo a\u{fffd}(b\u{fffd}");
    assert_eq!(exchange.response, "Echo: a\u{fffd}(b\u{fffd}");
}

#[test]
fn valid_bytes_are_decoded_as_they_stand() {
    let text = "ECHO Grüße, 世界 𝄞";
    let exchange = handle_message(text.as_bytes(), Some("back".to_string()));
    assert_eq!(exchange.command, text);
    assert_eq!(exchange.response, "Echo: grüße, 世界 𝄞");
    assert_eq!(
        exchange.delivery,
        Delivery::Publish {
            subject: "back".to_string(),
            body: "Echo: grüße, 世界 𝄞".as_bytes().to_vec(),
        }
    );
}

#[test]
fn empty_payload_gets_the_fallback() {
    let exchange = handle_message(b"", Some("x".to_string()));
    assert_eq!(exchange.command, "");
    assert_eq!(
        exchange.response,
        "Unknown command: ''. Available commands: ping, status, echo <message>"
    );
}

#[test]
fn every_message_gets_a_non_empty_response() {
    let payloads: [&[u8]; 6] = [b"", b"\x00", b"\xff\xfe", b"ping", b"echo ", b"\xf0\x9f"];
    for payload in payloads {
        assert!(!handle_message(payload, None).response.is_empty());
    }
}

#[test]
fn same_message_gets_the_same_exchange() {
    let first = handle_message(b"echo Twice\xff", Some("a.b".to_string()));
    let second = handle_message(b"echo Twice\xff", Some("a.b".to_string()));
    assert_eq!(first, second);
}

#[test]
fn answer_takes_the_command_as_text() {
    let exchange = answer("Ping".to_string(), Some("inbox".to_string()));
    assert_eq!(exchange.command, "Ping");
    assert_eq!(exchange.response, "pong");
    assert_eq!(
        exchange.delivery,
        Delivery::Publish {
            subject: "inbox".to_string(),
            body: vec![b'p', b'o', b'n', b'g'],
        }
    );
}

#[test]
fn answer_without_a_subject_sends_nothing() {
    let exchange = answer("echo é".to_string(), None);
    assert_eq!(exchange.response, "Echo: é");
    assert_eq!(exchange.delivery, Delivery::Unrequested);
}

#[test]
fn body_is_the_utf8_encoding_of_the_response() {
    let exchange = answer("echo é€".to_string(), Some("s".to_string()));
    match exchange.delivery {
        Delivery::Publish { subject, body } => {
            assert_eq!(subject, "s");
            assert_eq!(
                body,
                vec![b'E', b'c', b'h', b'o', b':', b' ', 0xc3, 0xa9, 0xe2, 0x82, 0xac]
            );
        }
        Delivery::Unrequested => panic!("a reply subject was named"),
    }
}
