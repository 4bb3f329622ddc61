use oby_desktop::client::{
    accept_response, acknowledged, check_payload, incoming, outgoing, IoError,
};
use oby_desktop::codec::{extract_parts, fetch_format, ProtocolError};
use oby_desktop::kind::RequestKind;

const KINDS: [RequestKind; 8] = [
    RequestKind::Tables,
    RequestKind::TablesInsert,
    RequestKind::TablesDelete,
    RequestKind::Offers,
    RequestKind::OffersInsert,
    RequestKind::OffersTables,
    RequestKind::Orders,
    RequestKind::OrdersFinish,
];

#[test]
fn kind_names_are_the_catalogue_names() {
    let names: Vec<&str> = KINDS.iter().map(|kind| kind.name()).collect();
    assert_eq!(
        names,
        vec![
            "Tables",
            "TablesInsert",
            "TablesDelete",
            "Offers",
            "OffersInsert",
            "OffersTables",
            "Orders",
            "OrdersFinish"
        ]
    );
}

#[test]
fn every_kind_is_read_back_from_its_name() {
    for kind in KINDS {
        let text = kind.name().as_bytes();
        assert_eq!(RequestKind::from_token(text, 0, text.len()), Some(kind));
    }
}

#[test]
fn kind_tokens_are_case_sensitive_and_exact() {
    assert_eq!(RequestKind::from_token(b"tables", 0, 6), None);
    assert_eq!(RequestKind::from_token(b"Tables ", 0, 7), None);
    assert_eq!(RequestKind::from_token(b"", 0, 0), None);
    assert_eq!(RequestKind::from_token(b"TablesInser", 0, 11), None);
    assert_eq!(RequestKind::from_token(b"xxOrdersxx", 2, 8), Some(RequestKind::Orders));
}

#[test]
fn fetch_format_writes_tag_kind_colon_payload() {
    let bytes = fetch_format("Orders".to_string(), "{\"new\":true}".to_string());
    assert_eq!(bytes, b"REQUEST!Orders:{\"new\":true}".to_vec());
}

#[test]
fn fetch_format_with_empty_payload_ends_in_the_colon() {
    assert_eq!(fetch_format("Tables".to_string(), String::new()), b"REQUEST!Tables:".to_vec());
}

#[test]
fn fetch_format_keeps_text_outside_ascii() {
    let bytes = fetch_format("TablesDelete".to_string(), "Stol š".to_string());
    assert_eq!(bytes, "REQUEST!TablesDelete:Stol š".as_bytes().to_vec());
}

#[test]
fn round_trip_for_every_kind() {
    let payloads = ["", "{}", "{\"tables\":[{\"name\":\"A\",\"order_count\":2}]}", "a:b!c", "š"];
    for kind in KINDS {
        for payload in payloads {
            let bytes = fetch_format(kind.name().to_string(), payload.to_string());
            assert_eq!(extract_parts(&bytes), Ok((kind, payload.as_bytes().to_vec())));
        }
    }
}

#[test]
fn extract_parts_splits_only_at_the_first_separators() {
    assert_eq!(
        extract_parts(b"REQUEST!Offers:{\"a\":\"x!y:z\"}"),
        Ok((RequestKind::Offers, b"{\"a\":\"x!y:z\"}".to_vec()))
    );
}

#[test]
fn extract_parts_sets_the_preamble_aside_whatever_it_holds() {
    assert_eq!(extract_parts(b"anything: at all!Tables:x"), Ok((RequestKind::Tables, b"x".to_vec())));
    assert_eq!(extract_parts(b"!Tables:x"), Ok((RequestKind::Tables, b"x".to_vec())));
}

#[test]
fn extract_parts_without_exclamation_mark_is_malformed() {
    assert_eq!(extract_parts(b"REQUEST Tables:x"), Err(ProtocolError::Malformed));
    assert_eq!(extract_parts(b""), Err(ProtocolError::Malformed));
}

#[test]
fn extract_parts_without_colon_after_the_mark_is_malformed() {
    assert_eq!(extract_parts(b"REQUEST!Tables"), Err(ProtocolError::Malformed));
    assert_eq!(extract_parts(b"a:b!Tables"), Err(ProtocolError::Malformed));
    assert_eq!(extract_parts(b"REQUEST!"), Err(ProtocolError::Malformed));
}

#[test]
fn extract_parts_with_a_token_outside_the_catalogue_is_unknown_kind() {
    assert_eq!(extract_parts(b"REQUEST!Chairs:x"), Err(ProtocolError::UnknownKind));
    assert_eq!(extract_parts(b"REQUEST!:x"), Err(ProtocolError::UnknownKind));
    assert_eq!(extract_parts(b"REQUEST!orders:x"), Err(ProtocolError::UnknownKind));
}

#[test]
fn protocol_error_messages() {
    assert_eq!(ProtocolError::Malformed.message(), "Invalid request...");
    assert_eq!(ProtocolError::UnknownKind.message(), "Matching variant not found");
    assert_eq!(ProtocolError::KindMismatch.message(), "Invalid message kind...");
}

#[test]
fn io_error_message_is_the_reason() {
    assert_eq!(IoError::ConnectFailed("Connection refused".to_string()).message(), "Connection refused");
    assert_eq!(IoError::WriteFailed("Broken pipe".to_string()).message(), "Broken pipe");
    assert_eq!(IoError::ReadFailed("timed out".to_string()).message(), "timed out");
}

#[test]
fn outgoing_without_payload_sends_an_empty_payload() {
    assert_eq!(outgoing(RequestKind::OffersTables, None), b"REQUEST!OffersTables:".to_vec());
}

#[test]
fn outgoing_with_payload_sends_it_verbatim() {
    assert_eq!(
        outgoing(RequestKind::Orders, Some("{\"new\":true,\"table\":null}".to_string())),
        b"REQUEST!Orders:{\"new\":true,\"table\":null}".to_vec()
    );
}

#[test]
fn an_echoed_request_is_accepted_with_its_payload() {
    for kind in KINDS {
        let bytes = outgoing(kind, Some("{\"k\":1}".to_string()));
        assert_eq!(accept_response(kind, &bytes), Ok(b"{\"k\":1}".to_vec()));
        assert_eq!(incoming(kind, Ok(bytes)), Ok(b"{\"k\":1}".to_vec()));
    }
}

#[test]
fn a_response_of_another_kind_is_refused() {
    for asked in KINDS {
        for answered in KINDS {
            if asked != answered {
                let bytes = outgoing(answered, Some("{\"orders\":[]}".to_string()));
                assert_eq!(accept_response(asked, &bytes), Err(ProtocolError::KindMismatch));
                assert_eq!(incoming(asked, Ok(bytes)), Err("Invalid message kind...".to_string()));
            }
        }
    }
}

#[test]
fn incoming_flattens_every_failure_to_its_message() {
    assert_eq!(
        incoming(RequestKind::Tables, Err(IoError::ConnectFailed("Connection refused".to_string()))),
        Err("Connection refused".to_string())
    );
    assert_eq!(
        incoming(RequestKind::Tables, Err(IoError::ReadFailed("reset".to_string()))),
        Err("reset".to_string())
    );
    assert_eq!(incoming(RequestKind::Tables, Ok(b"nothing".to_vec())), Err("Invalid request...".to_string()));
    assert_eq!(
        incoming(RequestKind::Tables, Ok(b"REQUEST!Nope:1".to_vec())),
        Err("Matching variant not found".to_string())
    );
}

#[test]
fn acknowledged_only_for_the_exact_sentinel() {
    assert!(acknowledged(b"REQUEST_SUCCEEDED"));
    assert!(!acknowledged(b"REQUEST_SUCCEEDED "));
    assert!(!acknowledged(b"request_succeeded"));
    assert!(!acknowledged(b""));
    assert!(!acknowledged(b"{\"table\":\"A\"}"));
}

#[test]
fn incoming_hands_on_json_documents() {
    for payload in ["{}", "[]", "null", " {\"orders\": [ ] } ", "\"text\"", "12", "{\"a\":{\"b\":[1,2,{\"c\":null}]}}"] {
        let bytes = outgoing(RequestKind::Orders, Some(payload.to_string()));
        assert_eq!(incoming(RequestKind::Orders, Ok(bytes)), Ok(payload.as_bytes().to_vec()), "{payload}");
    }
}

#[test]
fn incoming_reports_a_payload_that_is_no_json() {
    let cases = [
        ("", "EOF while parsing a value at line 1 column 0"),
        ("nonsense", "expected ident at line 1 column 2"),
        ("{\"orders\":[}", "expected value at line 1 column 12"),
        ("{} {}", "trailing characters at line 1 column 4"),
        ("{\"a\":1", "EOF while parsing an object at line 1 column 6"),
    ];
    for (payload, report) in cases {
        let bytes = outgoing(RequestKind::Orders, Some(payload.to_string()));
        assert_eq!(incoming(RequestKind::Orders, Ok(bytes)), Err(report.to_string()), "{payload}");
    }
}

#[test]
fn incoming_hands_on_the_acknowledgement_as_it_stands() {
    let bytes = outgoing(RequestKind::TablesDelete, Some("REQUEST_SUCCEEDED".to_string()));
    assert_eq!(incoming(RequestKind::TablesDelete, Ok(bytes)), Ok(b"REQUEST_SUCCEEDED".to_vec()));
}

#[test]
fn check_payload_for_each_outcome_of_the_parser() {
    assert_eq!(check_payload(b"{}".to_vec(), None), Ok(b"{}".to_vec()));
    assert_eq!(check_payload(b"{".to_vec(), Some("EOF".to_string())), Err("EOF".to_string()));
    assert_eq!(
        check_payload(b"REQUEST_SUCCEEDED".to_vec(), Some("expected value".to_string())),
        Ok(b"REQUEST_SUCCEEDED".to_vec())
    );
    assert_eq!(check_payload(b"REQUEST_SUCCEEDED".to_vec(), None), Ok(b"REQUEST_SUCCEEDED".to_vec()));
}
