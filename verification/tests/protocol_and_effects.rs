//! Websocket protocol conversions, persistence effects, result mapping,
//! decode-failure sorting, and identifier generation.

use lolibaso::flake_id::{flake_decode, FlakeIdGen};
use lolibaso::http::codec::decoder::{decode_failure, query_decode_failure, DecodeError};
use lolibaso::http::json::{json_failure, JsonError};
use lolibaso::http::parser::{parse_failure, query_parse_failure, ParseError};
use lolibaso::http::query_decoder::{query_failure, QueryParseError};
use lolibaso::http::response::HttpVersion;
use lolibaso::http::api_macro::SimpleQueryResponse;
use lolibaso::http::response::ApiResponse;
use lolibaso::http::web_socket::protocol::{CloseCode, CloseReason, OpCode, ProtocolError};
use lolibaso::repository::{DeleteEffect, SaveEffect, UpdateEffect};
use lolibaso::result::{BizResult, InfraError, MapBizResult};

#[test]
fn t_flake_id() {
    let mut generator = FlakeIdGen::new(0);
    let id1 = generator.next(1);
    let id2 = generator.next(1);
    assert_ne!(id1, id2);
}

#[test]
fn flake_ids_strictly_increase_even_with_a_stuck_clock() {
    let mut generator = FlakeIdGen::new(4);
    let mut last = generator.next(100);
    for _ in 0..5000 {
        let id = generator.next(100);
        assert!(id > last);
        last = id;
    }
    let id = generator.next(50);
    assert!(id > last);
}

#[test]
fn flake_id_packs_and_unpacks_the_fields() {
    let mut generator = FlakeIdGen::new(12);
    let id = generator.next(77);
    let (ts, node, seq) = flake_decode(id);
    assert_eq!(ts, 77);
    assert_eq!(node, 12);
    assert_eq!(seq, 0);
    // 77 << 22 | 12 << 12
    assert_eq!(id, 77 * 4194304 + 12 * 4096);
}

#[test]
fn close_code_numbers_match_the_protocol() {
    assert_eq!(u16::from(CloseCode::Normal), 1000);
    assert_eq!(u16::from(CloseCode::Away), 1001);
    assert_eq!(u16::from(CloseCode::Error), 1011);
    assert_eq!(u16::from(CloseCode::Tls), 1015);
    assert_eq!(u16::from(CloseCode::Other(4000)), 4000);
    assert_eq!(CloseCode::from(1002u16), CloseCode::Protocol);
    assert_eq!(CloseCode::from(1009u16), CloseCode::Size);
    assert_eq!(CloseCode::from(1004u16), CloseCode::Other(1004));
}

#[test]
fn close_code_numeric_round_trip() {
    for num in 995u16..1020 {
        assert_eq!(u16::from(CloseCode::from(num)), num);
    }
}

#[test]
fn close_reason_from_code_has_no_description() {
    let reason = CloseReason::from(CloseCode::Away);
    assert_eq!(reason.code, CloseCode::Away);
    assert_eq!(reason.description, None);
}

#[test]
fn op_code_numbers_match_the_protocol() {
    assert_eq!(u8::from(OpCode::Continue), 0);
    assert_eq!(u8::from(OpCode::Text), 1);
    assert_eq!(u8::from(OpCode::Binary), 2);
    assert_eq!(u8::from(OpCode::Close), 8);
    assert_eq!(u8::from(OpCode::Ping), 9);
    assert_eq!(u8::from(OpCode::Pong), 10);
    // The invalid code is written as a close frame.
    assert_eq!(u8::from(OpCode::Bad), 8);
    assert_eq!(OpCode::from(2u8), OpCode::Binary);
    assert_eq!(OpCode::from(3u8), OpCode::Bad);
}

#[test]
fn op_code_names() {
    assert_eq!(OpCode::Continue.name(), "CONTINUE");
    assert_eq!(OpCode::Bad.name(), "BAD");
}

#[test]
fn protocol_error_from_conversions() {
    assert_eq!(ProtocolError::from(3u8), ProtocolError::InvalidOpcode(3));
    assert_eq!(ProtocolError::from(200usize), ProtocolError::InvalidLength(200));
    assert_eq!(
        ProtocolError::from(OpCode::Text),
        ProtocolError::ContinuationFragment(OpCode::Text)
    );
}

#[test]
fn update_effect_predicates() {
    assert!(UpdateEffect::Effected.is_ok());
    assert!(UpdateEffect::Effected.is_effected());
    assert!(!UpdateEffect::Effected.is_conflict());
    assert!(UpdateEffect::Conflict.is_conflict());
    assert!(UpdateEffect::NotFound.is_not_found());
    assert!(!UpdateEffect::NotFound.is_ok());
    UpdateEffect::Effected.ignore_effect();
}

#[test]
fn save_effect_predicates() {
    assert!(SaveEffect::Effected.is_ok());
    assert!(SaveEffect::Effected.is_effected());
    assert!(SaveEffect::Conflict.is_conflict());
    assert!(!SaveEffect::Conflict.is_ok());
    SaveEffect::Conflict.ignore_effect();
}

#[test]
fn delete_effect_predicates() {
    assert!(DeleteEffect::Effected.is_ok());
    assert!(DeleteEffect::Effected.is_effected());
    assert!(DeleteEffect::NotFound.is_not_found());
    assert!(!DeleteEffect::NotFound.is_ok());
    DeleteEffect::NotFound.ignore_effect();
}

#[test]
fn map_biz_maps_only_the_success_arm() {
    let ok: BizResult<u64, &str> = Ok(Ok(2));
    assert!(matches!(ok.map_biz(|v| v * 10), Ok(Ok(20))));

    let biz_err: BizResult<u64, &str> = Ok(Err("denied"));
    assert!(matches!(biz_err.map_biz(|v| v * 10), Ok(Err("denied"))));

    let infra: BizResult<u64, &str> = Err(InfraError { message: "down".to_string() });
    assert!(matches!(infra.map_biz(|v| v * 10), Err(_)));
}

#[test]
fn map_biz_err_maps_only_the_domain_error_arm() {
    let ok: BizResult<u64, u64> = Ok(Ok(2));
    assert!(matches!(ok.map_biz_err(|e| e + 1), Ok(Ok(2))));

    let biz_err: BizResult<u64, u64> = Ok(Err(7));
    assert!(matches!(biz_err.map_biz_err(|e| e + 1), Ok(Err(8))));
}

#[test]
fn json_failure_sorts_data_errors_with_embedded_names() {
    let msg = "##Denied(no access)## at line 1 column 2";
    match json_failure(true, msg) {
        JsonError::Custom { err_name, err_msg } => {
            assert_eq!(err_name, "Denied");
            assert_eq!(err_msg, Some("no access".to_string()));
        }
        JsonError::InvalidJson(_) => panic!("embedded name not extracted"),
    }
    match json_failure(false, msg) {
        JsonError::InvalidJson(m) => assert_eq!(m, msg),
        JsonError::Custom { .. } => panic!("syntax error treated as domain error"),
    }
    match json_failure(true, "expected value at line 1") {
        JsonError::InvalidJson(m) => assert_eq!(m, "expected value at line 1"),
        JsonError::Custom { .. } => panic!("plain message treated as domain error"),
    }
}

#[test]
fn decode_failure_sorts_like_json_failure() {
    match decode_failure(true, "##Bad##") {
        DecodeError::Custom { err_name, err_msg } => {
            assert_eq!(err_name, "Bad");
            assert_eq!(err_msg, None);
        }
        DecodeError::BizErr(_) => panic!("embedded name not extracted"),
    }
    match decode_failure(false, "##Bad##") {
        DecodeError::BizErr(m) => assert_eq!(m, "##Bad##"),
        DecodeError::Custom { .. } => panic!("syntax error treated as domain error"),
    }
    match query_decode_failure("missing field x") {
        DecodeError::BizErr(m) => assert_eq!(m, "missing field x"),
        DecodeError::Custom { .. } => panic!("plain message treated as domain error"),
    }
}

#[test]
fn parse_failure_sorts_like_json_failure() {
    match parse_failure(true, "##Oops(v)## tail") {
        ParseError::Custom { err_name, err_msg } => {
            assert_eq!(err_name, "Oops");
            assert_eq!(err_msg, Some("v".to_string()));
        }
        ParseError::Other(_) => panic!("embedded name not extracted"),
    }
    match query_parse_failure("bad query") {
        ParseError::Other(m) => assert_eq!(m, "bad query"),
        ParseError::Custom { .. } => panic!("plain message treated as domain error"),
    }
}

#[test]
fn query_failure_sorts_embedded_names() {
    match query_failure("##MissingPort##") {
        QueryParseError::Custom { err_name, err_msg } => {
            assert_eq!(err_name, "MissingPort");
            assert_eq!(err_msg, None);
        }
        QueryParseError::InvalidQuery(_) => panic!("embedded name not extracted"),
    }
}

#[test]
fn simple_query_response_has_default_head() {
    let response = SimpleQueryResponse { body: 5u64 };
    assert!(response.headers().is_none());
    assert_eq!(*response.body(), 5);
    let (head, body) = response.into_parts();
    assert_eq!(head.status, 200);
    assert_eq!(head.version, HttpVersion::Http2);
    assert!(head.headers.is_none());
    assert_eq!(body, 5);
}

#[test]
fn query_failure_without_markers_keeps_the_message() {
    match query_failure("invalid percent-encoding") {
        QueryParseError::InvalidQuery(m) => assert_eq!(m, "invalid percent-encoding"),
        QueryParseError::Custom { .. } => panic!("plain message treated as domain error"),
    }
}

#[test]
fn flake_clock_advance_resets_the_sequence() {
    let mut generator = FlakeIdGen::new(1);
    let a = generator.next(10);
    let b = generator.next(10);
    let c = generator.next(11);
    let (ts_a, _, seq_a) = flake_decode(a);
    let (ts_b, _, seq_b) = flake_decode(b);
    let (ts_c, _, seq_c) = flake_decode(c);
    assert_eq!((ts_a, seq_a), (10, 0));
    assert_eq!((ts_b, seq_b), (10, 1));
    assert_eq!((ts_c, seq_c), (11, 0));
}
