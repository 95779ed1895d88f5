use hyper::header::{CONTENT_LENGTH, CONTENT_TYPE};
use twirp_rs::json::{frame_error, frame_results, push_all};
use twirp_rs::reply::{body_or_empty, error_response, internal_error, invalid_body_error};
use twirp_rs::{JsonError, Method, ProstTwirpError, ServiceRequest, ServiceResponse, StatusCode, TwirpError, Version};

fn default_error() -> TwirpError {
    TwirpError {
        status: StatusCode::internal_server_error(),
        code: "internal".to_string(),
        msg: "Something went wrong".to_string(),
        meta: None,
    }
}

fn default_json() -> &'static str {
    r#"{"code":"internal","msg":"Something went wrong"}"#
}

fn text(bytes: Vec<u8>) -> String {
    String::from_utf8(bytes).unwrap()
}

#[test]
fn serialization() {
    let err = default_error();
    let json = TwirpError::to_json_bytes(&err).unwrap();
    assert_eq!(String::from_utf8(json).unwrap(), default_json());
}

#[test]
fn deserialization() {
    let err = TwirpError::from_json_bytes(StatusCode::internal_server_error(), default_json().as_bytes());
    assert_eq!(err.unwrap(), default_error());
}

#[test]
fn json_without_meta_has_two_members() {
    let err = TwirpError::new(StatusCode::not_found(), "not_found", "Not found");
    assert_eq!(text(err.to_json_bytes().unwrap()), r#"{"code":"not_found","msg":"Not found"}"#);
}

#[test]
fn json_with_meta_appends_it() {
    let meta: serde_json::Value = serde_json::from_str(r#"{"a":1,"b":[true,null]}"#).unwrap();
    let err = TwirpError::new_meta(StatusCode::bad_request(), "c", "m", Some(meta));
    assert_eq!(
        text(err.to_json_bytes().unwrap()),
        r#"{"code":"c","msg":"m","meta":{"a":1,"b":[true,null]}}"#
    );
}

#[test]
fn json_escapes_strings() {
    let err = TwirpError::new(StatusCode::bad_request(), "a\"b", "line\nbreak\\");
    assert_eq!(text(err.to_json_bytes().unwrap()), r#"{"code":"a\"b","msg":"line\nbreak\\"}"#);
}

#[test]
fn status_is_not_in_the_body() {
    let a = TwirpError::new(StatusCode::from_u16(403), "forbidden", "no");
    let b = TwirpError::new(StatusCode::from_u16(500), "forbidden", "no");
    assert_eq!(a.to_json_bytes().unwrap(), b.to_json_bytes().unwrap());
}

#[test]
fn parse_gives_the_error_back_with_the_given_status() {
    let meta: serde_json::Value = serde_json::from_str(r#"{"k":"v"}"#).unwrap();
    let e = TwirpError::new_meta(StatusCode::from_u16(403), "forbidden", "no \"way\"", Some(meta.clone()));
    let bytes = e.to_json_bytes().unwrap();
    let back = TwirpError::from_json_bytes(StatusCode::from_u16(418), &bytes).unwrap();
    assert_eq!(back.status.as_u16(), 418);
    assert_eq!(back.code, "forbidden");
    assert_eq!(back.msg, "no \"way\"");
    assert_eq!(back.meta, Some(meta));
}

#[test]
fn parse_rejects_what_is_not_json() {
    let r = TwirpError::from_json_bytes(StatusCode::bad_request(), b"not json");
    assert!(matches!(r, Err(JsonError::Syntax(_))));
}

#[test]
fn parse_needs_code_and_msg() {
    let r = TwirpError::from_json_bytes(StatusCode::bad_request(), br#"{"msg":"m"}"#);
    assert!(matches!(r, Err(JsonError::BadCode)));
    let r = TwirpError::from_json_bytes(StatusCode::bad_request(), br#"{"code":"c"}"#);
    assert!(matches!(r, Err(JsonError::BadMsg)));
    let r = TwirpError::from_json_bytes(StatusCode::bad_request(), br#"{"code":7,"msg":"m"}"#);
    assert!(matches!(r, Err(JsonError::BadCode)));
    let r = TwirpError::from_json_bytes(StatusCode::bad_request(), br#"["c","m"]"#);
    assert!(matches!(r, Err(JsonError::BadCode)));
}

#[test]
fn from_json_value_reads_members() {
    let doc: serde_json::Value = serde_json::from_str(r#"{"code":"c","msg":"m","meta":[1,2]}"#).unwrap();
    let e = TwirpError::from_json_value(StatusCode::from_u16(409), &doc).unwrap();
    let meta: serde_json::Value = serde_json::from_str("[1,2]").unwrap();
    assert_eq!(e, TwirpError::new_meta(StatusCode::from_u16(409), "c", "m", Some(meta)));
    let doc: serde_json::Value = serde_json::from_str(r#""code""#).unwrap();
    assert!(matches!(TwirpError::from_json_value(StatusCode::ok(), &doc), Err(JsonError::BadCode)));
}

#[test]
fn parse_passes_over_other_members_and_null_meta() {
    let r = TwirpError::from_json_bytes(
        StatusCode::bad_request(),
        br#"{"extra":1,"code":"c","meta":null,"msg":"m"}"#,
    )
    .unwrap();
    assert_eq!(r, TwirpError::new(StatusCode::bad_request(), "c", "m"));
}

#[test]
fn from_json_fields_by_case() {
    let s = StatusCode::from_u16(404);
    assert!(matches!(
        TwirpError::from_json_fields(s, None, Some("m".to_string()), None, false),
        Err(JsonError::BadCode)
    ));
    assert!(matches!(TwirpError::from_json_fields(s, None, None, None, false), Err(JsonError::BadCode)));
    assert!(matches!(
        TwirpError::from_json_fields(s, Some("c".to_string()), None, None, false),
        Err(JsonError::BadMsg)
    ));
    let e = TwirpError::from_json_fields(s, Some("c".to_string()), Some("m".to_string()), None, false).unwrap();
    assert_eq!(e, TwirpError::new(s, "c", "m"));
    let null = serde_json::Value::Null;
    let e = TwirpError::from_json_fields(s, Some("c".to_string()), Some("m".to_string()), Some(null), true).unwrap();
    assert_eq!(e, TwirpError::new(s, "c", "m"));
    let seven: serde_json::Value = serde_json::from_str("7").unwrap();
    let e = TwirpError::from_json_fields(s, Some("c".to_string()), Some("m".to_string()), Some(seven.clone()), false)
        .unwrap();
    assert_eq!(e, TwirpError::new_meta(s, "c", "m", Some(seven)));
}

#[test]
fn frame_error_writes_members_in_order() {
    let code = b"\"c\"".to_vec();
    let msg = b"\"m\"".to_vec();
    let meta = b"[1]".to_vec();
    assert_eq!(text(frame_error(&code, &msg, None)), r#"{"code":"c","msg":"m"}"#);
    assert_eq!(text(frame_error(&code, &msg, Some(&meta))), r#"{"code":"c","msg":"m","meta":[1]}"#);
}

#[test]
fn frame_results_gives_the_first_failure() {
    let fail = |s: &str| serde_json::from_str::<serde_json::Value>(s).unwrap_err();
    let first = fail("[");
    let first_text = first.to_string();
    let r = frame_results(Err(first), Err(fail("{{")), None);
    assert_eq!(r.unwrap_err().to_string(), first_text);
    let second = fail("}");
    let second_text = second.to_string();
    let r = frame_results(Ok(b"\"c\"".to_vec()), Err(second), Some(Err(fail("x"))));
    assert_eq!(r.unwrap_err().to_string(), second_text);
    let third = fail("tru");
    let third_text = third.to_string();
    let r = frame_results(Ok(b"\"c\"".to_vec()), Ok(b"\"m\"".to_vec()), Some(Err(third)));
    assert_eq!(r.unwrap_err().to_string(), third_text);
    let r = frame_results(Ok(b"\"c\"".to_vec()), Ok(b"\"m\"".to_vec()), Some(Ok(b"7".to_vec())));
    assert_eq!(text(r.unwrap()), r#"{"code":"c","msg":"m","meta":7}"#);
}

#[test]
fn push_all_appends() {
    let mut out = vec![1u8, 2];
    push_all(&mut out, &vec![3u8, 4, 5]);
    assert_eq!(out, vec![1u8, 2, 3, 4, 5]);
    push_all(&mut out, &Vec::new());
    assert_eq!(out, vec![1u8, 2, 3, 4, 5]);
}

#[test]
fn error_response_has_json_type_and_length() {
    let e = TwirpError::new(StatusCode::from_u16(403), "forbidden", "no");
    let raw = e.to_resp_raw();
    let body = r#"{"code":"forbidden","msg":"no"}"#;
    assert_eq!(raw.status.as_u16(), 403);
    assert_eq!(raw.version, Version::Http11);
    assert_eq!(text(raw.output.clone()), body);
    assert_eq!(raw.headers.get(CONTENT_TYPE).unwrap(), "application/json");
    assert_eq!(raw.headers.get(CONTENT_LENGTH).unwrap(), "31");
    assert_eq!(body.len(), 31);
    assert_eq!(raw.headers.len(), 2);
    let http = e.to_hyper_resp();
    assert_eq!(http.status.as_u16(), 403);
    assert_eq!(text(http.body), body);
    assert_eq!(http.headers.get(CONTENT_TYPE).unwrap(), "application/json");
    assert_eq!(http.headers.get(CONTENT_LENGTH).unwrap(), "31");
}

#[test]
fn canonical_errors() {
    let e = invalid_body_error();
    assert_eq!((e.status.as_u16(), e.code.as_str(), e.msg.as_str()), (400, "protobuf_decode_err", "Invalid protobuf body"));
    assert_eq!(e.meta, None);
    let e = internal_error();
    assert_eq!((e.status.as_u16(), e.code.as_str(), e.msg.as_str()), (500, "internal_err", "Internal Error"));
    assert_eq!(e.meta, None);
}

#[test]
fn root_err_takes_off_every_layer() {
    let req = ServiceRequest::new(vec![1u8, 2, 3]);
    let resp = ServiceResponse::new(vec![9u8]);
    let inner = ProstTwirpError::TwirpError(TwirpError::new(StatusCode::from_u16(403), "forbidden", "no"));
    let once = req.body_err(inner);
    match &once {
        ProstTwirpError::AfterBodyError { body, method, version, headers, status, err } => {
            assert_eq!(body, &vec![1u8, 2, 3]);
            assert_eq!(*method, Some(Method::Post));
            assert_eq!(*version, Version::Http11);
            assert_eq!(headers.get(CONTENT_TYPE).unwrap(), "application/protobuf");
            assert_eq!(*status, None);
            assert!(matches!(**err, ProstTwirpError::TwirpError(_)));
        }
        _ => panic!("no body layer"),
    }
    let twice = resp.body_err(once);
    match &twice {
        ProstTwirpError::AfterBodyError { body, method, status, err, .. } => {
            assert_eq!(body, &vec![9u8]);
            assert_eq!(*method, None);
            assert_eq!(*status, Some(StatusCode::ok()));
            assert!(matches!(**err, ProstTwirpError::AfterBodyError { .. }));
        }
        _ => panic!("no body layer"),
    }
    match twice.root_err() {
        ProstTwirpError::TwirpError(e) => assert_eq!(e, TwirpError::new(StatusCode::from_u16(403), "forbidden", "no")),
        _ => panic!("wrong root"),
    }
    let bare = ProstTwirpError::JsonDecodeError(JsonError::BadMsg);
    assert!(matches!(bare.root_err(), ProstTwirpError::JsonDecodeError(JsonError::BadMsg)));
}

#[test]
fn runtime_errors_map_to_responses() {
    let raw = ServiceRequest::new(vec![0x0au8, 0x05, 0x61]);
    let decode = raw.to_proto::<String>().unwrap_err();
    assert!(matches!(decode, ProstTwirpError::AfterBodyError { .. }));
    let resp = decode.to_hyper_resp().unwrap();
    assert_eq!(resp.status.as_u16(), 400);
    assert_eq!(text(resp.body.clone()), r#"{"code":"protobuf_decode_err","msg":"Invalid protobuf body"}"#);
    assert_eq!(resp.headers.get(CONTENT_TYPE).unwrap(), "application/json");
    assert_eq!(resp.headers.get(CONTENT_LENGTH).unwrap(), resp.body.len().to_string().as_str());

    let own = ProstTwirpError::from(TwirpError::new(StatusCode::from_u16(403), "forbidden", "no"));
    let resp = raw.body_err(own).to_hyper_resp().unwrap();
    assert_eq!(resp.status.as_u16(), 403);
    assert_eq!(text(resp.body), r#"{"code":"forbidden","msg":"no"}"#);

    let other = ProstTwirpError::JsonDecodeError(JsonError::BadCode);
    let resp = other.to_hyper_resp().unwrap();
    assert_eq!(resp.status.as_u16(), 500);
    assert_eq!(text(resp.body), r#"{"code":"internal_err","msg":"Internal Error"}"#);
}

#[test]
fn status_classes() {
    assert!(!StatusCode::from_u16(199).is_success());
    assert!(StatusCode::from_u16(200).is_success());
    assert!(StatusCode::from_u16(299).is_success());
    assert!(!StatusCode::from_u16(300).is_success());
    assert_eq!(StatusCode::default(), StatusCode::ok());
    assert_eq!(StatusCode::bad_request().as_u16(), 400);
    assert_eq!(StatusCode::not_found().as_u16(), 404);
    assert_eq!(StatusCode::unsupported_media_type().as_u16(), 415);
    assert_eq!(StatusCode::internal_server_error().as_u16(), 500);
    assert_eq!(Version::default(), Version::Http11);
}

#[test]
fn method_copies() {
    let m = Method::Extension("PURGE".to_string());
    assert_eq!(m.duplicate(), m);
    assert_eq!(Method::Post.duplicate(), Method::Post);
    assert!(Method::Post.is_post());
    assert!(!Method::Get.is_post());
    assert!(!m.is_post());
    let mut req = ServiceRequest::new(vec![1u8]);
    req.method = Method::Extension("PURGE".to_string());
    assert_eq!(req.clone_with_input(2u32).method, Method::Extension("PURGE".to_string()));
    match req.body_err(ProstTwirpError::JsonDecodeError(JsonError::BadCode)) {
        ProstTwirpError::AfterBodyError { method, .. } => {
            assert_eq!(method, Some(Method::Extension("PURGE".to_string())))
        }
        _ => panic!("no body layer"),
    }
}

#[test]
fn body_falls_back_to_an_empty_object() {
    assert_eq!(body_or_empty(Ok(b"{\"code\":\"c\"}".to_vec())), b"{\"code\":\"c\"}".to_vec());
    assert_eq!(body_or_empty(Ok(Vec::new())), Vec::<u8>::new());
    let failure = serde_json::from_str::<serde_json::Value>("[").unwrap_err();
    assert_eq!(body_or_empty(Err(failure)), b"{}".to_vec());
}

#[test]
fn error_response_of_status_and_body() {
    let resp = error_response(StatusCode::from_u16(418), b"{}".to_vec());
    assert_eq!(resp.status.as_u16(), 418);
    assert_eq!(resp.version, Version::Http11);
    assert_eq!(resp.body, b"{}".to_vec());
    assert_eq!(resp.headers.len(), 2);
    assert_eq!(resp.headers.get(CONTENT_TYPE).unwrap(), "application/json");
    assert_eq!(resp.headers.get(CONTENT_LENGTH).unwrap(), "2");
    let resp = error_response(StatusCode::from_u16(500), vec![b' '; 100]);
    assert_eq!(resp.headers.get(CONTENT_LENGTH).unwrap(), "100");
}

#[test]
fn error_response_with_meta_sends_the_meta_text() {
    let meta: serde_json::Value = serde_json::from_str(r#"{"retry":true,"after":[1,2]}"#).unwrap();
    let e = TwirpError::new_meta(StatusCode::from_u16(429), "slow_down", "later", Some(meta));
    let body = r#"{"code":"slow_down","msg":"later","meta":{"after":[1,2],"retry":true}}"#;
    assert_eq!(text(e.to_json_bytes().unwrap()), body);
    assert_eq!(text(e.body_bytes()), body);
    let raw = e.to_resp_raw();
    assert_eq!(text(raw.output), body);
    assert_eq!(raw.headers.get(CONTENT_LENGTH).unwrap(), body.len().to_string().as_str());
    let http = e.to_hyper_resp();
    assert_eq!(text(http.body), body);
    let wrapped = ServiceRequest::new(vec![7u8; 9]).body_err(ProstTwirpError::from(e));
    let answer = wrapped.to_hyper_resp().unwrap();
    assert_eq!(answer.status.as_u16(), 429);
    assert_eq!(text(answer.body), body);
}

#[test]
fn status_member_is_passed_over() {
    let r = TwirpError::from_json_bytes(
        StatusCode::from_u16(404),
        br#"{"status":500,"code":"c","msg":"m"}"#,
    )
    .unwrap();
    assert_eq!(r, TwirpError::new(StatusCode::from_u16(404), "c", "m"));
    let r = TwirpError::from_json_bytes(StatusCode::from_u16(404), b"");
    assert!(matches!(r, Err(JsonError::Syntax(_))));
    let r = TwirpError::from_json_bytes(StatusCode::from_u16(404), br#"{"code":"c","msg":null}"#);
    assert!(matches!(r, Err(JsonError::BadMsg)));
}
