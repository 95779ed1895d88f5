use hyper::header::{HeaderValue, CONTENT_LENGTH, CONTENT_TYPE, HOST};
use twirp_rs::envelope::takes_length;
use twirp_rs::{
    HttpRequest, HttpResponse, JsonError, Method, ProstTwirpError, ServiceRequest, ServiceResponse,
    StatusCode, TwirpError, Version,
};

#[test]
fn new_request_has_protobuf_type() {
    let r = ServiceRequest::new(5u32);
    assert_eq!(r.input, 5);
    assert_eq!(r.uri, "/");
    assert_eq!(r.method, Method::Post);
    assert_eq!(r.version, Version::Http11);
    assert_eq!(r.headers.len(), 1);
    assert_eq!(r.headers.get(CONTENT_TYPE).unwrap(), "application/protobuf");
}

#[test]
fn new_response_is_ok_with_protobuf_type() {
    let r = ServiceResponse::new("x".to_string());
    assert_eq!(r.output, "x");
    assert_eq!(r.status, StatusCode::ok());
    assert_eq!(r.version, Version::Http11);
    assert_eq!(r.headers.len(), 1);
    assert_eq!(r.headers.get(CONTENT_TYPE).unwrap(), "application/protobuf");
}

#[test]
fn clone_with_payload_keeps_metadata() {
    let mut r = ServiceRequest::new(1u32);
    r.uri = "/twirp/x.Svc/Do".to_string();
    r.method = Method::Put;
    r.version = Version::H2;
    r.headers.insert(HOST, HeaderValue::from_static("example.org"));
    let c = r.clone_with_input("text".to_string());
    assert_eq!(c.input, "text");
    assert_eq!(c.uri, "/twirp/x.Svc/Do");
    assert_eq!(c.method, Method::Put);
    assert_eq!(c.version, Version::H2);
    assert_eq!(c.headers, r.headers);

    let mut s = ServiceResponse::new(1u32);
    s.status = StatusCode::from_u16(201);
    s.version = Version::Http10;
    s.headers.insert(HOST, HeaderValue::from_static("example.org"));
    let c = s.clone_with_output(vec![1u8]);
    assert_eq!(c.output, vec![1u8]);
    assert_eq!(c.status.as_u16(), 201);
    assert_eq!(c.version, Version::Http10);
    assert_eq!(c.headers, s.headers);
}

#[test]
fn request_round_trip() {
    let mut typed = ServiceRequest::new("hello".to_string());
    typed.uri = "/twirp/x.Svc/Do".to_string();
    let raw = typed.to_proto_raw().unwrap();
    assert_eq!(raw.input, vec![0x0au8, 0x05, b'h', b'e', b'l', b'l', b'o']);
    let back = raw.to_proto::<String>().unwrap();
    assert_eq!(back.input, typed.input);
    assert_eq!(back.uri, typed.uri);
    assert_eq!(back.method, typed.method);
    assert_eq!(back.version, typed.version);
    assert_eq!(back.headers, typed.headers);
}

#[test]
fn response_round_trip() {
    let typed = ServiceResponse::new(7u32);
    let raw = typed.to_proto_raw().unwrap();
    assert_eq!(raw.output, vec![0x08u8, 0x07]);
    let back = raw.to_proto::<u32>().unwrap();
    assert_eq!(back.output, 7);
    assert_eq!(back.status, typed.status);
    assert_eq!(back.version, typed.version);
    assert_eq!(back.headers, typed.headers);
}

#[test]
fn http_request_is_a_post_with_the_length() {
    let mut raw = ServiceRequest::new(vec![1u8; 12]);
    raw.method = Method::Get;
    raw.version = Version::H2;
    raw.uri = "/a".to_string();
    raw.headers.insert(HOST, HeaderValue::from_static("example.org"));
    raw.headers.insert(CONTENT_LENGTH, HeaderValue::from_static("999"));
    assert!(takes_length(&raw.headers));
    let http = raw.to_hyper_raw();
    assert_eq!(http.method, Method::Post);
    assert_eq!(http.uri, "/a");
    assert_eq!(http.version, Version::H2);
    assert_eq!(http.body, vec![1u8; 12]);
    assert_eq!(http.headers.len(), 3);
    assert_eq!(http.headers.get(CONTENT_LENGTH).unwrap(), "12");
    assert_eq!(http.headers.get(CONTENT_TYPE).unwrap(), "application/protobuf");
    assert_eq!(http.headers.get(HOST).unwrap(), "example.org");
}

#[test]
fn http_response_has_the_length() {
    let mut raw = ServiceResponse::new(Vec::<u8>::new());
    raw.status = StatusCode::from_u16(202);
    raw.version = Version::Http10;
    let http = raw.to_hyper_raw();
    assert_eq!(http.status.as_u16(), 202);
    assert_eq!(http.version, Version::Http10);
    assert_eq!(http.headers.get(CONTENT_LENGTH).unwrap(), "0");
    let raw = ServiceResponse::new(vec![0u8; 1234]);
    let http = raw.to_hyper_raw();
    assert_eq!(http.headers.get(CONTENT_LENGTH).unwrap(), "1234");
    assert_eq!(http.body.len(), 1234);
}

#[test]
fn typed_to_http_encodes_then_stamps() {
    let http = ServiceRequest::new("hello".to_string()).to_hyper_proto().unwrap();
    assert_eq!(http.body, vec![0x0au8, 0x05, b'h', b'e', b'l', b'l', b'o']);
    assert_eq!(http.headers.get(CONTENT_LENGTH).unwrap(), "7");
    let http = ServiceResponse::new(7u32).to_hyper_proto().unwrap();
    assert_eq!(http.status.as_u16(), 200);
    assert_eq!(http.body, vec![0x08u8, 0x07]);
    assert_eq!(http.headers.get(CONTENT_LENGTH).unwrap(), "2");
    assert_eq!(http.headers.get(CONTENT_TYPE).unwrap(), "application/protobuf");
}

#[test]
fn from_http_keeps_everything() {
    let mut headers = hyper::HeaderMap::new();
    headers.insert(CONTENT_TYPE, HeaderValue::from_static("application/protobuf"));
    let req = HttpRequest {
        method: Method::Post,
        uri: "/twirp/x.Svc/Do".to_string(),
        version: Version::Http10,
        headers: headers.clone(),
        body: vec![0x0a, 0x01, b'z'],
    };
    let raw = ServiceRequest::from_hyper_raw(req);
    assert_eq!(raw.uri, "/twirp/x.Svc/Do");
    assert_eq!(raw.method, Method::Post);
    assert_eq!(raw.version, Version::Http10);
    assert_eq!(raw.headers, headers);
    assert_eq!(raw.input, vec![0x0a, 0x01, b'z']);
    let req = HttpRequest {
        method: Method::Post,
        uri: "/twirp/x.Svc/Do".to_string(),
        version: Version::Http10,
        headers: headers.clone(),
        body: vec![0x0a, 0x01, b'z'],
    };
    let typed = ServiceRequest::<String>::from_hyper_proto(req).unwrap();
    assert_eq!(typed.input, "z");
    let resp = HttpResponse {
        status: StatusCode::ok(),
        version: Version::Http11,
        headers: headers.clone(),
        body: vec![0x08, 0x07],
    };
    let typed = ServiceResponse::<u32>::from_hyper_proto(resp).unwrap();
    assert_eq!(typed.output, 7);
    assert_eq!(typed.headers, headers);
}

#[test]
fn request_decode_failure_carries_the_body() {
    let raw = ServiceRequest::new(vec![0x0au8, 0x05, 0x61]);
    match raw.to_proto::<String>() {
        Err(ProstTwirpError::AfterBodyError { body, method, status, err, .. }) => {
            assert_eq!(body, vec![0x0au8, 0x05, 0x61]);
            assert_eq!(method, Some(Method::Post));
            assert_eq!(status, None);
            assert!(matches!(*err, ProstTwirpError::ProstDecodeError(_)));
        }
        _ => panic!("no decode failure"),
    }
}

#[test]
fn response_is_read_by_status_class() {
    let mut raw = ServiceResponse::new(br#"{"code":"forbidden","msg":"no"}"#.to_vec());
    raw.status = StatusCode::from_u16(403);
    match raw.to_proto::<String>() {
        Err(ProstTwirpError::AfterBodyError { body, method, status, err, .. }) => {
            assert_eq!(body, br#"{"code":"forbidden","msg":"no"}"#.to_vec());
            assert_eq!(method, None);
            assert_eq!(status, Some(StatusCode::from_u16(403)));
            match *err {
                ProstTwirpError::TwirpError(e) => {
                    assert_eq!(e, TwirpError::new(StatusCode::from_u16(403), "forbidden", "no"))
                }
                _ => panic!("no protocol error"),
            }
        }
        _ => panic!("no error"),
    }

    let mut raw = ServiceResponse::new(vec![0x08u8, 0x07]);
    raw.status = StatusCode::from_u16(500);
    match raw.to_proto::<u32>() {
        Err(ProstTwirpError::AfterBodyError { status, err, .. }) => {
            assert_eq!(status, Some(StatusCode::from_u16(500)));
            assert!(matches!(*err, ProstTwirpError::JsonDecodeError(JsonError::Syntax(_))));
        }
        _ => panic!("no error"),
    }

    let mut raw = ServiceResponse::new(vec![0x0au8, 0x05, 0x61]);
    raw.status = StatusCode::from_u16(299);
    match raw.to_proto::<String>() {
        Err(ProstTwirpError::AfterBodyError { status, err, .. }) => {
            assert_eq!(status, Some(StatusCode::from_u16(299)));
            assert!(matches!(*err, ProstTwirpError::ProstDecodeError(_)));
        }
        _ => panic!("no error"),
    }
}

#[test]
fn with_results_of_the_codec() {
    let typed = ServiceRequest::new(1u32);
    let raw = typed.with_encoded(Ok(vec![5u8, 6])).unwrap();
    assert_eq!(raw.input, vec![5u8, 6]);
    assert_eq!(raw.headers, typed.headers);
    let back = raw.with_decoded::<u32>(Ok(1)).unwrap();
    assert_eq!(back.input, 1);
    let resp = ServiceResponse::new(vec![1u8]);
    let e = resp.with_error_body(Err(JsonError::BadCode));
    match e {
        ProstTwirpError::AfterBodyError { body, err, .. } => {
            assert_eq!(body, vec![1u8]);
            assert!(matches!(*err, ProstTwirpError::JsonDecodeError(JsonError::BadCode)));
        }
        _ => panic!("no body layer"),
    }
    let typed = resp.with_decoded::<u32>(Ok(3)).unwrap();
    assert_eq!(typed.output, 3);
    let raw = typed.with_encoded(Ok(vec![8u8, 3])).unwrap();
    assert_eq!(raw.output, vec![8u8, 3]);
}

#[test]
fn length_header_fits_up_to_the_limit_of_names() {
    let mut raw = ServiceResponse::new(vec![1u8, 2, 3]);
    raw.headers.clear();
    for i in 0..32767 {
        let name = hyper::header::HeaderName::from_bytes(format!("x-{}", i).as_bytes()).unwrap();
        raw.headers.insert(name, HeaderValue::from_static("v"));
    }
    assert_eq!(raw.headers.keys_len(), 32767);
    assert!(takes_length(&raw.headers));
    let http = raw.to_hyper_raw();
    assert_eq!(http.headers.keys_len(), 32768);
    assert_eq!(http.headers.get(CONTENT_LENGTH).unwrap(), "3");
    assert_eq!(http.headers.get("x-32766").unwrap(), "v");

    let mut full = ServiceResponse::new(vec![1u8]);
    full.headers = http.headers.clone();
    assert!(takes_length(&full.headers));
    assert_eq!(full.to_hyper_raw().headers.get(CONTENT_LENGTH).unwrap(), "1");

    full.headers.remove(CONTENT_LENGTH);
    let name = hyper::header::HeaderName::from_bytes(b"x-last").unwrap();
    full.headers.insert(name, HeaderValue::from_static("v"));
    assert_eq!(full.headers.keys_len(), 32768);
    assert!(!takes_length(&full.headers));
}

#[test]
fn envelopes_from_a_message() {
    let r: ServiceRequest<u32> = ServiceRequest::from(5u32);
    assert_eq!(r.input, 5);
    assert_eq!(r.uri, "/");
    assert_eq!(r.method, Method::Post);
    assert_eq!(r.headers, ServiceRequest::new(5u32).headers);
    let s: ServiceResponse<String> = "x".to_string().into();
    assert_eq!(s.output, "x");
    assert_eq!(s.status, StatusCode::ok());
    assert_eq!(s.headers.get(CONTENT_TYPE).unwrap(), "application/protobuf");
}

#[test]
fn empty_error_body_is_a_json_failure() {
    let mut raw = ServiceResponse::new(Vec::<u8>::new());
    raw.status = StatusCode::not_found();
    match raw.to_proto::<()>() {
        Err(ProstTwirpError::AfterBodyError { body, method, status, err, .. }) => {
            assert_eq!(body, Vec::<u8>::new());
            assert_eq!(method, None);
            assert_eq!(status, Some(StatusCode::not_found()));
            assert!(matches!(*err, ProstTwirpError::JsonDecodeError(JsonError::Syntax(_))));
        }
        _ => panic!("no error"),
    }
}

#[test]
fn error_body_with_meta_is_read() {
    let mut raw = ServiceResponse::new(br#"{"code":"c","msg":"g","meta":{"k":1}}"#.to_vec());
    raw.status = StatusCode::from_u16(409);
    let meta: serde_json::Value = serde_json::from_str(r#"{"k":1}"#).unwrap();
    match raw.to_proto::<u32>().unwrap_err().root_err() {
        ProstTwirpError::TwirpError(e) => {
            assert_eq!(e, TwirpError::new_meta(StatusCode::from_u16(409), "c", "g", Some(meta)))
        }
        _ => panic!("no protocol error"),
    }
}
