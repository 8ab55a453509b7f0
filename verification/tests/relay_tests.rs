use rally_notifier::error::{Error, ErrorKind};
use rally_notifier::relay::{
    build_outbound, on_body, on_dispatch, start, OutboundRequest, RelayRequest, RelayResponse,
    RelayStep, API_KEY_HEADER, CONTENT_TYPE, JSON_MEDIA_TYPE,
};

fn request(method: &str, body: Option<&str>, api_key: &str) -> RelayRequest {
    RelayRequest {
        url: "https://rally.example/slm/webservice/v2.0/defect".to_string(),
        method: method.to_string(),
        body: body.map(|b| b.to_string()),
        api_key: api_key.to_string(),
    }
}

fn sent(step: RelayStep) -> OutboundRequest {
    match step {
        RelayStep::Send(out) => out,
        other => panic!("expected a request to send, got {:?}", other),
    }
}

#[test]
fn fixed_header_names() {
    assert_eq!(CONTENT_TYPE, "Content-Type");
    assert_eq!(JSON_MEDIA_TYPE, "application/json");
    assert_eq!(API_KEY_HEADER, "ZSESSIONID");
}

#[test]
fn get_without_body_sends_no_body() {
    let out = sent(start(request("GET", None, "_abc123")));
    assert_eq!(out.body, None);
    assert_eq!(out.method, "GET");
    assert_eq!(out.url, "https://rally.example/slm/webservice/v2.0/defect");
}

#[test]
fn post_without_body_sends_no_body() {
    let out = sent(start(request("POST", None, "_abc123")));
    assert_eq!(out.body, None);
    assert_eq!(out.method, "POST");
}

#[test]
fn body_is_sent_as_given() {
    let out = sent(start(request("POST", Some("{\"Name\": \"x\"}"), "_abc123")));
    assert_eq!(out.body, Some("{\"Name\": \"x\"}".to_string()));
    let out = sent(start(request("GET", Some(""), "_abc123")));
    assert_eq!(out.body, Some(String::new()));
}

#[test]
fn outbound_request_in_full() {
    let step = start(RelayRequest {
        url: "http://localhost:8080/a?b=c".to_string(),
        method: "PUT".to_string(),
        body: Some("payload".to_string()),
        api_key: "s3cr3t".to_string(),
    });
    assert_eq!(
        step,
        RelayStep::Send(OutboundRequest {
            method: "PUT".to_string(),
            url: "http://localhost:8080/a?b=c".to_string(),
            headers: vec![
                ("Content-Type".to_string(), "application/json".to_string()),
                ("ZSESSIONID".to_string(), "s3cr3t".to_string()),
            ],
            body: Some("payload".to_string()),
        })
    );
}

#[test]
fn exactly_two_headers() {
    let out = sent(start(request("GET", None, "k")));
    assert_eq!(out.headers.len(), 2);
    assert_eq!(out.headers[0], (CONTENT_TYPE.to_string(), JSON_MEDIA_TYPE.to_string()));
    assert_eq!(out.headers[1].0, API_KEY_HEADER);
}

#[test]
fn key_is_sent_byte_for_byte() {
    for key in ["_abc123", "", " padded ", "UPPER lower", "tab\there", "k\u{e9}y \u{1f511}", "a:b;c=d"] {
        let out = sent(start(request("GET", None, key)));
        assert_eq!(out.headers[1], ("ZSESSIONID".to_string(), key.to_string()));
        assert_eq!(out.headers[1].1.as_bytes(), key.as_bytes());
    }
}

#[test]
fn url_is_not_touched() {
    for url in ["https://rally.example/x", "not a url", "", "HTTP://EXAMPLE.COM/%7e"] {
        let mut r = request("GET", None, "k");
        r.url = url.to_string();
        assert_eq!(sent(start(r)).url, url);
    }
}

#[test]
fn empty_method_fails_before_sending() {
    let step = start(request("", None, "_abc123"));
    assert_eq!(
        step,
        RelayStep::Done(Err(Error {
            kind: ErrorKind::InvalidMethod,
            message: "invalid HTTP method".to_string(),
        }))
    );
}

#[test]
fn method_with_blank_fails_before_sending() {
    for method in ["GET ", "G ET", " ", "GET\n", "POST\t"] {
        match start(request(method, Some("{}"), "_abc123")) {
            RelayStep::Done(Err(error)) => assert_eq!(error.kind, ErrorKind::InvalidMethod),
            other => panic!("{:?} must be refused, got {:?}", method, other),
        }
    }
}

#[test]
fn lower_case_method_is_sent_as_written() {
    let out = sent(start(request("get", None, "k")));
    assert_eq!(out.method, "get");
}

#[test]
fn build_outbound_agrees_with_start() {
    let built = build_outbound(request("DELETE", None, "k")).expect("a token");
    assert_eq!(start(request("DELETE", None, "k")), RelayStep::Send(built));
    let refused = build_outbound(request("DE LETE", None, "k")).expect_err("no token");
    assert_eq!(start(request("DE LETE", None, "k")), RelayStep::Done(Err(refused)));
}

#[test]
fn status_leads_to_reading_the_body() {
    for status in [100u16, 200, 204, 301, 404, 500, 599] {
        assert_eq!(on_dispatch(Ok(status)), RelayStep::ReadBody { status });
    }
}

#[test]
fn not_found_is_a_response() {
    assert_eq!(on_dispatch(Ok(404)), RelayStep::ReadBody { status: 404 });
    assert_eq!(
        on_body(404, Ok("not found".to_string())),
        RelayStep::Done(Ok(RelayResponse { status: 404, body: "not found".to_string() }))
    );
}

#[test]
fn server_error_is_a_response() {
    assert_eq!(
        on_body(503, Ok("<html>busy</html>".to_string())),
        RelayStep::Done(Ok(RelayResponse { status: 503, body: "<html>busy</html>".to_string() }))
    );
}

#[test]
fn success_with_empty_body() {
    assert_eq!(
        on_body(204, Ok(String::new())),
        RelayStep::Done(Ok(RelayResponse { status: 204, body: String::new() }))
    );
}

#[test]
fn body_is_not_parsed() {
    let raw = "{ this is not json \u{2713}";
    assert_eq!(
        on_body(200, Ok(raw.to_string())),
        RelayStep::Done(Ok(RelayResponse { status: 200, body: raw.to_string() }))
    );
}

#[test]
fn unreachable_host_is_a_transport_error() {
    let diagnostic = "error sending request for url (https://nowhere.invalid/): dns error";
    assert_eq!(
        on_dispatch(Err(diagnostic.to_string())),
        RelayStep::Done(Err(Error {
            kind: ErrorKind::TransportError,
            message: diagnostic.to_string(),
        }))
    );
}

#[test]
fn failed_body_read_is_a_body_read_error() {
    assert_eq!(
        on_body(200, Err("error decoding response body".to_string())),
        RelayStep::Done(Err(Error {
            kind: ErrorKind::BodyReadError,
            message: "error decoding response body".to_string(),
        }))
    );
}

#[test]
fn whole_call_against_a_scripted_server() {
    let mut dispatched = 0;
    let mut step = start(request("GET", None, "_abc123"));
    let result = loop {
        step = match step {
            RelayStep::Send(out) => {
                dispatched += 1;
                assert_eq!(out.body, None);
                on_dispatch(Ok(404))
            }
            RelayStep::ReadBody { status } => on_body(status, Ok("not found".to_string())),
            RelayStep::Done(result) => break result,
        };
    };
    assert_eq!(dispatched, 1);
    assert_eq!(result, Ok(RelayResponse { status: 404, body: "not found".to_string() }));
}

#[test]
fn whole_call_with_invalid_method_never_dispatches() {
    let mut dispatched = 0;
    let mut step = start(request("", None, "_abc123"));
    let result = loop {
        step = match step {
            RelayStep::Send(_) => {
                dispatched += 1;
                on_dispatch(Ok(200))
            }
            RelayStep::ReadBody { status } => on_body(status, Ok(String::new())),
            RelayStep::Done(result) => break result,
        };
    };
    assert_eq!(dispatched, 0);
    assert_eq!(result.expect_err("refused").kind, ErrorKind::InvalidMethod);
}
