use serde_json::Value;
use sib_client::envelope::{EnvelopeError, ShapeError};
use sib_client::fetch::{
    plan_request, query_sib, read_response, status_is_success, FetchError, Method, Reply, Request,
};

const BODY: &[u8] = br#"{"blocks":[{"blockType":"urn:sib:product-brand-1","data":{"brandName":"Acme"}}]}"#;

fn payload(data: &Value) -> Result<Value, ()> {
    Ok(data.clone())
}

#[test]
fn plans_one_get_with_accept_json() {
    let request = plan_request(
        "https://api.example.com/p/123",
        &["urn:sib:product-base-1", "urn:sib:product-brand-1"],
        Some("store-42"),
    )
    .unwrap();
    assert_eq!(
        request.url,
        "https://api.example.com/p/123?source=store-42&blocks=urn%3Asib%3Aproduct-base-1%2Curn%3Asib%3Aproduct-brand-1"
    );
    assert_eq!(request.method, Method::Get);
    assert_eq!(request.headers.len(), 1);
    assert_eq!(request.headers[0].name, "accept");
    assert_eq!(request.headers[0].value, "application/json");
}

#[test]
fn plans_the_fallback_for_an_invalid_endpoint() {
    let request = plan_request("::nonsense::", &["a"], Some("s")).unwrap();
    assert_eq!(request.url, "::nonsense::");
    assert_eq!(request.headers.len(), 1);
}

#[test]
fn success_is_200_to_299() {
    assert!(!status_is_success(0));
    assert!(!status_is_success(199));
    assert!(status_is_success(200));
    assert!(status_is_success(204));
    assert!(status_is_success(299));
    assert!(!status_is_success(300));
    assert!(!status_is_success(404));
    assert!(!status_is_success(500));
    assert!(!status_is_success(u16::MAX));
}

#[test]
fn not_found_is_an_error() {
    let r = read_response::<()>("https://api.example.com/p/123", 404, BODY);
    assert!(matches!(r, Err(FetchError::Status(404))));
}

#[test]
fn server_error_is_an_error() {
    let r = read_response::<()>("https://api.example.com/p/123", 500, BODY);
    assert!(matches!(r, Err(FetchError::Status(500))));
}

#[test]
fn redirect_is_an_error() {
    let r = read_response::<()>("https://api.example.com/p/123", 304, BODY);
    assert!(matches!(r, Err(FetchError::Status(304))));
}

#[test]
fn success_gives_the_store() {
    let store = read_response::<()>("https://api.example.com/p/123", 200, BODY).unwrap();
    assert_eq!(store.url(), "https://api.example.com/p/123");
    assert_eq!(store.len(), 1);
    let brand = store.get_block("urn:sib:product-brand-1", payload).unwrap().unwrap();
    assert_eq!(brand["brandName"], "Acme");
}

#[test]
fn bad_body_is_an_envelope_error() {
    let r = read_response::<()>("u", 200, b"oops");
    assert!(matches!(r, Err(FetchError::Envelope(EnvelopeError::Json(_)))));
    let r = read_response::<()>("u", 200, b"{}");
    assert!(matches!(r, Err(FetchError::Envelope(EnvelopeError::Shape(ShapeError::NoBlocks)))));
}

#[test]
fn status_is_looked_at_before_the_body() {
    let r = read_response::<()>("u", 503, b"oops");
    assert!(matches!(r, Err(FetchError::Status(503))));
}

#[test]
fn query_sends_the_planned_request_once() {
    let mut sent: Vec<Request> = Vec::new();
    let store = query_sib(
        "https://api.example.com/p/123",
        &["urn:sib:product-base-1", "urn:sib:product-brand-1"],
        Some("store-42"),
        |request: Request| {
            sent.push(request);
            Ok::<Reply, String>(Reply { status: 200, body: BODY.to_vec() })
        },
    )
    .unwrap();
    assert_eq!(sent.len(), 1);
    assert_eq!(sent[0].method, Method::Get);
    assert_eq!(
        sent[0].url,
        "https://api.example.com/p/123?source=store-42&blocks=urn%3Asib%3Aproduct-base-1%2Curn%3Asib%3Aproduct-brand-1"
    );
    assert_eq!(sent[0].headers.len(), 1);
    assert_eq!(sent[0].headers[0].name, "accept");
    assert_eq!(sent[0].headers[0].value, "application/json");
    assert_eq!(store.url(), "https://api.example.com/p/123");
    assert!(store.get_block("urn:sib:product-brand-1", payload).unwrap().is_some());
    assert!(store.get_block("urn:sib:product-base-1", payload).unwrap().is_none());
}

#[test]
fn query_without_parameters_sends_the_bare_url() {
    let mut sent: Vec<String> = Vec::new();
    let r = query_sib("https://api.example.com/p/123", &[], None, |request: Request| {
        sent.push(request.url);
        Ok::<Reply, String>(Reply { status: 200, body: br#"{"blocks":[]}"#.to_vec() })
    });
    assert_eq!(sent, vec!["https://api.example.com/p/123".to_string()]);
    assert_eq!(r.unwrap().len(), 0);
}

#[test]
fn query_attempts_an_invalid_endpoint_unchanged() {
    let mut sent: Vec<String> = Vec::new();
    let r = query_sib("no url at all", &["a", "b"], Some("s"), |request: Request| {
        sent.push(request.url);
        Err::<Reply, String>("cannot connect".to_string())
    });
    assert_eq!(sent, vec!["no url at all".to_string()]);
    match r {
        Err(FetchError::Transport(e)) => assert_eq!(e, "cannot connect"),
        _ => panic!("unexpected outcome"),
    }
}

#[test]
fn query_passes_a_failed_status_on() {
    let r = query_sib("https://api.example.com/p/123", &[], None, |_request: Request| {
        Ok::<Reply, String>(Reply { status: 404, body: BODY.to_vec() })
    });
    assert!(matches!(r, Err(FetchError::Status(404))));
    let r = query_sib("https://api.example.com/p/123", &[], None, |_request: Request| {
        Ok::<Reply, String>(Reply { status: 500, body: BODY.to_vec() })
    });
    assert!(matches!(r, Err(FetchError::Status(500))));
}

#[test]
fn query_keeps_the_endpoint_without_the_query() {
    let store = query_sib("https://api.example.com/p/123", &["a"], Some("s"), |_request: Request| {
        Ok::<Reply, String>(Reply { status: 200, body: BODY.to_vec() })
    })
    .unwrap();
    assert_eq!(store.url(), "https://api.example.com/p/123");
}

#[test]
fn sends_nothing_when_a_parameter_does_not_fit() {
    // Three bytes for each byte of the source, once encoded, are more than
    // a URL can hold.
    let source = "s".repeat(1_431_655_765);
    assert!(sib_client::request::request_url("https://api.example.com/p/123", &[], Some(&source)).is_none());
    assert!(plan_request("https://api.example.com/p/123", &["a"], Some(&source)).is_none());
    let mut sent = 0;
    let r = query_sib("https://api.example.com/p/123", &["a"], Some(&source), |_request: Request| {
        sent += 1;
        Err::<Reply, String>("unreachable".to_string())
    });
    assert!(matches!(r, Err(FetchError::UrlTooLong)));
    assert_eq!(sent, 0);
    // An endpoint that is no URL takes no parameters, so nothing can fail
    // to fit.
    let request = plan_request("no url", &["a"], Some(&source)).unwrap();
    assert_eq!(request.url, "no url");
}
