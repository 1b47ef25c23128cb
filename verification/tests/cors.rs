use tapir::cors::{ResponseEdit, CORS};
use tapir::http::{Header, Method};

fn cors_headers() -> Vec<Header> {
    vec![
        Header::new("Access-Control-Allow-Origin", "*"),
        Header::new("Access-Control-Allow-Methods", "POST, GET, PATCH, OPTIONS"),
        Header::new("Access-Control-Allow-Headers", "*"),
        Header::new("Access-Control-Allow-Credentials", "true"),
    ]
}

#[test]
fn unmatched_preflight_is_answered_without_content() {
    let edit = CORS.on_response(Method::Options, false);
    assert_eq!(edit, ResponseEdit { headers: cors_headers(), status: Some(204), drop_body: true });
}

#[test]
fn every_other_response_keeps_status_and_body() {
    let methods = [
        Method::Get,
        Method::Put,
        Method::Post,
        Method::Delete,
        Method::Head,
        Method::Trace,
        Method::Connect,
        Method::Patch,
    ];
    for method in methods {
        for routed in [false, true] {
            let edit = CORS.on_response(method, routed);
            assert_eq!(
                edit,
                ResponseEdit { headers: cors_headers(), status: None, drop_body: false }
            );
        }
    }
    let edit = CORS.on_response(Method::Options, true);
    assert_eq!(edit, ResponseEdit { headers: cors_headers(), status: None, drop_body: false });
}

#[test]
fn fairing_acts_on_responses() {
    let info = CORS.info();
    assert_eq!(info.name, "Attaching CORS headers to responses");
    assert!(info.on_response);
}

#[test]
fn header_holds_name_and_value() {
    let header = Header::new("Content-Type", "text/plain");
    assert_eq!(header.name, "Content-Type");
    assert_eq!(header.value, "text/plain");
}
