use kerbridge_client::broker::{
    check_target, for_target, list_of, list_request, nonce_of, nonce_request, parse_device,
    parse_ticket, read_list, read_nonce, read_registration, read_revocation, read_ticket, receive, register_request,
    revoke_request, ticket_request, AuthScheme, BrokerError, Method,
};
use kerbridge_client::http::{describe, Reply};
use kerbridge_client::json::{parse, Json};

fn device_without(key: &str) -> Json {
    let fields = [
        ("grant_id", "\"1a2b3c4d\""),
        ("identity", "\"kb1|entra|33334444-dddd-5555-eeee-6666ffff7777\""),
        ("label", "\"BUILD01\\\\builder\""),
        ("added", "1785000000"),
        ("last_seen", "1785600000"),
        ("sign_in_required_by", "1787592000"),
        ("clamped", "false"),
    ];
    let kept: Vec<String> = fields
        .iter()
        .filter(|(k, _)| *k != key)
        .map(|(k, v)| format!("\"{k}\": {v}"))
        .collect();
    parse(&format!("{{{}}}", kept.join(", "))).expect("a device")
}

fn device_json() -> Json {
    device_without("")
}

fn answered(status: u16, body: &str) -> Reply {
    Reply::Answered { status, body: body.to_owned() }
}

#[test]
fn a_device_carries_what_a_later_exchange_and_a_listing_need() {
    let device = parse_device(&device_json()).expect("parses");
    assert_eq!(device.grant_id, "1a2b3c4d");
    assert_eq!(device.identity, "kb1|entra|33334444-dddd-5555-eeee-6666ffff7777");
    assert_eq!(device.label, "BUILD01\\builder");
    assert_eq!(device.sign_in_required_by, 1_787_592_000);
    assert_eq!(device.last_seen, Some(1_785_600_000));
    assert!(!device.clamped);

    // Omitted until the grant has been used, which is not the same as used at the
    // epoch: a listing must be able to say "never".
    assert_eq!(parse_device(&device_without("last_seen")).unwrap().last_seen, None);
}

/// A `kb1|` value carries the delimiter `|`, which is not a query-string character: the
/// one thing this must not do is send it raw.
#[test]
fn a_literal_identity_survives_the_query_string() {
    let id = "kb1|entra|33334444-dddd-5555-eeee-6666ffff7777";
    let url = for_target("https://broker.example.site/devices".into(), Some(id));
    assert!(!url.contains('|'), "{url}");
    assert!(url.contains("kb1%7Centra"), "{url}");
    assert!(url.starts_with("https://broker.example.site/devices?for="), "{url}");
    assert_eq!(for_target("https://b/devices".into(), None), "https://b/devices");
}

#[test]
fn a_upn_is_refused_before_it_costs_a_sign_in() {
    assert!(check_target("svc-builder").is_ok());
    assert!(check_target("kb1|entra|33334444-dddd-5555-eeee-6666ffff7777").is_ok());
    assert!(check_target("riku@example.site").is_err());
    assert!(check_target("  ").is_err());
}

/// The strict/lenient split: a missing display field costs a blank column, a missing
/// required one must cost the whole registration.
#[test]
fn only_the_fields_a_later_exchange_depends_on_are_required() {
    for cosmetic in ["label", "added", "clamped", "last_seen"] {
        assert!(
            parse_device(&device_without(cosmetic)).is_ok(),
            "{cosmetic} must not fail a registration"
        );
    }
    for required in ["grant_id", "identity", "sign_in_required_by"] {
        assert!(
            parse_device(&device_without(required)).is_err(),
            "{required} must be refused"
        );
    }
}

#[test]
fn a_parameter_is_sent_in_safe_characters() {
    let url = for_target("https://b/devices".into(), Some("a b&c=ä/*-._"));
    assert_eq!(url, "https://b/devices?for=a+b%26c%3D%C3%A4%2F*-._");
}

#[test]
fn every_status_is_an_error_of_its_own() {
    let says = |status: u16, body: &str| receive(answered(status, body)).err().unwrap();
    assert!(matches!(says(400, "{\"error\": \"x\"}"), BrokerError::BadRequest(s) if s == "x"));
    assert!(matches!(says(401, "{\"error\": \"x\"}"), BrokerError::InvalidProof(s) if s == "x"));
    assert!(matches!(says(403, "{\"error\": \"x\"}"), BrokerError::NotAdmitted(s) if s == "x"));
    assert!(matches!(says(404, "{\"error\": \"x\"}"), BrokerError::NotFound(s) if s == "x"));
    assert!(matches!(says(409, "{\"error\": \"x\"}"), BrokerError::Conflict(s) if s == "x"));
    assert!(matches!(says(429, "{}"), BrokerError::RateLimited));
    assert!(matches!(says(502, "{\"error\": \"x\"}"), BrokerError::ServerUnavailable(_)));
    assert!(matches!(says(418, "{\"error\": \"x\"}"), BrokerError::Unexpected(418, s) if s == "x"));
    assert_eq!(receive(answered(200, "body")).ok().unwrap(), "body");
}

#[test]
fn reachability_is_never_a_refusal() {
    let failed = |tls: bool, peer: Option<&str>| {
        let f = describe("https://b.example/ticket", "it went wrong", tls, peer);
        receive(Reply::Failed(f)).err().unwrap()
    };
    let said = "https://b.example/ticket: it went wrong";
    assert!(matches!(failed(false, None), BrokerError::Unreachable(m) if m == said));
    assert!(matches!(failed(false, Some("CN=x")), BrokerError::Unreachable(m) if m == said));
    // TLS that died before any certificate was shown is a line that is down.
    assert!(matches!(failed(true, None), BrokerError::Unreachable(m) if m == said));
    assert!(matches!(
        failed(true, Some("CN=x")),
        BrokerError::Untrusted(m) if m == format!("{said}\nCN=x")
    ));
    assert!(matches!(
        receive(Reply::Unread("cut short".into())).err().unwrap(),
        BrokerError::BadResponse(_)
    ));
}

#[test]
fn a_ticket_is_decoded_from_base64() {
    let body = "{\"principal\": \"alice@EXAMPLE.SITE\", \"ccache_b64\": \"BQQADA==\"}";
    let ticket = parse_ticket(body).ok().unwrap();
    assert_eq!(ticket.principal, "alice@EXAMPLE.SITE");
    assert_eq!(ticket.ccache, [0x05, 0x04, 0x00, 0x0c]);
    assert!(read_ticket(answered(200, body)).is_ok());
    for bad in [
        "",
        "{}",
        "{\"principal\": \"alice@EXAMPLE.SITE\"}",
        "{\"principal\": \"alice@EXAMPLE.SITE\", \"ccache_b64\": \"!\"}",
    ] {
        assert!(matches!(parse_ticket(bad).err().unwrap(), BrokerError::BadResponse(_)), "{bad}");
    }
}

#[test]
fn the_requests_name_their_route_and_their_proof() {
    let r = ticket_request("https://b.example/entra", AuthScheme::Bearer("T"));
    assert!(matches!(r.method, Method::Post));
    assert_eq!(r.url, "https://b.example/entra/ticket");
    assert_eq!(r.authorization.as_deref(), Some("Bearer T"));

    let r = revoke_request("https://b.example", AuthScheme::DeviceGrant("A"), "1a2b", None);
    assert!(matches!(r.method, Method::Delete));
    assert_eq!(r.url, "https://b.example/devices/1a2b");
    assert_eq!(r.authorization.as_deref(), Some("DeviceGrant A"));

    let r = list_request("https://b.example/", "T", Some("svc"));
    assert!(matches!(r.method, Method::Get));
    assert_eq!(r.url, "https://b.example/devices?for=svc");

    let r = register_request("https://b.example", "T", "es256", "KEY", "BUILD01", None);
    let body = parse(r.body.as_deref().unwrap()).unwrap();
    assert_eq!(body.get("alg").unwrap().as_str(), Some("es256"));
    assert_eq!(body.get("key").unwrap().as_str(), Some("KEY"));
    assert_eq!(body.get("label").unwrap().as_str(), Some("BUILD01"));

    assert!(nonce_request("https://b.example").url.starts_with("https://b.example/"));
}

#[test]
fn the_other_replies_are_read() {
    assert_eq!(read_nonce(answered(200, "{\"nonce\": \"n\"}")).ok().unwrap(), "n");
    assert!(read_nonce(answered(200, "{}")).is_err());
    assert!(read_revocation(answered(204, "")).is_ok());
    assert!(read_revocation(answered(404, "{\"error\": \"x\"}")).is_err());
    assert!(read_registration(answered(200, "{}")).is_err());
    assert_eq!(read_list(answered(200, "{\"devices\": []}")).ok().unwrap().len(), 0);
    assert!(read_list(answered(200, "{\"devices\": [{}]}")).is_err());
    assert_eq!(nonce_of(&parse("{\"nonce\": \"n\"}")).ok().unwrap(), "n");
    assert!(nonce_of(&Err("no document".into())).is_err());
    let list = Json::Object(vec![(
        "devices".into(),
        Json::Array(vec![device_json(), device_without("label")]),
    )]);
    assert_eq!(list_of(&list).ok().unwrap().len(), 2);
    assert!(list_of(&Json::Null).is_err());
}
