use kerbridge_client::address::{host_of_url, origin, require_https, shares_origin, source_name};
use kerbridge_client::discovery::{
    ambiguous_source, complete, config_of, config_url, metadata_url, read_client, read_config,
    read_defaults, read_endpoints, read_grants, read_help, read_metadata, read_realm,
    resolve_base_url, source_base,
};
use kerbridge_client::errors::{untrusted_host, Chain};
use kerbridge_client::http::{describe, get_text, Reply};
use kerbridge_client::json::{parse, Json};

fn answered(status: u16, body: &str) -> Reply {
    Reply::Answered { status, body: body.to_owned() }
}

#[test]
fn plaintext_and_non_urls_are_refused() {
    for bad in [
        "http://broker.example.site/",
        "ftp://broker.example.site/",
        // Parses, but names no host and is not a transport.
        "javascript:alert(1)//https://broker.example.site",
        // Prefix-shaped and not a URL.
        "https://",
        "https://[bad",
        "not a url",
        "",
    ] {
        assert!(require_https(bad).is_err(), "{bad:?} must be refused");
    }
}

#[test]
fn a_base_url_may_not_move_the_client_off_the_origin_it_reached() {
    let asked = "https://kerbridge.example.site/config";
    let base = |v: &str| resolve_base_url(asked, &parse(v).unwrap());

    assert_eq!(
        base("{\"base_url\": \"/entra\"}").ok().unwrap(),
        "https://kerbridge.example.site/entra"
    );
    // No field: the address asked is the base, which is what a broker predating source
    // routing leaves the client with.
    assert_eq!(base("{}").ok().unwrap(), "https://kerbridge.example.site");

    for off in ["https://elsewhere.example/entra", "//elsewhere.example/entra"] {
        assert!(base(&format!("{{\"base_url\": \"{off}\"}}")).is_err(), "{off} must be refused");
    }
}

#[test]
fn a_source_name_is_the_last_segment_or_nothing() {
    assert_eq!(source_name("https://kerbridge.example.site/entra"), "entra");
    assert_eq!(source_name("https://kerbridge.example.site/entra/"), "entra");
    for none in ["https://kerbridge.example.site", "https://kerbridge.example.site/", "nonsense"] {
        assert_eq!(source_name(none), "", "{none} names no source");
    }
}

#[test]
fn only_a_404_naming_sources_is_ambiguous() {
    let body = r#"{"error": "which source?", "sources": ["entra", "entra-legacy"]}"#;
    let found = ambiguous_source(404, body).expect("a sources list makes it ambiguous");
    assert_eq!(found.sources, ["entra", "entra-legacy"]);

    for (status, body) in [
        // The 404s that are a bare web server, a stale proxy or a wrong host.
        (404, ""),
        (404, "<html>Not Found</html>"),
        (404, r#"{"error": "no such source"}"#),
        (404, r#"{"sources": []}"#),
        // The list read off any other status is not this.
        (200, body),
    ] {
        assert!(ambiguous_source(status, body).is_none(), "{status} {body:?}");
    }
}

/// The false negatives, which is the half a prefix test got wrong in the direction that
/// breaks a working deployment rather than admitting a bad one.
#[test]
fn valid_https_urls_a_prefix_test_would_have_refused() {
    for good in [
        "https://broker.example.site/config",
        // An operator who typed the scheme in caps.
        "HTTPS://broker.example.site/",
        "HttpS://broker.example.site/",
        // Leading space out of a hand-edited file.
        "  https://broker.example.site/",
        // No path, which is what a bare hostname becomes.
        "https://broker.example.site",
    ] {
        assert!(require_https(good).is_ok(), "{good:?} must be accepted");
    }
}

const CONFIG: &str = r#"{
    "base_url": "/entra",
    "oidc": {
        "client_id": "cid",
        "display_name": "Contoso",
        "authority": "https://login.example/tenant/v2.0",
        "scopes": ["openid", "api://broker/.default"]
    },
    "kerberos": {"realm": "example.site", "kdcs": ["kdc.example.site"], "services": []},
    "device_grant": {"days": 30, "audience": "kerbridge://EXAMPLE.SITE"},
    "help_url": "https://it.example.site/help"
}"#;

#[test]
fn a_broker_is_discovered_in_two_replies() {
    let url = config_url("https://kerbridge.example.site/").ok().unwrap();
    assert_eq!(url, "https://kerbridge.example.site/config");
    let read = read_config(&url, answered(200, CONFIG)).map_err(|e| e.message()).unwrap();
    assert_eq!(read.base_url, "https://kerbridge.example.site/entra");
    let asked = metadata_url(&read.authority);
    assert_eq!(asked, "https://login.example/tenant/v2.0/.well-known/openid-configuration");
    let metadata = r#"{
        "authorization_endpoint": "https://login.example/authorize",
        "token_endpoint": "https://login.example/token"
    }"#;
    let found = read_metadata(read, &asked, answered(200, metadata)).map_err(|e| e.message()).unwrap();
    assert_eq!(found.oidc.client_id, "cid");
    assert_eq!(found.oidc.token_endpoint, "https://login.example/token");
    assert_eq!(found.kerberos.realm, "EXAMPLE.SITE");
    assert_eq!(found.device_grant.days, 30);
    assert!(found.device_grant.enabled());
}

#[test]
fn nothing_discovered_is_plaintext() {
    let url = "https://kerbridge.example.site/config";
    let plain = CONFIG.replace("https://login.example", "http://login.example");
    assert!(read_config(url, answered(200, &plain)).is_err());
    let read = read_config(url, answered(200, CONFIG)).ok().unwrap();
    let asked = metadata_url(&read.authority);
    let metadata = r#"{
        "authorization_endpoint": "http://login.example/authorize",
        "token_endpoint": "https://login.example/token"
    }"#;
    assert!(read_metadata(read, &asked, answered(200, metadata)).is_err());
    assert!(config_url("http://kerbridge.example.site").is_err());
}

#[test]
fn an_ambiguous_broker_says_so() {
    let url = "https://kerbridge.example.site/config";
    let body = r#"{"sources": ["entra", "entra-legacy"]}"#;
    let e: Chain = source_base(url, answered(404, body)).err().unwrap();
    assert_eq!(e.ambiguous().unwrap().sources, ["entra", "entra-legacy"]);
    assert!(source_base(url, answered(404, "")).err().unwrap().ambiguous().is_none());
    assert_eq!(
        source_base(url, answered(200, r#"{"base_url": "/entra"}"#)).ok().unwrap(),
        "https://kerbridge.example.site/entra"
    );
}

#[test]
fn an_untrusted_certificate_names_its_host() {
    let f = describe("https://kerbridge.example.site/config", "bad certificate", true, Some("CN=x"));
    let e = get_text("https://kerbridge.example.site/config", Reply::Failed(f)).err().unwrap();
    assert_eq!(untrusted_host(&e), Some("kerbridge.example.site"));
    let f = describe("https://kerbridge.example.site/config", "timeout: global", false, None);
    let e = get_text("https://kerbridge.example.site/config", Reply::Failed(f)).err().unwrap();
    assert_eq!(untrusted_host(&e), None);
    assert_eq!(host_of_url("https://kerbridge.example.site:8443/x"), "kerbridge.example.site");
}

fn without(text: &str, line: &str) -> Json {
    parse(&text.replace(line, "")).unwrap()
}

#[test]
fn a_document_is_read_block_by_block() {
    let d = parse(CONFIG).unwrap();
    let read = config_of(&d, "https://b.example".into()).map_err(|e| e.message()).unwrap();
    assert_eq!(read.base_url, "https://b.example");
    assert_eq!(read.scopes, ["openid", "api://broker/.default"]);
    assert_eq!(read.help_url.as_deref(), Some("https://it.example.site/help"));
    assert_eq!(read_realm(&d).ok().unwrap().kdcs, ["kdc.example.site"]);
    assert_eq!(read_client(&d).ok().unwrap().1, "Contoso");
    assert_eq!(read_grants(&Json::Null).days, 0);
    assert_eq!(read_defaults(&d).autostart, None);
    let said = parse(r#"{"client_defaults": {"autostart": false, "windows_sign_in": "yes"}}"#);
    let defaults = read_defaults(&said.unwrap());
    assert_eq!((defaults.autostart, defaults.windows_sign_in), (Some(false), None));
    assert_eq!(read_help(&parse(r#"{"help_url": "http://plain.example"}"#).unwrap()), None);
}

#[test]
fn what_a_document_lacks_is_named() {
    let said = |d: &Json| config_of(d, String::new()).err().unwrap().message();
    assert_eq!(said(&Json::Null), "/config has no `oidc` block");
    let no_client = without(CONFIG, "\"client_id\": \"cid\",");
    assert!(said(&no_client).starts_with("/config oidc: "), "{}", said(&no_client));
    let no_scope = parse(&CONFIG.replace("\"openid\", \"api://broker/.default\"", "")).unwrap();
    assert_eq!(said(&no_scope), "/config oidc.scopes is empty");
    let no_realm = parse(&CONFIG.replace("\"kerberos\"", "\"other\"")).unwrap();
    assert_eq!(said(&no_realm), "/config has no `kerberos` block");
}

#[test]
fn a_plaintext_logout_is_refused_rather_than_dropped() {
    let ends = |logout: &str| {
        parse(&format!(
            "{{\"authorization_endpoint\": \"https://l/a\", \"token_endpoint\": \"https://l/t\", \
             \"end_session_endpoint\": \"{logout}\"}}"
        ))
        .unwrap()
    };
    let read = read_endpoints(&ends("https://l/o")).ok().unwrap();
    assert_eq!(read.2.as_deref(), Some("https://l/o"));
    let refused = read_endpoints(&ends("http://l/o")).err().unwrap().message();
    assert!(refused.starts_with("OIDC metadata end_session_endpoint: "), "{refused}");
    let config = config_of(&parse(CONFIG).unwrap(), "https://b".into()).ok().unwrap();
    assert_eq!(complete(config, &ends("https://l/o")).ok().unwrap().oidc.token_endpoint, "https://l/t");
}

#[test]
fn an_origin_is_scheme_host_and_port() {
    let of = |url: &str| origin(url).map(|o| (o.scheme, o.host, o.port, o.text));
    let here = of("https://kerbridge.example.site/entra").unwrap();
    assert_eq!(here.2, 443);
    assert_eq!(here.3, "https://kerbridge.example.site");
    assert_eq!(of("https://h.example:8443/").unwrap().3, "https://h.example:8443");
    assert!(of("file:///etc/hosts").is_none() && of("mailto:a@b").is_none());
    assert!(of("no url").is_none());
    // A blob has the origin of what is in it, however deep.
    assert_eq!(of("blob:https://h.example/x").unwrap().1, "h.example");
    assert!(of("blob:nothing").is_none());
    let deep = format!("{}https://h.example/x", "blob:".repeat(2_000));
    assert_eq!(of(&deep).unwrap().1, "h.example");
    assert!(shares_origin(&origin("https://a.example/x"), &origin("https://a.example:443/y")));
    assert!(!shares_origin(&origin("https://a.example"), &origin("http://a.example")));
    assert!(!shares_origin(&origin("file:///a"), &origin("file:///a")));
}

#[test]
fn a_deeply_nested_url_is_refused_like_any_other() {
    let deep = "blob:".repeat(50_000);
    assert!(require_https(&deep).is_err());
    assert_eq!(host_of_url(&deep), deep);
    assert_eq!(source_name(&deep), "");
    let config = parse(&format!("{{\"base_url\": \"{}\"}}", "blob:".repeat(2_000))).unwrap();
    let asked = "https://kerbridge.example.site/config";
    let why = resolve_base_url(asked, &config).err().unwrap().message();
    assert!(why.ends_with("points off `https://kerbridge.example.site`"), "{why}");
}
