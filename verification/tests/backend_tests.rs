use ddns_client::backends::Config;
use ddns_client::cloudflare;
use ddns_client::matching::{build_fq_name, record_name_matches};
use ddns_client::porkbun;
use ddns_client::response::{assemble_record, interpret_find, success_flag, RawRecord};

fn raw(id: &str, name: &str, record_type: &str, content: &str) -> RawRecord {
    RawRecord {
        id: Some(id.to_string()),
        name: Some(name.to_string()),
        record_type: Some(record_type.to_string()),
        content: Some(content.to_string()),
    }
}

#[test]
fn fq_name_is_subdomain_dot_domain() {
    assert_eq!(build_fq_name("home", "example.com"), "home.example.com");
}

#[test]
fn matching_is_by_whole_name() {
    assert!(record_name_matches("home.example.com", "home", "example.com"));
    assert!(!record_name_matches("other.example.com", "home", "example.com"));
    // A longer first label sharing the prefix must not match.
    assert!(!record_name_matches("homework.example.com", "home", "example.com"));
    assert!(!record_name_matches("home.example.com.evil.net", "home", "example.com"));
}

#[test]
fn find_returns_the_matching_record_in_either_order() {
    let a = raw("r1", "other.example.com", "A", "5.5.5.5");
    let b = raw("r2", "home.example.com", "A", "1.1.1.1");
    let found = interpret_find(true, &vec![a, b], "home", "example.com").expect("must match");
    assert_eq!(found.id, "r2");
    assert_eq!(found.name, "home.example.com");

    let a = raw("r1", "other.example.com", "A", "5.5.5.5");
    let b = raw("r2", "home.example.com", "A", "1.1.1.1");
    let found = interpret_find(true, &vec![b, a], "home", "example.com").expect("must match");
    assert_eq!(found.id, "r2");
}

#[test]
fn find_without_match_or_success_is_none() {
    let b = raw("r2", "home.example.com", "A", "1.1.1.1");
    assert!(interpret_find(false, &vec![b], "home", "example.com").is_none());
    let a = raw("r1", "other.example.com", "A", "5.5.5.5");
    assert!(interpret_find(true, &vec![a], "home", "example.com").is_none());
    assert!(interpret_find(true, &vec![], "home", "example.com").is_none());
}

#[test]
fn record_with_missing_field_does_not_assemble() {
    let mut r = raw("r2", "home.example.com", "A", "1.1.1.1");
    r.content = None;
    assert!(assemble_record(r).is_none());
    let whole = raw("r2", "home.example.com", "A", "1.1.1.1");
    assert!(assemble_record(whole).is_some());
}

#[test]
fn success_flag_must_be_present_and_true() {
    assert!(success_flag(Some(true)));
    assert!(!success_flag(Some(false)));
    assert!(!success_flag(None));
}

#[test]
fn cloudflare_urls_and_header() {
    assert_eq!(
        cloudflare::records_url("z1"),
        "https://api.cloudflare.com/client/v4/zones/z1/dns_records"
    );
    assert_eq!(
        cloudflare::record_url("z1", "r9"),
        "https://api.cloudflare.com/client/v4/zones/z1/dns_records/r9"
    );
    assert_eq!(cloudflare::bearer_value("k"), "Bearer k");
}

#[test]
fn cloudflare_update_body_is_rendered_json() {
    let body = cloudflare::update_body("A", "home", "example.com", "2.2.2.2");
    assert_eq!(
        body,
        "{\"content\":\"2.2.2.2\",\"name\":\"home.example.com\",\"type\":\"A\"}"
    );
}

#[test]
fn cloudflare_listing_is_parsed() {
    let body = "{\"success\":true,\"result\":[{\"id\":\"r1\",\"name\":\"other.example.com\",\"type\":\"A\",\"content\":\"5.5.5.5\"},{\"id\":\"r2\",\"name\":\"home.example.com\",\"type\":\"A\",\"content\":\"1.1.1.1\"}]}";
    let rec = cloudflare::parse_retrieve_response(body, "home", "example.com").expect("must parse");
    assert_eq!(rec.id, "r2");
    assert_eq!(rec.name, "home.example.com");
    assert_eq!(rec.record_type, "A");
    assert_eq!(rec.content, "1.1.1.1");
}

#[test]
fn cloudflare_malformed_listing_is_none() {
    assert!(cloudflare::parse_retrieve_response("not json", "home", "example.com").is_none());
    assert!(cloudflare::parse_retrieve_response("{}", "home", "example.com").is_none());
    let unsuccessful = "{\"success\":false,\"result\":[{\"id\":\"r2\",\"name\":\"home.example.com\",\"type\":\"A\",\"content\":\"1.1.1.1\"}]}";
    assert!(cloudflare::parse_retrieve_response(unsuccessful, "home", "example.com").is_none());
    let missing_field = "{\"success\":true,\"result\":[{\"id\":\"r2\",\"name\":\"home.example.com\",\"type\":\"A\"}]}";
    assert!(cloudflare::parse_retrieve_response(missing_field, "home", "example.com").is_none());
}

#[test]
fn cloudflare_update_echo_is_parsed() {
    let body = "{\"success\":true,\"result\":{\"id\":\"r2\",\"name\":\"home.example.com\",\"type\":\"A\",\"content\":\"2.2.2.2\"}}";
    let rec = cloudflare::parse_update_response(body).expect("must parse");
    assert_eq!(rec.content, "2.2.2.2");
    assert!(cloudflare::parse_update_response("{\"success\":false}").is_none());
    assert!(cloudflare::parse_update_response("{}").is_none());
    let missing_field =
        "{\"success\":true,\"result\":{\"id\":\"r2\",\"name\":\"home.example.com\",\"type\":\"A\"}}";
    assert!(cloudflare::parse_update_response(missing_field).is_none());
}

#[test]
fn porkbun_urls() {
    assert_eq!(
        porkbun::retrieve_url("example.com"),
        "https://porkbun.com/api/json/v3/dns/retrieve/example.com"
    );
    assert_eq!(
        porkbun::retrieve_by_id_url("example.com", "r9"),
        "https://porkbun.com/api/json/v3/dns/retrieve/example.com/r9"
    );
    assert_eq!(
        porkbun::edit_url("example.com", "r9"),
        "https://porkbun.com/api/json/v3/dns/edit/example.com/r9"
    );
}

#[test]
fn porkbun_bodies_are_rendered_json() {
    assert_eq!(
        porkbun::auth_body("k", "s"),
        "{\"apikey\":\"k\",\"secretapikey\":\"s\"}"
    );
    assert_eq!(
        porkbun::edit_body("k", "s", "2.2.2.2", "A"),
        "{\"apikey\":\"k\",\"content\":\"2.2.2.2\",\"secretapikey\":\"s\",\"type\":\"A\"}"
    );
    // Credentials with JSON metacharacters must be escaped, not spliced.
    assert_eq!(
        porkbun::auth_body("k\"x", "s"),
        "{\"apikey\":\"k\\\"x\",\"secretapikey\":\"s\"}"
    );
}

#[test]
fn porkbun_listing_is_parsed() {
    let body = "{\"status\":\"SUCCESS\",\"records\":[{\"id\":\"r1\",\"name\":\"other.example.com\",\"type\":\"A\",\"content\":\"5.5.5.5\"},{\"id\":\"r2\",\"name\":\"home.example.com\",\"type\":\"A\",\"content\":\"1.1.1.1\"}]}";
    let rec = porkbun::parse_retrieve_response(body, "home", "example.com").expect("must parse");
    assert_eq!(rec.id, "r2");
    assert_eq!(rec.content, "1.1.1.1");
}

#[test]
fn porkbun_failed_or_malformed_listing_is_none() {
    assert!(porkbun::parse_retrieve_response("not json", "home", "example.com").is_none());
    let failed = "{\"status\":\"ERROR\",\"records\":[{\"id\":\"r2\",\"name\":\"home.example.com\",\"type\":\"A\",\"content\":\"1.1.1.1\"}]}";
    assert!(porkbun::parse_retrieve_response(failed, "home", "example.com").is_none());
    let missing_status = "{\"records\":[]}";
    assert!(porkbun::parse_retrieve_response(missing_status, "home", "example.com").is_none());
}

#[test]
fn porkbun_read_by_id_is_parsed() {
    let body = "{\"status\":\"SUCCESS\",\"record\":[{\"id\":\"r2\",\"name\":\"home.example.com\",\"type\":\"A\",\"content\":\"2.2.2.2\"}]}";
    let rec = porkbun::parse_retrieve_by_id_response(body).expect("must parse");
    assert_eq!(rec.id, "r2");
    assert_eq!(rec.content, "2.2.2.2");
    assert!(porkbun::parse_retrieve_by_id_response("{\"status\":\"SUCCESS\",\"record\":[]}").is_none());
    assert!(porkbun::parse_retrieve_by_id_response("{\"status\":\"ERROR\",\"record\":[]}").is_none());
    assert!(porkbun::parse_retrieve_by_id_response("nope").is_none());
}

#[test]
fn porkbun_edit_status_is_read() {
    assert!(porkbun::parse_edit_response("{\"status\":\"SUCCESS\"}"));
    assert!(!porkbun::parse_edit_response("{\"status\":\"ERROR\"}"));
    assert!(!porkbun::parse_edit_response("{}"));
    assert!(!porkbun::parse_edit_response("not json"));
}

#[test]
fn porkbun_update_needs_both_steps() {
    let rec = || ddns_client::backends::Record {
        id: "r2".to_string(),
        name: "home.example.com".to_string(),
        record_type: "A".to_string(),
        content: "2.2.2.2".to_string(),
    };
    // Edit succeeded but the follow-up read failed: the whole update fails.
    assert!(porkbun::update_outcome(true, None).is_none());
    assert!(porkbun::update_outcome(false, Some(rec())).is_none());
    let got = porkbun::update_outcome(true, Some(rec())).expect("both steps succeeded");
    assert_eq!(got.content, "2.2.2.2");
}

#[test]
fn config_carries_the_poll_interval() {
    let porkbun = Config::Porkbun {
        api_key: "k".to_string(),
        secret_key: "s".to_string(),
        domain: "example.com".to_string(),
        subdomain: "home".to_string(),
        update_every_seconds: 60,
    };
    assert_eq!(porkbun.interval_seconds(), 60);
    let cloudflare = Config::Cloudflare {
        zone_id: "z".to_string(),
        api_key: "k".to_string(),
        domain: "example.com".to_string(),
        subdomain: "home".to_string(),
        update_every_seconds: 300,
    };
    assert_eq!(cloudflare.interval_seconds(), 300);
}
