use ddns_client::backends::{Config, Record};
use ddns_client::registry::{
    find_request, interpret_find_response, interpret_update_response, update_followup_request,
    update_needs_followup, update_request, HttpMethod,
};

fn cloudflare_config() -> Config {
    Config::Cloudflare {
        zone_id: "z1".to_string(),
        api_key: "k".to_string(),
        domain: "example.com".to_string(),
        subdomain: "home".to_string(),
        update_every_seconds: 60,
    }
}

fn porkbun_config() -> Config {
    Config::Porkbun {
        api_key: "k".to_string(),
        secret_key: "s".to_string(),
        domain: "example.com".to_string(),
        subdomain: "home".to_string(),
        update_every_seconds: 60,
    }
}

fn record() -> Record {
    Record {
        id: "r2".to_string(),
        name: "home.example.com".to_string(),
        record_type: "A".to_string(),
        content: "1.1.1.1".to_string(),
    }
}

#[test]
fn discovery_is_planned_per_variant() {
    let plan = find_request(&porkbun_config());
    assert!(matches!(plan.method, HttpMethod::Post));
    assert_eq!(plan.url, "https://porkbun.com/api/json/v3/dns/retrieve/example.com");
    assert!(plan.auth_bearer.is_none());
    assert_eq!(
        plan.body.as_deref(),
        Some("{\"apikey\":\"k\",\"secretapikey\":\"s\"}")
    );

    let plan = find_request(&cloudflare_config());
    assert!(matches!(plan.method, HttpMethod::Get));
    assert_eq!(plan.url, "https://api.cloudflare.com/client/v4/zones/z1/dns_records");
    assert_eq!(plan.auth_bearer.as_deref(), Some("Bearer k"));
    assert!(plan.body.is_none());
}

#[test]
fn update_is_planned_per_variant() {
    let plan = update_request(&porkbun_config(), &record(), "2.2.2.2");
    assert!(matches!(plan.method, HttpMethod::Post));
    assert_eq!(plan.url, "https://porkbun.com/api/json/v3/dns/edit/example.com/r2");
    assert!(plan.auth_bearer.is_none());
    assert_eq!(
        plan.body.as_deref(),
        Some("{\"apikey\":\"k\",\"content\":\"2.2.2.2\",\"secretapikey\":\"s\",\"type\":\"A\"}")
    );

    let plan = update_request(&cloudflare_config(), &record(), "2.2.2.2");
    assert!(matches!(plan.method, HttpMethod::Patch));
    assert_eq!(
        plan.url,
        "https://api.cloudflare.com/client/v4/zones/z1/dns_records/r2"
    );
    assert_eq!(plan.auth_bearer.as_deref(), Some("Bearer k"));
    assert_eq!(
        plan.body.as_deref(),
        Some("{\"content\":\"2.2.2.2\",\"name\":\"home.example.com\",\"type\":\"A\"}")
    );
}

#[test]
fn followup_is_planned_for_porkbun_only() {
    assert!(update_followup_request(&cloudflare_config(), &record()).is_none());
    let plan = update_followup_request(&porkbun_config(), &record()).expect("a follow-up plan");
    assert!(matches!(plan.method, HttpMethod::Post));
    assert_eq!(
        plan.url,
        "https://porkbun.com/api/json/v3/dns/retrieve/example.com/r2"
    );
    assert_eq!(
        plan.body.as_deref(),
        Some("{\"apikey\":\"k\",\"secretapikey\":\"s\"}")
    );
}

#[test]
fn followup_is_needed_only_after_a_successful_edit() {
    assert!(update_needs_followup(&porkbun_config(), "{\"status\":\"SUCCESS\"}"));
    assert!(!update_needs_followup(&porkbun_config(), "{\"status\":\"ERROR\"}"));
    assert!(!update_needs_followup(&cloudflare_config(), "{\"success\":true}"));
}

#[test]
fn discovery_response_is_interpreted_per_variant() {
    let cf_body = "{\"success\":true,\"result\":[{\"id\":\"r2\",\"name\":\"home.example.com\",\"type\":\"A\",\"content\":\"1.1.1.1\"}]}";
    let rec = interpret_find_response(&cloudflare_config(), cf_body).expect("must match");
    assert_eq!(rec.id, "r2");
    // The Porkbun listing speaks status/records, so the Cloudflare shape is
    // no result for it — and its own shape is.
    assert!(interpret_find_response(&porkbun_config(), cf_body).is_none());
    let pb_body = "{\"status\":\"SUCCESS\",\"records\":[{\"id\":\"r2\",\"name\":\"home.example.com\",\"type\":\"A\",\"content\":\"1.1.1.1\"}]}";
    let rec = interpret_find_response(&porkbun_config(), pb_body).expect("must match");
    assert_eq!(rec.id, "r2");
    assert!(interpret_find_response(&cloudflare_config(), pb_body).is_none());
}

#[test]
fn update_responses_are_interpreted_per_variant() {
    let echo = "{\"success\":true,\"result\":{\"id\":\"r2\",\"name\":\"home.example.com\",\"type\":\"A\",\"content\":\"2.2.2.2\"}}";
    let rec = interpret_update_response(&cloudflare_config(), echo, None).expect("must parse");
    assert_eq!(rec.content, "2.2.2.2");

    let edit = "{\"status\":\"SUCCESS\"}";
    let followup = "{\"status\":\"SUCCESS\",\"record\":[{\"id\":\"r2\",\"name\":\"home.example.com\",\"type\":\"A\",\"content\":\"2.2.2.2\"}]}";
    let rec = interpret_update_response(&porkbun_config(), edit, Some(followup))
        .expect("both steps succeeded");
    assert_eq!(rec.content, "2.2.2.2");
    // Edit succeeded but the follow-up read failed: the update fails whole.
    assert!(interpret_update_response(&porkbun_config(), edit, None).is_none());
    assert!(
        interpret_update_response(&porkbun_config(), "{\"status\":\"ERROR\"}", Some(followup))
            .is_none()
    );
}
