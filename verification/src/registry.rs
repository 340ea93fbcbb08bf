//! The backend registry: from the active configuration variant to the
//! provider requests and response interpretations.
//!
//! The loop never branches on the provider kind itself.  It asks the
//! registry for a request plan — method, URL, optional bearer token and
//! optional body — hands the plan to the surrounding application to issue,
//! and gives the response body back to the registry to interpret.  Each
//! plan carries exactly the fields the active variant holds, and each
//! interpretation equals the chosen backend's interpretation of the body.

use vstd::prelude::*;
use crate::backends::Config;
use crate::backends::Record;
use crate::matching::name_matches;
use crate::cloudflare;
use crate::cloudflare::spec_records_url;
use crate::cloudflare::spec_record_url;
use crate::cloudflare::spec_bearer;
use crate::cloudflare::spec_update_body;
use crate::porkbun;
use crate::porkbun::spec_retrieve_url;
use crate::porkbun::spec_edit_url;
use crate::porkbun::spec_retrieve_by_id_url;
use crate::porkbun::spec_auth_body;
use crate::porkbun::spec_edit_body;

verus! {

/// The HTTP method of a request plan.
pub enum HttpMethod {
    Get,
    Post,
    Patch,
}

/// One HTTP request the registry asks the surrounding application to issue.
pub struct RequestPlan {
    pub method: HttpMethod,
    pub url: String,
    /// The bearer token of the authorization header, where the provider
    /// authenticates by header.
    pub auth_bearer: Option<String>,
    /// The JSON body, where the provider takes one.
    pub body: Option<String>,
}

/// The discovery request of the active variant: the Porkbun style posts the
/// credentials to its listing endpoint; the Cloudflare style lists the
/// zone's records under its bearer token.
pub fn find_request(config: &Config) -> (r: RequestPlan)
    ensures
        *config matches Config::Porkbun { api_key, secret_key, domain, .. } ==> (r.method is Post
            && r.url@ == spec_retrieve_url(domain@) && r.auth_bearer is None && (
        r.body matches Some(b) && b@ == spec_auth_body(api_key@, secret_key@))),
        *config matches Config::Cloudflare { zone_id, api_key, .. } ==> (r.method is Get && r.url@
            == spec_records_url(zone_id@) && (r.auth_bearer matches Some(a) && a@ == spec_bearer(
            api_key@,
        )) && r.body is None),
{
    match config {
        Config::Porkbun { api_key, secret_key, domain, .. } => RequestPlan {
            method: HttpMethod::Post,
            url: porkbun::retrieve_url(domain.as_str()),
            auth_bearer: None,
            body: Some(porkbun::auth_body(api_key.as_str(), secret_key.as_str())),
        },
        Config::Cloudflare { zone_id, api_key, .. } => RequestPlan {
            method: HttpMethod::Get,
            url: cloudflare::records_url(zone_id.as_str()),
            auth_bearer: Some(cloudflare::bearer_value(api_key.as_str())),
            body: None,
        },
    }
}

/// What the discovery response means: exactly the chosen backend's
/// interpretation of the body, against the variant's own subdomain and
/// domain.
pub open spec fn spec_find_interpretation(config: Config, body: Seq<char>) -> Option<Record> {
    match config {
        Config::Porkbun { subdomain, domain, .. } => porkbun::spec_parse_retrieve(
            body,
            subdomain@,
            domain@,
        ),
        Config::Cloudflare { subdomain, domain, .. } => cloudflare::spec_parse_retrieve(
            body,
            subdomain@,
            domain@,
        ),
    }
}

/// Interprets a discovery response: the result equals the chosen backend's
/// interpretation, and any returned record's name matches the variant's
/// configured subdomain and domain.
pub fn interpret_find_response(config: &Config, body: &str) -> (r: Option<Record>)
    ensures
        r == spec_find_interpretation(*config, body@),
        r matches Some(rec) ==> name_matches(
            rec.name@,
            config.spec_subdomain(),
            config.spec_domain(),
        ),
{
    match config {
        Config::Porkbun { subdomain, domain, .. } => porkbun::parse_retrieve_response(
            body,
            subdomain.as_str(),
            domain.as_str(),
        ),
        Config::Cloudflare { subdomain, domain, .. } => cloudflare::parse_retrieve_response(
            body,
            subdomain.as_str(),
            domain.as_str(),
        ),
    }
}

/// The update request of the active variant, identified by the existing
/// record's id: an edit posting the credentials, the record's type and the
/// new content for the Porkbun style; a patch carrying the type, target
/// name and new content under the bearer token for the Cloudflare style.
pub fn update_request(config: &Config, record: &Record, new_content: &str) -> (r: RequestPlan)
    ensures
        *config matches Config::Porkbun { api_key, secret_key, domain, .. } ==> (r.method is Post
            && r.url@ == spec_edit_url(domain@, record.id@) && r.auth_bearer is None && (
        r.body matches Some(b) && b@ == spec_edit_body(
            api_key@,
            secret_key@,
            new_content@,
            record.record_type@,
        ))),
        *config matches Config::Cloudflare { zone_id, api_key, domain, subdomain, .. } ==> (
        r.method is Patch && r.url@ == spec_record_url(zone_id@, record.id@) && (
        r.auth_bearer matches Some(a) && a@ == spec_bearer(api_key@)) && (r.body matches Some(b)
            && b@ == spec_update_body(record.record_type@, subdomain@, domain@, new_content@))),
{
    match config {
        Config::Porkbun { api_key, secret_key, domain, .. } => RequestPlan {
            method: HttpMethod::Post,
            url: porkbun::edit_url(domain.as_str(), record.id.as_str()),
            auth_bearer: None,
            body: Some(
                porkbun::edit_body(
                    api_key.as_str(),
                    secret_key.as_str(),
                    new_content,
                    record.record_type.as_str(),
                ),
            ),
        },
        Config::Cloudflare { zone_id, api_key, domain, subdomain, .. } => RequestPlan {
            method: HttpMethod::Patch,
            url: cloudflare::record_url(zone_id.as_str(), record.id.as_str()),
            auth_bearer: Some(cloudflare::bearer_value(api_key.as_str())),
            body: Some(
                cloudflare::update_body(
                    record.record_type.as_str(),
                    subdomain.as_str(),
                    domain.as_str(),
                    new_content,
                ),
            ),
        },
    }
}

/// Whether the update's first response asks for a follow-up read: only the
/// Porkbun-style edit, when it reports success, since its endpoint does not
/// echo the record.
pub fn update_needs_followup(config: &Config, first_body: &str) -> (r: bool)
    ensures
        *config matches Config::Porkbun { .. } ==> r == porkbun::spec_parse_edit(first_body@),
        *config matches Config::Cloudflare { .. } ==> r == false,
{
    match config {
        Config::Porkbun { .. } => porkbun::parse_edit_response(first_body),
        Config::Cloudflare { .. } => false,
    }
}

/// The follow-up read of the active variant: the Porkbun-style read-by-id,
/// posting the credentials; none for the Cloudflare style, whose update
/// response already echoes the record.
pub fn update_followup_request(config: &Config, record: &Record) -> (r: Option<RequestPlan>)
    ensures
        (r is Some) == (*config matches Config::Porkbun { .. }),
        r matches Some(plan) ==> (*config matches Config::Porkbun {
            api_key,
            secret_key,
            domain,
            ..
        } && plan.method is Post && plan.url@ == spec_retrieve_by_id_url(domain@, record.id@)
            && plan.auth_bearer is None && (plan.body matches Some(b) && b@ == spec_auth_body(
            api_key@,
            secret_key@,
        ))),
{
    match config {
        Config::Porkbun { api_key, secret_key, domain, .. } => Some(
            RequestPlan {
                method: HttpMethod::Post,
                url: porkbun::retrieve_by_id_url(domain.as_str(), record.id.as_str()),
                auth_bearer: None,
                body: Some(porkbun::auth_body(api_key.as_str(), secret_key.as_str())),
            },
        ),
        Config::Cloudflare { .. } => None,
    }
}

/// What an update's responses mean: exactly the chosen backend's
/// interpretation — the echoed record for the Cloudflare style; for the
/// Porkbun style the follow-up read's record, and only when the edit step
/// was reported successful.
pub open spec fn spec_update_interpretation(
    config: Config,
    first: Seq<char>,
    followup: Option<Seq<char>>,
) -> Option<Record> {
    match config {
        Config::Porkbun { .. } => {
            if porkbun::spec_parse_edit(first) {
                match followup {
                    Some(f) => porkbun::spec_parse_retrieve_by_id(f),
                    None => None,
                }
            } else {
                None
            }
        },
        Config::Cloudflare { .. } => cloudflare::spec_parse_update(first),
    }
}

/// Interprets an update's responses, exactly as
/// [`spec_update_interpretation`] states.
pub fn interpret_update_response(
    config: &Config,
    first_body: &str,
    followup_body: Option<&str>,
) -> (r: Option<Record>)
    ensures
        r == spec_update_interpretation(
            *config,
            first_body@,
            match followup_body {
                Some(f) => Some(f@),
                None => None,
            },
        ),
{
    match config {
        Config::Porkbun { .. } => {
            let edit_ok = porkbun::parse_edit_response(first_body);
            let followup = match followup_body {
                Some(b) => porkbun::parse_retrieve_by_id_response(b),
                None => None,
            };
            porkbun::update_outcome(edit_ok, followup)
        },
        Config::Cloudflare { .. } => cloudflare::parse_update_response(first_body),
    }
}

} // verus!
