//! The Cloudflare-style backend.
//!
//! Its listing endpoint answers with a boolean `success` flag and an array of
//! records under `result`; its update endpoint echoes the updated record
//! under `result`.  This module computes the request URLs, headers and bodies
//! and interprets the response bodies; issuing the requests is left to the
//! surrounding application.  What a body parses to is a function of the body
//! alone, so the extraction carries a name and every contract here is exact
//! in terms of it.

use vstd::prelude::*;
use crate::backends::Record;
use crate::matching::fq_target;
use crate::matching::name_matches;
use crate::matching::build_fq_name;
use crate::json::json_object_text_of;
use crate::json::render_json_object;
use crate::response::RawRecord;
use crate::response::spec_interpret_find;
use crate::response::interpret_find;
use crate::response::spec_assemble;
use crate::response::success_flag;
use crate::response::extract_raw_record;

verus! {

/// The URL of the record-listing endpoint of a zone.
pub open spec fn spec_records_url(zone_id: Seq<char>) -> Seq<char> {
    "https://api.cloudflare.com/client/v4/zones/"@ + zone_id + "/dns_records"@
}

/// The URL of one record of a zone, for the update request.
pub open spec fn spec_record_url(zone_id: Seq<char>, record_id: Seq<char>) -> Seq<char> {
    "https://api.cloudflare.com/client/v4/zones/"@ + zone_id + "/dns_records/"@ + record_id
}

/// The value of the authorization header: the configured key as a bearer
/// token.
pub open spec fn spec_bearer(api_key: Seq<char>) -> Seq<char> {
    "Bearer "@ + api_key
}

/// Builds the record-listing URL of a zone.
pub fn records_url(zone_id: &str) -> (r: String)
    ensures
        r@ == spec_records_url(zone_id@),
{
    let mut s: String = "https://api.cloudflare.com/client/v4/zones/".to_owned();
    s.append(zone_id);
    s.append("/dns_records");
    s
}

/// Builds the URL of one record of a zone.
pub fn record_url(zone_id: &str, record_id: &str) -> (r: String)
    ensures
        r@ == spec_record_url(zone_id@, record_id@),
{
    let mut s: String = "https://api.cloudflare.com/client/v4/zones/".to_owned();
    s.append(zone_id);
    s.append("/dns_records/");
    s.append(record_id);
    s
}

/// Builds the value of the authorization header.
pub fn bearer_value(api_key: &str) -> (r: String)
    ensures
        r@ == spec_bearer(api_key@),
{
    let mut s: String = "Bearer ".to_owned();
    s.append(api_key);
    s
}

/// The body of the update request: the record's type, the fully-qualified
/// target name, and the new content, rendered as one JSON object.
pub open spec fn spec_update_body(
    record_type: Seq<char>,
    subdomain: Seq<char>,
    domain: Seq<char>,
    new_content: Seq<char>,
) -> Seq<char> {
    json_object_text_of(
        seq![
            ("type"@, record_type),
            ("name"@, fq_target(subdomain, domain)),
            ("content"@, new_content),
        ],
    )
}

/// Builds the body of the update request, preserving the record's type and
/// target name and setting only the content.
pub fn update_body(record_type: &str, subdomain: &str, domain: &str, new_content: &str) -> (r:
    String)
    ensures
        r@ == spec_update_body(record_type@, subdomain@, domain@, new_content@),
{
    let name = build_fq_name(subdomain, domain);
    let mut pairs: Vec<(String, String)> = Vec::new();
    pairs.push(("type".to_owned(), record_type.to_owned()));
    pairs.push(("name".to_owned(), name));
    pairs.push(("content".to_owned(), new_content.to_owned()));
    let r = render_json_object(&pairs);
    proof {
        assert(pairs@.map_values(|p: (String, String)| (p.0@, p.1@)) =~= seq![
            ("type"@, record_type@),
            ("name"@, fq_target(subdomain@, domain@)),
            ("content"@, new_content@),
        ]);
    }
    r
}

/// What a listing body parses to: the `success` flag, where present and
/// boolean, and the fields of each record listed under `result`; nothing
/// when the body is not a JSON document carrying a `result` array.  The
/// extraction depends on the body alone.
pub uninterp spec fn listing_of(body: Seq<char>) -> Option<(Option<bool>, Seq<RawRecord>)>;

/// Relies on serde_json::from_str, Value::get, Value::as_bool and
/// Value::as_array to read what [`listing_of`] names out of a listing body.
#[verifier::external_body]
fn extract_listing(body: &str) -> (r: Option<(Option<bool>, Vec<RawRecord>)>)
    ensures
        (r is Some) == (listing_of(body@) is Some),
        r matches Some(p) ==> listing_of(body@) == Some((p.0, p.1@)),
{
    let v: serde_json::Value = serde_json::from_str(body).ok()?;
    let flag = v.get("success").and_then(serde_json::Value::as_bool);
    let records = v.get("result")?.as_array()?;
    Some((flag, records.iter().map(extract_raw_record).collect()))
}

/// What an update body parses to: the `success` flag, where present and
/// boolean, and the fields of the record echoed under `result`; nothing when
/// the body is not a JSON document with a `result` member.  The extraction
/// depends on the body alone.
pub uninterp spec fn update_echo_of(body: Seq<char>) -> Option<(Option<bool>, RawRecord)>;

/// Relies on serde_json::from_str, Value::get and Value::as_bool to read
/// what [`update_echo_of`] names out of an update body.
#[verifier::external_body]
fn extract_update_echo(body: &str) -> (r: Option<(Option<bool>, RawRecord)>)
    ensures
        (r is Some) == (update_echo_of(body@) is Some),
        r matches Some(p) ==> update_echo_of(body@) == Some(p),
{
    let v: serde_json::Value = serde_json::from_str(body).ok()?;
    let flag = v.get("success").and_then(serde_json::Value::as_bool);
    let echoed = extract_raw_record(v.get("result")?);
    Some((flag, echoed))
}

/// What a listing body yields: nothing unless the body parses, the flag is
/// present and true, and a listed record matches and assembles.
pub open spec fn spec_parse_retrieve(
    body: Seq<char>,
    subdomain: Seq<char>,
    domain: Seq<char>,
) -> Option<Record> {
    match listing_of(body) {
        Some((flag, raws)) => spec_interpret_find(flag == Some(true), raws, subdomain, domain),
        None => None,
    }
}

/// Interprets the body of a record-listing response, exactly as
/// [`spec_parse_retrieve`] states: the first record listed under `result`
/// whose name matches the configured subdomain and domain, mirrored
/// verbatim, if and only if the body parses, its `success` flag is true,
/// such a record is listed, and none of its fields is missing.
pub fn parse_retrieve_response(body: &str, subdomain: &str, domain: &str) -> (r: Option<Record>)
    ensures
        r == spec_parse_retrieve(body@, subdomain@, domain@),
        r matches Some(rec) ==> name_matches(rec.name@, subdomain@, domain@),
{
    match extract_listing(body) {
        Some(extracted) => {
            let (flag, raws) = extracted;
            let ok = success_flag(flag);
            interpret_find(ok, &raws, subdomain, domain)
        },
        None => None,
    }
}

/// Interprets an update response from the echoed record and the success
/// flag: the echoed record, assembled, when the provider reported success
/// and echoed all four fields; nothing otherwise.
pub fn interpret_update(success: bool, echoed: RawRecord) -> (r: Option<Record>)
    ensures
        r == (if success {
            spec_assemble(echoed)
        } else {
            None
        }),
{
    if success {
        crate::response::assemble_record(echoed)
    } else {
        None
    }
}

/// What an update body yields: the echoed record, assembled, iff the body
/// parses, its flag is true and every echoed field is present.
pub open spec fn spec_parse_update(body: Seq<char>) -> Option<Record> {
    match update_echo_of(body) {
        Some((flag, echoed)) => if flag == Some(true) {
            spec_assemble(echoed)
        } else {
            None
        },
        None => None,
    }
}

/// Interprets the body of an update response, exactly as
/// [`spec_parse_update`] states: the record echoed under `result`, mirrored
/// verbatim — the provider's echoed content, not the content that was sent,
/// is what the caller must take as authoritative.  A malformed body, a
/// missing field or a reported failure yields nothing.
pub fn parse_update_response(body: &str) -> (r: Option<Record>)
    ensures
        r == spec_parse_update(body@),
{
    match extract_update_echo(body) {
        Some(extracted) => {
            let (flag, echoed) = extracted;
            let ok = success_flag(flag);
            interpret_update(ok, echoed)
        },
        None => None,
    }
}

} // verus!
