//! The Porkbun-style backend.
//!
//! Its endpoints take the credentials in the request body and answer with a
//! textual status field that reads `SUCCESS` on success.  The edit endpoint
//! does not echo the updated record, so an update must be followed by a
//! read-by-id to obtain the authoritative record; when that follow-up read
//! fails, the whole update counts as failed.  This module computes the
//! request URLs and bodies and interprets the response bodies; issuing the
//! requests is left to the surrounding application.  What a body parses to
//! is a function of the body alone, so each extraction carries a name and
//! every contract here is exact in terms of it.

use vstd::prelude::*;
use crate::backends::Record;
use crate::matching::name_matches;
use crate::json::json_object_text_of;
use crate::json::render_json_object;
use crate::response::RawRecord;
use crate::response::spec_interpret_find;
use crate::response::interpret_find;
use crate::response::spec_assemble;
use crate::response::spec_status_ok;
use crate::response::status_ok;
use crate::response::extract_raw_record;
use crate::response::assemble_record;

verus! {

/// The URL of the record-listing endpoint of a domain.
pub open spec fn spec_retrieve_url(domain: Seq<char>) -> Seq<char> {
    "https://porkbun.com/api/json/v3/dns/retrieve/"@ + domain
}

/// The URL of the read-by-id endpoint for one record of a domain.
pub open spec fn spec_retrieve_by_id_url(domain: Seq<char>, record_id: Seq<char>) -> Seq<char> {
    "https://porkbun.com/api/json/v3/dns/retrieve/"@ + domain + "/"@ + record_id
}

/// The URL of the edit endpoint for one record of a domain.
pub open spec fn spec_edit_url(domain: Seq<char>, record_id: Seq<char>) -> Seq<char> {
    "https://porkbun.com/api/json/v3/dns/edit/"@ + domain + "/"@ + record_id
}

/// Builds the record-listing URL of a domain.
pub fn retrieve_url(domain: &str) -> (r: String)
    ensures
        r@ == spec_retrieve_url(domain@),
{
    let mut s: String = "https://porkbun.com/api/json/v3/dns/retrieve/".to_owned();
    s.append(domain);
    s
}

/// Builds the read-by-id URL for one record of a domain.
pub fn retrieve_by_id_url(domain: &str, record_id: &str) -> (r: String)
    ensures
        r@ == spec_retrieve_by_id_url(domain@, record_id@),
{
    let mut s: String = "https://porkbun.com/api/json/v3/dns/retrieve/".to_owned();
    s.append(domain);
    s.append("/");
    s.append(record_id);
    s
}

/// Builds the edit URL for one record of a domain.
pub fn edit_url(domain: &str, record_id: &str) -> (r: String)
    ensures
        r@ == spec_edit_url(domain@, record_id@),
{
    let mut s: String = "https://porkbun.com/api/json/v3/dns/edit/".to_owned();
    s.append(domain);
    s.append("/");
    s.append(record_id);
    s
}

/// The body of a read request: the two configured keys, rendered as one
/// JSON object.
pub open spec fn spec_auth_body(api_key: Seq<char>, secret_key: Seq<char>) -> Seq<char> {
    json_object_text_of(seq![("apikey"@, api_key), ("secretapikey"@, secret_key)])
}

/// Builds the body of a read request, carrying exactly the two configured
/// keys.
pub fn auth_body(api_key: &str, secret_key: &str) -> (r: String)
    ensures
        r@ == spec_auth_body(api_key@, secret_key@),
{
    let mut pairs: Vec<(String, String)> = Vec::new();
    pairs.push(("apikey".to_owned(), api_key.to_owned()));
    pairs.push(("secretapikey".to_owned(), secret_key.to_owned()));
    let r = render_json_object(&pairs);
    proof {
        assert(pairs@.map_values(|p: (String, String)| (p.0@, p.1@)) =~= seq![
            ("apikey"@, api_key@),
            ("secretapikey"@, secret_key@),
        ]);
    }
    r
}

/// The body of an edit request: the two configured keys, the new content
/// and the record's type, rendered as one JSON object.
pub open spec fn spec_edit_body(
    api_key: Seq<char>,
    secret_key: Seq<char>,
    new_content: Seq<char>,
    record_type: Seq<char>,
) -> Seq<char> {
    json_object_text_of(
        seq![
            ("apikey"@, api_key),
            ("secretapikey"@, secret_key),
            ("content"@, new_content),
            ("type"@, record_type),
        ],
    )
}

/// Builds the body of an edit request, preserving the record's type and
/// setting only the content.
pub fn edit_body(api_key: &str, secret_key: &str, new_content: &str, record_type: &str) -> (r:
    String)
    ensures
        r@ == spec_edit_body(api_key@, secret_key@, new_content@, record_type@),
{
    let mut pairs: Vec<(String, String)> = Vec::new();
    pairs.push(("apikey".to_owned(), api_key.to_owned()));
    pairs.push(("secretapikey".to_owned(), secret_key.to_owned()));
    pairs.push(("content".to_owned(), new_content.to_owned()));
    pairs.push(("type".to_owned(), record_type.to_owned()));
    let r = render_json_object(&pairs);
    proof {
        assert(pairs@.map_values(|p: (String, String)| (p.0@, p.1@)) =~= seq![
            ("apikey"@, api_key@),
            ("secretapikey"@, secret_key@),
            ("content"@, new_content@),
            ("type"@, record_type@),
        ]);
    }
    r
}

/// What a listing body parses to: the textual status, where present, and
/// the fields of each record listed under `records`; nothing when the body
/// is not a JSON document carrying a `records` array.  The extraction
/// depends on the body alone.
pub uninterp spec fn listing_of(body: Seq<char>) -> Option<(Option<String>, Seq<RawRecord>)>;

/// Relies on serde_json::from_str, Value::get, Value::as_str and
/// Value::as_array to read what [`listing_of`] names out of a listing body.
#[verifier::external_body]
fn extract_listing(body: &str) -> (r: Option<(Option<String>, Vec<RawRecord>)>)
    ensures
        (r is Some) == (listing_of(body@) is Some),
        r matches Some(p) ==> listing_of(body@) == Some((p.0, p.1@)),
{
    let v: serde_json::Value = serde_json::from_str(body).ok()?;
    let status = v.get("status").and_then(serde_json::Value::as_str).map(str::to_owned);
    let records = v.get("records")?.as_array()?;
    Some((status, records.iter().map(extract_raw_record).collect()))
}

/// What an edit body's status parses to: the textual status field, where
/// the body parses and carries one.  The extraction depends on the body
/// alone.
pub uninterp spec fn edit_status_of(body: Seq<char>) -> Option<String>;

/// Relies on serde_json::from_str, Value::get and Value::as_str to read
/// what [`edit_status_of`] names out of an edit body.
#[verifier::external_body]
fn extract_edit_status(body: &str) -> (r: Option<String>)
    ensures
        r == edit_status_of(body@),
{
    let v: serde_json::Value = serde_json::from_str(body).ok()?;
    v.get("status")?.as_str().map(str::to_owned)
}

/// What a read-by-id body parses to: the textual status, where present,
/// and the fields of each record listed under `record`; nothing when the
/// body is not a JSON document carrying a `record` array.  The extraction
/// depends on the body alone.
pub uninterp spec fn record_by_id_of(body: Seq<char>) -> Option<(Option<String>, Seq<RawRecord>)>;

/// Relies on serde_json::from_str, Value::get, Value::as_str and
/// Value::as_array to read what [`record_by_id_of`] names out of a
/// read-by-id body.
#[verifier::external_body]
fn extract_record_by_id(body: &str) -> (r: Option<(Option<String>, Vec<RawRecord>)>)
    ensures
        (r is Some) == (record_by_id_of(body@) is Some),
        r matches Some(p) ==> record_by_id_of(body@) == Some((p.0, p.1@)),
{
    let v: serde_json::Value = serde_json::from_str(body).ok()?;
    let status = v.get("status").and_then(serde_json::Value::as_str).map(str::to_owned);
    let records = v.get("record")?.as_array()?;
    Some((status, records.iter().map(extract_raw_record).collect()))
}

/// What a listing body yields: nothing unless the body parses, the status
/// reads `SUCCESS`, and a listed record matches and assembles.
pub open spec fn spec_parse_retrieve(
    body: Seq<char>,
    subdomain: Seq<char>,
    domain: Seq<char>,
) -> Option<Record> {
    match listing_of(body) {
        Some((status, raws)) => spec_interpret_find(
            spec_status_ok(status),
            raws,
            subdomain,
            domain,
        ),
        None => None,
    }
}

/// Interprets the body of a record-listing response, exactly as
/// [`spec_parse_retrieve`] states: the first record listed under `records`
/// whose name matches the configured subdomain and domain, mirrored
/// verbatim, if and only if the body parses, its status reads `SUCCESS`,
/// such a record is listed, and none of its fields is missing.
pub fn parse_retrieve_response(body: &str, subdomain: &str, domain: &str) -> (r: Option<Record>)
    ensures
        r == spec_parse_retrieve(body@, subdomain@, domain@),
        r matches Some(rec) ==> name_matches(rec.name@, subdomain@, domain@),
{
    match extract_listing(body) {
        Some(extracted) => {
            let (status, raws) = extracted;
            let ok = status_ok(&status);
            interpret_find(ok, &raws, subdomain, domain)
        },
        None => None,
    }
}

/// What a read-by-id body yields: the first record listed under `record`,
/// assembled, iff the body parses, the status reads `SUCCESS`, the list is
/// not empty and none of the record's fields is missing.
pub open spec fn spec_parse_retrieve_by_id(body: Seq<char>) -> Option<Record> {
    match record_by_id_of(body) {
        Some((status, raws)) => if spec_status_ok(status) && raws.len() > 0 {
            spec_assemble(raws[0])
        } else {
            None
        },
        None => None,
    }
}

/// Interprets the body of a read-by-id response, exactly as
/// [`spec_parse_retrieve_by_id`] states: the first record listed under
/// `record`, mirrored verbatim, or nothing on a reported failure, an empty
/// list, or a missing field.
pub fn parse_retrieve_by_id_response(body: &str) -> (r: Option<Record>)
    ensures
        r == spec_parse_retrieve_by_id(body@),
{
    match extract_record_by_id(body) {
        Some(extracted) => {
            let (status, raws) = extracted;
            if !status_ok(&status) {
                return None;
            }
            if raws.len() == 0 {
                return None;
            }
            assemble_record(raws[0].duplicate())
        },
        None => None,
    }
}

/// What an edit body reports: success iff it parses and its status field
/// reads `SUCCESS`.
pub open spec fn spec_parse_edit(body: Seq<char>) -> bool {
    spec_status_ok(edit_status_of(body))
}

/// Interprets the body of an edit response, which carries only a status,
/// exactly as [`spec_parse_edit`] states.
pub fn parse_edit_response(body: &str) -> (r: bool)
    ensures
        r == spec_parse_edit(body@),
{
    let status = extract_edit_status(body);
    status_ok(&status)
}

/// Combines the two steps of an update: the outcome is the follow-up read's
/// record, and only when the edit step was reported successful.  An update
/// whose edit succeeded but whose follow-up read failed yields nothing, so
/// the caller keeps its previous record.
pub fn update_outcome(edit_ok: bool, followup: Option<Record>) -> (r: Option<Record>)
    ensures
        r == (if edit_ok {
            followup
        } else {
            None
        }),
{
    if edit_ok {
        followup
    } else {
        None
    }
}

} // verus!
