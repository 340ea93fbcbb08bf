//! Interpretation of provider responses.
//!
//! A provider hands back a list of records whose fields may each be missing
//! or malformed.  [`RawRecord`] holds the four fields of one listed record as
//! they were found; the functions here decide, with exact contracts over
//! those plain values, which record a lookup returns and when a missing field
//! collapses the whole lookup to "no result".

use vstd::prelude::*;
use crate::backends::Record;
use crate::matching::fq_target;
use crate::matching::name_matches;
use crate::matching::build_fq_name;
use crate::json::json_get;
use crate::json::json_as_str;

verus! {

/// The four fields of one listed record, each as the response carried it:
/// absent when the field was missing or was not a string.
#[derive(Debug)]
pub struct RawRecord {
    pub id: Option<String>,
    pub name: Option<String>,
    pub record_type: Option<String>,
    pub content: Option<String>,
}

impl RawRecord {
    /// An exact copy of the raw record.
    pub fn duplicate(&self) -> (r: RawRecord)
        ensures
            r == *self,
    {
        RawRecord {
            id: clone_field(&self.id),
            name: clone_field(&self.name),
            record_type: clone_field(&self.record_type),
            content: clone_field(&self.content),
        }
    }
}

/// An exact copy of one optional field.
fn clone_field(field: &Option<String>) -> (r: Option<String>)
    ensures
        r == *field,
{
    match field {
        Some(s) => Some(s.clone()),
        None => None,
    }
}

/// The record a raw record assembles to: all four fields present, or nothing.
pub open spec fn spec_assemble(raw: RawRecord) -> Option<Record> {
    if raw.id is Some && raw.name is Some && raw.record_type is Some && raw.content is Some {
        Some(
            Record {
                id: raw.id.unwrap(),
                name: raw.name.unwrap(),
                record_type: raw.record_type.unwrap(),
                content: raw.content.unwrap(),
            },
        )
    } else {
        None
    }
}

/// Assembles a listed record into a [`Record`], or yields nothing when any
/// of its four fields was missing: a malformed record never becomes a result.
pub fn assemble_record(raw: RawRecord) -> (r: Option<Record>)
    ensures
        r == spec_assemble(raw),
{
    match raw {
        RawRecord {
            id: Some(id),
            name: Some(name),
            record_type: Some(record_type),
            content: Some(content),
        } => Some(Record { id, name, record_type, content }),
        _ => None,
    }
}

/// Whether a raw record's name is present and matches the configured target.
pub open spec fn raw_matches(raw: RawRecord, subdomain: Seq<char>, domain: Seq<char>) -> bool {
    raw.name matches Some(n) && name_matches(n@, subdomain, domain)
}

/// The first raw record, from position `i` on, whose name matches.
pub open spec fn spec_find_match_from(
    raws: Seq<RawRecord>,
    subdomain: Seq<char>,
    domain: Seq<char>,
    i: int,
) -> Option<RawRecord>
    decreases raws.len() - i,
{
    if i < 0 || i >= raws.len() {
        None
    } else if raw_matches(raws[i], subdomain, domain) {
        Some(raws[i])
    } else {
        spec_find_match_from(raws, subdomain, domain, i + 1)
    }
}

/// The first raw record whose name matches the configured target.
pub open spec fn spec_find_match(
    raws: Seq<RawRecord>,
    subdomain: Seq<char>,
    domain: Seq<char>,
) -> Option<RawRecord> {
    spec_find_match_from(raws, subdomain, domain, 0)
}

/// What a record lookup returns: nothing when the provider reported failure,
/// else the first matching listed record, assembled; nothing when no record
/// matches or the matching record is missing a field.
pub open spec fn spec_interpret_find(
    success: bool,
    raws: Seq<RawRecord>,
    subdomain: Seq<char>,
    domain: Seq<char>,
) -> Option<Record> {
    if !success {
        None
    } else {
        match spec_find_match(raws, subdomain, domain) {
            Some(raw) => spec_assemble(raw),
            None => None,
        }
    }
}

/// A found match always matches: whatever the search returns has a present,
/// matching name.
pub proof fn lemma_find_match_matches(
    raws: Seq<RawRecord>,
    subdomain: Seq<char>,
    domain: Seq<char>,
    i: int,
)
    ensures
        spec_find_match_from(raws, subdomain, domain, i) matches Some(raw) ==> raw_matches(
            raw,
            subdomain,
            domain,
        ),
    decreases raws.len() - i,
{
    if 0 <= i < raws.len() && !raw_matches(raws[i], subdomain, domain) {
        lemma_find_match_matches(raws, subdomain, domain, i + 1);
    }
}

/// Interprets a provider's record listing: the success flag the provider
/// reported, the records it listed, and the configured subdomain and domain
/// decide the result exactly as [`spec_interpret_find`] states.
pub fn interpret_find(
    success: bool,
    raws: &Vec<RawRecord>,
    subdomain: &str,
    domain: &str,
) -> (r: Option<Record>)
    ensures
        r == spec_interpret_find(success, raws@, subdomain@, domain@),
        r matches Some(rec) ==> name_matches(rec.name@, subdomain@, domain@),
{
    proof {
        lemma_find_match_matches(raws@, subdomain@, domain@, 0);
    }
    if !success {
        return None;
    }
    let target = build_fq_name(subdomain, domain);
    let n = raws.len();
    let mut i: usize = 0;
    while i < n
        invariant
            success,
            n == raws@.len(),
            i <= n,
            target@ == fq_target(subdomain@, domain@),
            spec_find_match_from(raws@, subdomain@, domain@, i as int) == spec_find_match(
                raws@,
                subdomain@,
                domain@,
            ),
        decreases n - i,
    {
        let raw = &raws[i];
        let matched = match &raw.name {
            Some(name) => *name == target,
            None => false,
        };
        if matched {
            proof {
                assert(raw_matches(raws@[i as int], subdomain@, domain@));
                assert(spec_find_match(raws@, subdomain@, domain@) == Some(raws@[i as int]));
            }
            return assemble_record(raw.duplicate());
        }
        i += 1;
    }
    None
}

/// Whether a provider's boolean success flag reports success: the flag must
/// be present and true.
pub fn success_flag(flag: Option<bool>) -> (r: bool)
    ensures
        r == (flag == Some(true)),
{
    match flag {
        Some(b) => b,
        None => false,
    }
}

/// Whether a provider's textual status field reports success.
pub open spec fn spec_status_ok(status: Option<String>) -> bool {
    status matches Some(s) && s@ == "SUCCESS"@
}

/// Whether a textual status field is present and reads `SUCCESS`.
pub fn status_ok(status: &Option<String>) -> (r: bool)
    ensures
        r == spec_status_ok(*status),
{
    match status {
        Some(s) => {
            let expected: String = "SUCCESS".to_owned();
            *s == expected
        },
        None => false,
    }
}

/// Reads one string field of a listed record; nothing when the field is
/// missing or not a string.
fn extract_str_field(v: &serde_json::Value, key: &str) -> Option<String> {
    match json_get(v, key) {
        Some(field) => match json_as_str(field) {
            Some(s) => Some(s.to_owned()),
            None => None,
        },
        None => None,
    }
}

/// Reads the four record fields out of one listed record, as far as they are
/// present.
pub(crate) fn extract_raw_record(v: &serde_json::Value) -> RawRecord {
    RawRecord {
        id: extract_str_field(v, "id"),
        name: extract_str_field(v, "name"),
        record_type: extract_str_field(v, "type"),
        content: extract_str_field(v, "content"),
    }
}

} // verus!
