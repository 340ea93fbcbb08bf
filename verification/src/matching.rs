//! The record-matching rule shared by all provider backends.
//!
//! A configuration names a `subdomain` and a `domain`; the record it selects
//! is the one whose name is exactly `<subdomain>.<domain>`.  Matching is by
//! whole-name equality, so a subdomain `home` does not match a record
//! `homework.example.com`.

use vstd::prelude::*;

verus! {

/// The fully-qualified name that a configuration selects: `<subdomain>.<domain>`.
pub open spec fn fq_target(subdomain: Seq<char>, domain: Seq<char>) -> Seq<char> {
    subdomain + seq!['.'] + domain
}

/// A record name matches exactly when it equals the fully-qualified target.
pub open spec fn name_matches(name: Seq<char>, subdomain: Seq<char>, domain: Seq<char>) -> bool {
    name == fq_target(subdomain, domain)
}

/// Builds the fully-qualified name `<subdomain>.<domain>`.
pub fn build_fq_name(subdomain: &str, domain: &str) -> (r: String)
    ensures
        r@ == fq_target(subdomain@, domain@),
{
    let mut s: String = subdomain.to_owned();
    s.append(".");
    s.append(domain);
    proof {
        reveal_strlit(".");
        assert(s@ =~= fq_target(subdomain@, domain@));
    }
    s
}

/// Decides whether a record name matches the configured subdomain and domain.
pub fn record_name_matches(name: &str, subdomain: &str, domain: &str) -> (r: bool)
    ensures
        r == name_matches(name@, subdomain@, domain@),
{
    let target = build_fq_name(subdomain, domain);
    let owned_name: String = name.to_owned();
    owned_name == target
}

} // verus!
