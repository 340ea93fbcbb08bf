//! The data model shared by the provider backends: the DNS record as this
//! system knows it, and the per-provider configuration.

use vstd::prelude::*;

verus! {

/// A DNS resource record as reported by a provider.
///
/// A record with a non-empty `id` is one the provider handed back and can be
/// updated; the default record (all fields empty) stands for "no record found
/// yet" and an update issued for it is expected to fail harmlessly.
#[derive(Debug, PartialEq, Eq)]
pub struct Record {
    pub id: String,
    pub name: String,
    pub record_type: String,
    pub content: String,
}

impl Record {
    /// True of the default record that stands for "no record found yet".
    pub open spec fn is_absent(self) -> bool {
        self.id@.len() == 0
    }

    /// An exact copy of the record.
    pub fn duplicate(&self) -> (r: Record)
        ensures
            r == *self,
    {
        Record {
            id: self.id.clone(),
            name: self.name.clone(),
            record_type: self.record_type.clone(),
            content: self.content.clone(),
        }
    }
}

impl Default for Record {
    /// The empty record: no identifier, no name, no type, no content.
    fn default() -> (r: Record)
        ensures
            r.id@ == Seq::<char>::empty(),
            r.name@ == Seq::<char>::empty(),
            r.record_type@ == Seq::<char>::empty(),
            r.content@ == Seq::<char>::empty(),
    {
        Record {
            id: String::new(),
            name: String::new(),
            record_type: String::new(),
            content: String::new(),
        }
    }
}

/// The provider selection, with the credentials and identifiers that the
/// chosen backend needs and the poll interval of the reconciliation loop.
pub enum Config {
    Porkbun {
        api_key: String,
        secret_key: String,
        domain: String,
        subdomain: String,
        update_every_seconds: u64,
    },
    Cloudflare {
        zone_id: String,
        api_key: String,
        domain: String,
        subdomain: String,
        update_every_seconds: u64,
    },
}

impl Config {
    /// The domain the active variant manages.
    pub open spec fn spec_domain(self) -> Seq<char> {
        match self {
            Config::Porkbun { domain, .. } => domain@,
            Config::Cloudflare { domain, .. } => domain@,
        }
    }

    /// The subdomain whose record the active variant keeps up to date.
    pub open spec fn spec_subdomain(self) -> Seq<char> {
        match self {
            Config::Porkbun { subdomain, .. } => subdomain@,
            Config::Cloudflare { subdomain, .. } => subdomain@,
        }
    }

    /// The configured poll interval, in seconds.
    pub open spec fn spec_interval_seconds(self) -> u64 {
        match self {
            Config::Porkbun { update_every_seconds, .. } => update_every_seconds,
            Config::Cloudflare { update_every_seconds, .. } => update_every_seconds,
        }
    }

    /// Reads the poll interval that the active variant carries.
    pub fn interval_seconds(&self) -> (r: u64)
        ensures
            r == self.spec_interval_seconds(),
    {
        match self {
            Config::Porkbun { update_every_seconds, .. } => *update_every_seconds,
            Config::Cloudflare { update_every_seconds, .. } => *update_every_seconds,
        }
    }
}

} // verus!
