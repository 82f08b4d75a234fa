//! Data carried between the hosting provider's record API and the
//! orchestration logic, as plain values.

use vstd::prelude::*;

verus! {

/// The list of zones visible to the account, as returned by the provider's
/// domain listing.
#[derive(Debug)]
pub struct Domains {
    pub data: Vec<Domain>,
}

/// One hosting zone the account controls: an opaque identifier and the
/// fully-qualified name of the zone.
#[derive(Debug)]
pub struct Domain {
    pub id: i32,
    pub domain: String,
}

impl Clone for Domain {
    fn clone(&self) -> (r: Self)
        ensures
            r == *self,
    {
        Domain { id: self.id, domain: self.domain.clone() }
    }
}

/// The list of resource records of one zone, as returned by the provider's
/// record listing.
#[derive(Debug)]
pub struct Records {
    pub data: Vec<Record>,
}

/// One resource record of a zone: provider-assigned identifier, record type,
/// name relative to the zone, and record value.
#[derive(Debug)]
pub struct Record {
    pub id: i32,
    pub rtype: String,
    pub name: String,
    pub target: String,
}

/// The provider's answer to a record creation: the identifier it assigned.
#[derive(Debug)]
pub struct TextRecordResult {
    pub id: i32,
}

/// The body of a record-creation call: record type, name relative to the
/// zone, and record value.
#[derive(Debug)]
pub struct TextRecordInsert {
    pub rtype: String,
    pub name: String,
    pub target: String,
}

impl TextRecordInsert {
    pub fn new(rtype: &str, name: &str, target: &str) -> (r: Self)
        ensures
            r.rtype@ == rtype@,
            r.name@ == name@,
            r.target@ == target@,
    {
        TextRecordInsert {
            rtype: rtype.to_owned(),
            name: name.to_owned(),
            target: target.to_owned(),
        }
    }
}

/// One challenge of a batch: the fully-qualified domain name being validated
/// and the value the challenge record must carry.
#[derive(Debug)]
pub struct Challenge {
    pub domain_name: String,
    pub token: String,
}

/// A failure the orchestration surfaces to its caller. A transient DNS lookup
/// error is absorbed by the poller and never appears here.
#[derive(Clone, Copy, Debug, PartialEq, Eq, Structural)]
pub enum AcmeError {
    /// The domain name is not owned by any zone visible to the account.
    ZoneNotFound,
    /// Transport failure, non-success status, or undecodable response from
    /// the hosting provider.
    ApiError,
    /// The poller's attempt budget ran out before the expected record value
    /// became visible.
    PropagationTimeout,
}

} // verus!
