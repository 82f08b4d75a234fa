//! The pure halves of the record API calls: locating an existing challenge
//! record for cleanup, preparing the body of a record-creation call, and the
//! cleanup decision itself.

use vstd::prelude::*;
use crate::model::{AcmeError, Domain, Record, TextRecordInsert};
use crate::names::record_name_of;
use crate::resolve::{is_first_match, label_of, resolve, some_zone_matches};

verus! {

/// The DNS record type every challenge record carries.
pub open spec fn txt_type() -> Seq<char> {
    "TXT"@
}

/// A record is the challenge record being looked for when it is a TXT record
/// whose name and value both match.
pub open spec fn record_matches(rec: Record, name: Seq<char>, token: Seq<char>) -> bool {
    &&& rec.rtype@ == txt_type()
    &&& rec.name@ == name
    &&& rec.target@ == token
}

/// The record at index `j` of the zone's record list is the one looked for.
pub open spec fn record_matches_at(
    recs: Seq<Record>,
    name: Seq<char>,
    token: Seq<char>,
    j: int,
) -> bool {
    record_matches(recs[j], name, token)
}

/// Some record of the zone's list is the one looked for.
pub open spec fn some_record_matches(recs: Seq<Record>, name: Seq<char>, token: Seq<char>) -> bool {
    exists|j: int| 0 <= j < recs.len() && #[trigger] record_matches_at(recs, name, token, j)
}

/// The record at index `j` is the first of the list that matches.
pub open spec fn is_first_record_match(
    recs: Seq<Record>,
    name: Seq<char>,
    token: Seq<char>,
    j: int,
) -> bool {
    &&& 0 <= j < recs.len()
    &&& record_matches_at(recs, name, token, j)
    &&& forall|k: int| 0 <= k < j ==> !#[trigger] record_matches_at(recs, name, token, k)
}

/// Finds the challenge record for `(subdomain, token)` among the records of
/// a zone: a TXT record named after the subdomain label and carrying the
/// token. Returns its provider-assigned identifier, or `None` when no such
/// record exists — an expected steady state after a challenge was already
/// cleaned up or never deployed, not an error.
pub fn get_record_id(records: &Vec<Record>, subdomain: &String, token: &String) -> (r: Option<
    i32,
>)
    ensures
        (r is Some) <==> some_record_matches(records@, record_name_of(subdomain@), token@),
        r matches Some(id) ==> exists|j: int|
            {
                &&& #[trigger] is_first_record_match(
                    records@,
                    record_name_of(subdomain@),
                    token@,
                    j,
                )
                &&& records@[j].id == id
            },
{
    let record_name = crate::names::challenge_record_name(subdomain);
    let txt: String = "TXT".to_owned();
    let n = records.len();
    let mut i: usize = 0;
    while i < n
        invariant
            n == records@.len(),
            i <= n,
            txt@ == txt_type(),
            record_name@ == record_name_of(subdomain@),
            forall|k: int|
                0 <= k < i ==> !#[trigger] record_matches_at(
                    records@,
                    record_name_of(subdomain@),
                    token@,
                    k,
                ),
        decreases n - i,
    {
        let rec = &records[i];
        if rec.rtype == txt && rec.name == record_name && rec.target == *token {
            proof {
                assert(is_first_record_match(
                    records@,
                    record_name_of(subdomain@),
                    token@,
                    i as int,
                ));
            }
            return Some(rec.id);
        }
        i = i + 1;
    }
    None
}

/// Prepares the single record-creation call for one challenge: resolves the
/// lookup name against the account's zones and, on success, returns the
/// owning zone's identifier together with the body of the create call — a
/// TXT record named after the resolved subdomain label and carrying the
/// token. Fails with `ZoneNotFound`, and plans no create call, exactly when
/// no zone owns the name.
pub fn prepare_create(target_domain: &String, zones: &Vec<Domain>, token: &String) -> (r: Result<
    (i32, TextRecordInsert),
    AcmeError,
>)
    ensures
        (r is Ok) <==> some_zone_matches(target_domain@, zones@),
        r matches Ok(p) ==> exists|j: int|
            {
                &&& #[trigger] is_first_match(target_domain@, zones@, j)
                &&& p.0 == zones@[j].id
                &&& p.1.rtype@ == txt_type()
                &&& p.1.name@ == label_of(target_domain@, zones@[j].domain@)
                &&& p.1.target@ == token@
            },
        r matches Err(e) ==> e == AcmeError::ZoneNotFound,
{
    match resolve(target_domain, zones) {
        Ok(t) => {
            let insert = TextRecordInsert::new("TXT", t.subdomain_label.as_str(), token.as_str());
            Ok((t.zone.id, insert))
        },
        Err(e) => Err(e),
    }
}

/// What the cleanup path does once the locator has run: delete the record it
/// found, or — when the record is already absent — nothing at all, which is
/// a success, not an error.
#[derive(Clone, Copy, Debug, PartialEq, Eq, Structural)]
pub enum CleanAction {
    Delete { record_id: i32 },
    Skip,
}

/// The cleanup decision for one challenge, from the locator's answer.
pub fn cleanup_decision(located: &Option<i32>) -> (r: CleanAction)
    ensures
        *located matches Some(id) ==> r == (CleanAction::Delete { record_id: id }),
        located is None ==> r == CleanAction::Skip,
{
    match located {
        Some(id) => CleanAction::Delete { record_id: *id },
        None => CleanAction::Skip,
    }
}

} // verus!
