//! Zone resolution: deciding which hosting zone owns a fully-qualified
//! domain name, and what subdomain label remains once the zone's own name is
//! stripped.

use vstd::prelude::*;
use crate::model::{AcmeError, Domain};

verus! {

/// A zone named `z` owns the domain `d` when `d` is the zone itself or ends
/// with `"." + z`.
pub open spec fn matches_zone(d: Seq<char>, z: Seq<char>) -> bool {
    ||| d == z
    ||| (d.len() > z.len() && d.subrange(d.len() - z.len(), d.len() as int) == z
        && d[d.len() - z.len() - 1] == '.')
}

/// The subdomain label left over once the matched zone's name and its
/// separating dot are stripped from the domain; empty exactly when the domain
/// is the zone itself.
pub open spec fn label_of(d: Seq<char>, z: Seq<char>) -> Seq<char> {
    if d == z {
        Seq::<char>::empty()
    } else {
        d.subrange(0, d.len() - z.len() - 1)
    }
}

/// The zone at index `j` of the account's zone list owns the domain `d`.
pub open spec fn matches_at(d: Seq<char>, zones: Seq<Domain>, j: int) -> bool {
    matches_zone(d, zones[j].domain@)
}

/// Some zone of the account's list owns the domain `d`.
pub open spec fn some_zone_matches(d: Seq<char>, zones: Seq<Domain>) -> bool {
    exists|j: int| 0 <= j < zones.len() && #[trigger] matches_at(d, zones, j)
}

/// The zone at index `j` is the first of the list that owns the domain `d`:
/// resolution scans the list in the order the provider supplied it and the
/// first owner wins, even when a later zone's name is a longer suffix.
pub open spec fn is_first_match(d: Seq<char>, zones: Seq<Domain>, j: int) -> bool {
    &&& 0 <= j < zones.len()
    &&& matches_at(d, zones, j)
    &&& forall|k: int| 0 <= k < j ==> !#[trigger] matches_at(d, zones, k)
}

/// The outcome of resolution: the owning zone and the remaining subdomain
/// label.
#[derive(Debug)]
pub struct ResolvedTarget {
    pub subdomain_label: String,
    pub zone: Domain,
}

/// Splitting a domain at the matched zone loses nothing: the domain is the
/// label, the separating dot, and the zone's name, in that order (and the
/// label is empty exactly when the domain is the zone itself).
pub proof fn lemma_label_reconstructs(d: Seq<char>, z: Seq<char>)
    requires
        matches_zone(d, z),
    ensures
        d != z ==> d == label_of(d, z) + seq!['.'] + z,
        d == z ==> label_of(d, z).len() == 0,
{
    if d != z {
        let l = d.len() - z.len() - 1;
        assert(d == label_of(d, z) + seq!['.'] + z) by {
            assert(d =~= d.subrange(0, l) + seq![d[l]] + d.subrange(l + 1, d.len() as int));
        }
    }
}

/// Whether the zone named `zone` owns `domain`.
fn zone_matches(domain: &String, zone: &String) -> (r: bool)
    ensures
        r == matches_zone(domain@, zone@),
{
    if *domain == *zone {
        true
    } else {
        let dl = domain.as_str().unicode_len();
        let zl = zone.as_str().unicode_len();
        if dl > zl {
            let dot = domain.as_str().get_char(dl - zl - 1);
            if dot == '.' {
                let suffix = domain.as_str().substring_char(dl - zl, dl);
                let owned: String = suffix.to_owned();
                owned == *zone
            } else {
                false
            }
        } else {
            false
        }
    }
}

/// The subdomain label of `domain` with respect to the owning zone `zone`.
fn compute_label(domain: &String, zone: &String) -> (r: String)
    requires
        matches_zone(domain@, zone@),
    ensures
        r@ == label_of(domain@, zone@),
{
    if *domain == *zone {
        String::new()
    } else {
        let dl = domain.as_str().unicode_len();
        let zl = zone.as_str().unicode_len();
        let prefix = domain.as_str().substring_char(0, dl - zl - 1);
        prefix.to_owned()
    }
}

/// Resolves a domain name to the zone that owns it, scanning the account's
/// zone list in order and keeping the first owner found. Succeeds exactly
/// when some zone of the list owns the domain; otherwise the domain is not
/// ours to serve and resolution fails with `ZoneNotFound`.
pub fn resolve(domain_name: &String, zones: &Vec<Domain>) -> (r: Result<
    ResolvedTarget,
    AcmeError,
>)
    ensures
        (r is Ok) <==> some_zone_matches(domain_name@, zones@),
        r matches Ok(t) ==> exists|j: int|
            {
                &&& #[trigger] is_first_match(domain_name@, zones@, j)
                &&& t.zone == zones@[j]
                &&& t.subdomain_label@ == label_of(domain_name@, zones@[j].domain@)
            },
        r matches Err(e) ==> e == AcmeError::ZoneNotFound,
{
    let n = zones.len();
    let mut i: usize = 0;
    while i < n
        invariant
            n == zones@.len(),
            i <= n,
            forall|k: int| 0 <= k < i ==> !#[trigger] matches_at(domain_name@, zones@, k),
        decreases n - i,
    {
        let zone = &zones[i];
        if zone_matches(domain_name, &zone.domain) {
            let label = compute_label(domain_name, &zone.domain);
            proof {
                assert(is_first_match(domain_name@, zones@, i as int));
            }
            return Ok(ResolvedTarget { subdomain_label: label, zone: zone.clone() });
        }
        i = i + 1;
    }
    Err(AcmeError::ZoneNotFound)
}

} // verus!
