//! Construction of the well-known challenge record names.

use vstd::prelude::*;
use vstd::string::StringExecFns;
use crate::resolve::{label_of, matches_zone};

verus! {

/// The name of the challenge record relative to its zone: the well-known
/// prefix alone when the subdomain label is empty, else the prefix, a dot,
/// and the label.
pub open spec fn record_name_of(label: Seq<char>) -> Seq<char> {
    if label.len() == 0 {
        "_acme-challenge"@
    } else {
        "_acme-challenge."@ + label
    }
}

/// The fully-qualified name the challenge record will be visible under:
/// the well-known prefix prepended to the domain being validated.
pub open spec fn challenge_target_of(d: Seq<char>) -> Seq<char> {
    "_acme-challenge."@ + d
}

/// The challenge record's name relative to its zone, from the resolved
/// subdomain label.
pub fn challenge_record_name(label: &String) -> (r: String)
    ensures
        r@ == record_name_of(label@),
{
    if label.as_str().is_empty() {
        "_acme-challenge".to_owned()
    } else {
        "_acme-challenge.".to_owned().concat(label.as_str())
    }
}

/// The deploy and cleanup paths agree on the challenge record. Deployment
/// names the record by resolving the prefixed lookup name against the zone;
/// cleanup looks for the prefix applied to the bare domain's own label. For
/// every domain a zone owns — short of the degenerate name that is a bare
/// dot followed by the zone — the zone also owns the prefixed lookup name,
/// and the two constructions name one and the same record.
pub proof fn lemma_deploy_and_clean_agree(d: Seq<char>, z: Seq<char>)
    requires
        matches_zone(d, z),
        d == z || d.len() > z.len() + 1,
    ensures
        matches_zone(challenge_target_of(d), z),
        label_of(challenge_target_of(d), z) == record_name_of(label_of(d, z)),
{
    reveal_strlit("_acme-challenge.");
    reveal_strlit("_acme-challenge");
    let p = "_acme-challenge."@;
    let t = challenge_target_of(d);
    assert(p.len() == 16);
    assert(t.len() == p.len() + d.len());
    assert(t.subrange(t.len() - z.len(), t.len() as int) =~= z) by {
        if d != z {
            assert(forall|i: int|
                0 <= i < z.len() ==> d.subrange(d.len() - z.len(), d.len() as int)[i]
                    == #[trigger] z[i]);
        }
    }
    assert(t[t.len() - z.len() - 1] == '.') by {
        if d == z {
            assert(t[p.len() - 1] == p[p.len() - 1]);
        }
    }
    assert(matches_zone(t, z));
    assert(t != z);
    if d == z {
        assert(label_of(t, z) =~= "_acme-challenge"@);
    } else {
        assert(label_of(d, z).len() > 0);
        assert(label_of(t, z) =~= p + label_of(d, z));
    }
}

/// The fully-qualified lookup name for a challenge against `domain_name`.
pub fn challenge_target(domain_name: &String) -> (r: String)
    ensures
        r@ == challenge_target_of(domain_name@),
{
    "_acme-challenge.".to_owned().concat(domain_name.as_str())
}

} // verus!
