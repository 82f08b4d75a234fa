//! Batch orchestration decisions: turning the flat invocation arguments into
//! challenges, planning one record-creation call per challenge, and
//! aggregating the outcomes of the concurrent deploy and poll units. The
//! batch always awaits every unit; deployment failures are collected in
//! full, and an exhausted poll surfaces as a propagation timeout rather
//! than being discarded.

use vstd::prelude::*;
use crate::model::{AcmeError, Challenge};
use crate::names::{challenge_target, challenge_target_of};
use crate::poll::PollResult;

verus! {

/// Turns the flat invocation arguments into the batch of challenges: the
/// arguments arrive in groups of three, of which the first is the domain
/// name being validated and the third the expected record value (the middle
/// entry, a token file name, plays no part in DNS-based validation).
pub fn make_challenges(args: &Vec<String>) -> (r: Vec<Challenge>)
    requires
        args@.len() % 3 == 0,
    ensures
        r@.len() == args@.len() / 3,
        forall|i: int|
            0 <= i < r@.len() ==> {
                &&& (#[trigger] r@[i]).domain_name@ == args@[3 * i]@
                &&& r@[i].token@ == args@[3 * i + 2]@
            },
{
    let n = args.len() / 3;
    let mut out: Vec<Challenge> = Vec::new();
    let mut i: usize = 0;
    while i < n
        invariant
            args@.len() == 3 * n,
            args@.len() <= usize::MAX,
            i <= n,
            out@.len() == i,
            forall|k: int|
                0 <= k < i ==> {
                    &&& (#[trigger] out@[k]).domain_name@ == args@[3 * k]@
                    &&& out@[k].token@ == args@[3 * k + 2]@
                },
        decreases n - i,
    {
        let domain_name = args[3 * i].clone();
        let token = args[3 * i + 2].clone();
        out.push(Challenge { domain_name, token });
        i = i + 1;
    }
    out
}

/// One planned record-creation unit of work: the fully-qualified lookup
/// name the record must become visible under, and the value it carries.
#[derive(Debug)]
pub struct DeployRequest {
    pub target_domain: String,
    pub token: String,
}

/// Plans the deploy stage of a batch: exactly one record-creation request
/// per challenge, in batch order, each aimed at the challenge's well-known
/// lookup name and carrying the challenge's token.
pub fn deploy_requests(challenges: &Vec<Challenge>) -> (r: Vec<DeployRequest>)
    ensures
        r@.len() == challenges@.len(),
        forall|i: int|
            0 <= i < r@.len() ==> {
                &&& (#[trigger] r@[i]).target_domain@ == challenge_target_of(
                    challenges@[i].domain_name@,
                )
                &&& r@[i].token@ == challenges@[i].token@
            },
{
    let n = challenges.len();
    let mut out: Vec<DeployRequest> = Vec::new();
    let mut i: usize = 0;
    while i < n
        invariant
            n == challenges@.len(),
            i <= n,
            out@.len() == i,
            forall|k: int|
                0 <= k < i ==> {
                    &&& (#[trigger] out@[k]).target_domain@ == challenge_target_of(
                        challenges@[k].domain_name@,
                    )
                    &&& out@[k].token@ == challenges@[k].token@
                },
        decreases n - i,
    {
        let c = &challenges[i];
        let target_domain = challenge_target(&c.domain_name);
        let token = c.token.clone();
        out.push(DeployRequest { target_domain, token });
        i = i + 1;
    }
    out
}

/// The deployment failures of a batch, in batch order.
pub open spec fn failures_of(rs: Seq<Result<i32, AcmeError>>) -> Seq<AcmeError>
    decreases rs.len(),
{
    if rs.len() == 0 {
        Seq::<AcmeError>::empty()
    } else {
        failures_of(rs.drop_last()) + if rs.last() is Err {
            seq![rs.last()->Err_0]
        } else {
            Seq::<AcmeError>::empty()
        }
    }
}

/// Aggregates the deploy stage once every deploy unit has finished: the
/// batch deploys successfully exactly when every single create call did, in
/// which case the provider-assigned record identifiers are reported in
/// batch order; otherwise every failure of the batch is reported, not just
/// the first.
pub fn aggregate_deploy(results: &Vec<Result<i32, AcmeError>>) -> (r: Result<
    Vec<i32>,
    Vec<AcmeError>,
>)
    ensures
        (r is Ok) <==> (forall|i: int|
            0 <= i < results@.len() ==> (#[trigger] results@[i]) is Ok),
        r matches Ok(ids) ==> {
            &&& ids@.len() == results@.len()
            &&& forall|i: int| 0 <= i < ids@.len() ==> #[trigger] ids@[i] == results@[i]->Ok_0
        },
        r matches Err(errs) ==> errs@ == failures_of(results@) && errs@.len() > 0,
{
    let n = results.len();
    let mut ids: Vec<i32> = Vec::new();
    let mut errs: Vec<AcmeError> = Vec::new();
    let mut i: usize = 0;
    while i < n
        invariant
            n == results@.len(),
            i <= n,
            errs@ == failures_of(results@.subrange(0, i as int)),
            errs@.len() == 0 ==> {
                &&& ids@.len() == i
                &&& forall|k: int|
                    0 <= k < i ==> (#[trigger] results@[k]) is Ok && ids@[k] == results@[k]->Ok_0
            },
            errs@.len() > 0 ==> exists|k: int| 0 <= k < i && !((#[trigger] results@[k]) is Ok),
        decreases n - i,
    {
        proof {
            assert(results@.subrange(0, i + 1).drop_last() =~= results@.subrange(0, i as int));
            assert(results@.subrange(0, i + 1).last() == results@[i as int]);
        }
        match &results[i] {
            Ok(id) => {
                if errs.len() == 0 {
                    ids.push(*id);
                }
            },
            Err(e) => {
                errs.push(*e);
            },
        }
        i = i + 1;
    }
    proof {
        assert(results@.subrange(0, n as int) =~= results@);
    }
    if errs.len() == 0 {
        Ok(ids)
    } else {
        Err(errs)
    }
}

/// Aggregates the poll stage once every poll unit has finished: the batch
/// is confirmed exactly when every challenge's expected value was observed
/// within its poller's budget; any exhausted poll surfaces as a propagation
/// timeout.
pub fn aggregate_poll(results: &Vec<PollResult>) -> (r: Result<(), AcmeError>)
    ensures
        (r is Ok) <==> (forall|i: int|
            0 <= i < results@.len() ==> (#[trigger] results@[i]) is Confirmed),
        r matches Err(e) ==> e == AcmeError::PropagationTimeout,
{
    let n = results.len();
    let mut i: usize = 0;
    while i < n
        invariant
            n == results@.len(),
            i <= n,
            forall|k: int| 0 <= k < i ==> (#[trigger] results@[k]) is Confirmed,
        decreases n - i,
    {
        match &results[i] {
            PollResult::Confirmed { .. } => {},
            PollResult::Timeout { .. } => {
                return Err(AcmeError::PropagationTimeout);
            },
        }
        i = i + 1;
    }
    Ok(())
}

} // verus!
