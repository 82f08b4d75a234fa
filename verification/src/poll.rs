//! The propagation poller's policy: compare each DNS answer against the
//! expected challenge value, retry on a fixed interval, and give up once a
//! fixed attempt budget is spent. A failed DNS query counts as "not yet
//! found" and never aborts polling: public DNS is eventually consistent and
//! individual lookups may legitimately fail while a record propagates.

use vstd::prelude::*;

verus! {

/// Some value of a DNS TXT answer equals the expected value exactly.
pub open spec fn contains_value(vs: Seq<String>, e: Seq<char>) -> bool {
    exists|i: int| 0 <= i < vs.len() && #[trigger] vs[i]@ == e
}

/// One poll attempt's observation confirms the challenge: the lookup
/// succeeded (`Some`) and its value set contains the expected value. A
/// failed lookup (`None`) confirms nothing.
pub open spec fn observation_confirms_spec(o: Option<Vec<String>>, e: Seq<char>) -> bool {
    o matches Some(vs) && contains_value(vs@, e)
}

/// Whether a TXT answer's value set contains the expected value exactly.
pub fn txt_values_contain(values: &Vec<String>, expected: &String) -> (r: bool)
    ensures
        r == contains_value(values@, expected@),
{
    let n = values.len();
    let mut i: usize = 0;
    while i < n
        invariant
            n == values@.len(),
            i <= n,
            forall|k: int| 0 <= k < i ==> (#[trigger] values@[k])@ != expected@,
        decreases n - i,
    {
        if values[i] == *expected {
            return true;
        }
        i = i + 1;
    }
    false
}

/// Whether one attempt's observation confirms the challenge; `None` stands
/// for a lookup that errored out, which is absorbed as "not yet found".
pub fn observation_confirms(observed: &Option<Vec<String>>, expected: &String) -> (r: bool)
    ensures
        r == observation_confirms_spec(*observed, expected@),
{
    match observed {
        Some(values) => txt_values_contain(values, expected),
        None => false,
    }
}

/// The poller's configuration: how long to wait between attempts and how
/// many attempts to make before giving up.
#[derive(Clone, Copy, Debug, PartialEq, Eq, Structural)]
pub struct Poller {
    /// Time-units slept after each unconfirmed attempt.
    pub interval: u64,
    /// Number of lookup attempts before giving up.
    pub budget: u32,
}

/// How one poll run ended: confirmed on some attempt, or timed out with the
/// budget spent. Either way, `attempts` counts the lookups made and
/// `elapsed` the time-units slept before the run ended.
#[derive(Clone, Copy, Debug, PartialEq, Eq, Structural)]
pub enum PollResult {
    Confirmed { attempts: u32, elapsed: u64 },
    Timeout { attempts: u32, elapsed: u64 },
}

impl Poller {
    /// The total sleep of a full run must be representable.
    pub open spec fn wf(&self) -> bool {
        self.interval * self.budget <= u64::MAX
    }

    /// The configuration the challenge orchestration uses by default: poll
    /// every 15 time-units, at most 80 times, a ceiling of 1200 time-units.
    pub fn standard() -> (r: Poller)
        ensures
            r.interval == 15,
            r.budget == 80,
            r.wf(),
    {
        Poller { interval: 15, budget: 80 }
    }

    /// Whether another lookup may still be made after `attempts_used`
    /// attempts, or the budget is spent.
    pub fn may_attempt(&self, attempts_used: u32) -> (r: bool)
        ensures
            r == (attempts_used < self.budget),
    {
        attempts_used < self.budget
    }

    /// The outcome of a whole poll run whose successive observations were
    /// `observations` — one entry per attempt the run would make, `None`
    /// standing for a lookup that errored out. The run confirms on the first
    /// attempt whose observation contains the expected value and times out
    /// after exactly the budgeted number of attempts when none does, having
    /// slept the full `interval * budget`.
    pub fn poll_outcome(&self, observations: &Vec<Option<Vec<String>>>, expected: &String) -> (r:
        PollResult)
        requires
            observations@.len() == self.budget,
            self.wf(),
        ensures
            (r is Confirmed) <==> (exists|i: int|
                0 <= i < observations@.len() && #[trigger] observation_confirms_spec(
                    observations@[i],
                    expected@,
                )),
            r matches PollResult::Confirmed { attempts, elapsed } ==> {
                &&& 0 < attempts <= self.budget
                &&& observation_confirms_spec(observations@[attempts - 1], expected@)
                &&& forall|k: int|
                    0 <= k < attempts - 1 ==> !#[trigger] observation_confirms_spec(
                        observations@[k],
                        expected@,
                    )
                &&& elapsed == self.interval * (attempts - 1)
            },
            r matches PollResult::Timeout { attempts, elapsed } ==> {
                &&& attempts == self.budget
                &&& elapsed == self.interval * self.budget
            },
    {
        let mut i: u32 = 0;
        let mut elapsed: u64 = 0;
        while i < self.budget
            invariant
                observations@.len() == self.budget,
                self.wf(),
                i <= self.budget,
                elapsed == self.interval * i,
                forall|k: int|
                    0 <= k < i ==> !#[trigger] observation_confirms_spec(
                        observations@[k],
                        expected@,
                    ),
            decreases self.budget - i,
        {
            if observation_confirms(&observations[i as usize], expected) {
                return PollResult::Confirmed { attempts: i + 1, elapsed };
            }
            proof {
                assert(self.interval * ((i + 1) as int) == self.interval * (i as int)
                    + self.interval && self.interval * ((i + 1) as int) <= self.interval * (
                self.budget as int)) by (nonlinear_arith)
                    requires
                        i + 1 <= self.budget,
                        self.interval >= 0,
                ;
            }
            elapsed = elapsed + self.interval;
            i = i + 1;
        }
        PollResult::Timeout { attempts: self.budget, elapsed }
    }
}

} // verus!
