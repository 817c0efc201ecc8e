//! The bounded-backoff readiness probe.
//!
//! The probe polls an endpoint until it answers or a finite backoff schedule
//! is exhausted. The schedule is an immutable sequence of wait durations in
//! milliseconds, consumed by index; the polling and sleeping themselves are
//! performed by the caller, which reports each attempt's outcome, so the
//! retry policy here is independent of wall-clock sleeping.
use vstd::prelude::*;

verus! {

/// Sum of a schedule's wait durations, in milliseconds.
pub open spec fn sum_ms(s: Seq<u64>) -> int
    decreases s.len(),
{
    if s.len() == 0 {
        0
    } else {
        sum_ms(s.drop_last()) + s.last()
    }
}

/// A sum of unsigned durations is never negative.
pub proof fn lemma_sum_nonneg(s: Seq<u64>)
    ensures
        sum_ms(s) >= 0,
    decreases s.len(),
{
    if s.len() > 0 {
        lemma_sum_nonneg(s.drop_last());
    }
}

/// Extending a prefix by one entry adds that entry to its sum.
pub proof fn lemma_sum_prefix_succ(s: Seq<u64>, i: int)
    requires
        0 <= i < s.len(),
    ensures
        sum_ms(s.subrange(0, i + 1)) == sum_ms(s.subrange(0, i)) + s[i],
{
    let p = s.subrange(0, i + 1);
    assert(p.drop_last() =~= s.subrange(0, i));
}

/// A prefix sum never exceeds the whole sum.
pub proof fn lemma_sum_prefix_le(s: Seq<u64>, i: int)
    requires
        0 <= i <= s.len(),
    ensures
        sum_ms(s.subrange(0, i)) <= sum_ms(s),
    decreases s.len() - i,
{
    if i == s.len() {
        assert(s.subrange(0, i) =~= s);
    } else {
        lemma_sum_prefix_succ(s, i);
        lemma_sum_prefix_le(s, i + 1);
    }
}

/// A schedule of `n` entries each at most `m` sums to at most `n * m`.
pub proof fn lemma_sum_bounded(s: Seq<u64>, m: int)
    requires
        forall|i: int| 0 <= i < s.len() ==> s[i] <= m,
    ensures
        sum_ms(s) <= s.len() * m,
    decreases s.len(),
{
    if s.len() == 0 {
    } else {
        lemma_sum_bounded(s.drop_last(), m);
        assert((s.len() - 1) * m + m == s.len() * m) by (nonlinear_arith);
    }
}

/// A schedule whose entries from `a` on are each at least `m` sums to at
/// least `(len - a) * m`.
pub proof fn lemma_sum_tail_bounded(s: Seq<u64>, a: int, m: int)
    requires
        0 <= a <= s.len(),
        m >= 0,
        forall|i: int| a <= i < s.len() ==> s[i] >= m,
    ensures
        sum_ms(s) >= (s.len() - a) * m,
    decreases s.len(),
{
    if s.len() == a {
        lemma_sum_nonneg(s);
    } else {
        lemma_sum_tail_bounded(s.drop_last(), a, m);
        assert((s.len() - 1 - a) * m + m == (s.len() - a) * m) by (nonlinear_arith);
    }
}

/// One probe invocation's consumption of its backoff schedule.
pub struct ReadinessProbe {
    schedule: Vec<u64>,
    next_index: usize,
    elapsed_ms: u64,
}

impl ReadinessProbe {
    /// The schedule this probe was built with.
    pub closed spec fn spec_schedule(&self) -> Seq<u64> {
        self.schedule@
    }

    /// How many schedule entries (sleeps) have been consumed.
    pub closed spec fn spec_sleeps(&self) -> int {
        self.next_index as int
    }

    /// The accumulated wait so far, in milliseconds.
    pub closed spec fn spec_elapsed(&self) -> int {
        self.elapsed_ms as int
    }

    /// The accumulated wait equals the sum of the consumed entries, and the
    /// whole schedule's sum fits the accumulator.
    pub closed spec fn wf(&self) -> bool {
        &&& self.next_index <= self.schedule@.len()
        &&& self.elapsed_ms == sum_ms(self.schedule@.subrange(0, self.next_index as int))
        &&& sum_ms(self.schedule@) <= u64::MAX
    }

    /// A fresh probe: nothing consumed, zero elapsed wait.
    pub fn new(schedule: Vec<u64>) -> (r: Self)
        requires
            sum_ms(schedule@) <= u64::MAX,
        ensures
            r.wf(),
            r.spec_schedule() == schedule@,
            r.spec_sleeps() == 0,
            r.spec_elapsed() == 0,
    {
        proof {
            assert(schedule@.subrange(0, 0) =~= Seq::<u64>::empty());
        }
        ReadinessProbe { schedule, next_index: 0, elapsed_ms: 0 }
    }

    /// After a failed attempt: the next wait duration, consuming one
    /// schedule entry and adding it to the elapsed wait; `None` once the
    /// schedule is exhausted, leaving the probe unchanged.
    pub fn next_backoff(&mut self) -> (r: Option<u64>)
        requires
            old(self).wf(),
        ensures
            final(self).wf(),
            final(self).spec_schedule() == old(self).spec_schedule(),
            old(self).spec_sleeps() < old(self).spec_schedule().len() ==> {
                &&& r == Some(old(self).spec_schedule()[old(self).spec_sleeps()] as u64)
                &&& final(self).spec_sleeps() == old(self).spec_sleeps() + 1
                &&& final(self).spec_elapsed() == old(self).spec_elapsed() + old(
                    self,
                ).spec_schedule()[old(self).spec_sleeps()]
            },
            old(self).spec_sleeps() >= old(self).spec_schedule().len() ==> r is None && *final(self)
                == *old(self),
    {
        if self.next_index < self.schedule.len() {
            let d = self.schedule[self.next_index];
            proof {
                lemma_sum_prefix_succ(self.schedule@, self.next_index as int);
                lemma_sum_prefix_le(self.schedule@, self.next_index + 1);
                lemma_sum_nonneg(self.schedule@.subrange(0, self.next_index as int));
            }
            self.elapsed_ms = self.elapsed_ms + d;
            self.next_index = self.next_index + 1;
            Some(d)
        } else {
            None
        }
    }

    /// The accumulated wait so far, in milliseconds.
    pub fn elapsed_ms(&self) -> (r: u64)
        ensures
            r == self.spec_elapsed(),
    {
        self.elapsed_ms
    }

    /// How many schedule entries have been consumed.
    pub fn sleeps_taken(&self) -> (r: usize)
        ensures
            r == self.spec_sleeps(),
    {
        self.next_index
    }

    /// The number of entries the schedule was built with.
    pub fn schedule_len(&self) -> (r: usize)
        ensures
            r == self.spec_schedule().len(),
    {
        self.schedule.len()
    }
}

/// `k` is the index of the first successful attempt.
pub open spec fn is_first_success(outcomes: Seq<bool>, k: int) -> bool {
    &&& 0 <= k < outcomes.len()
    &&& outcomes[k]
    &&& forall|j: int| 0 <= j < k ==> !outcomes[j]
}

/// Some attempt succeeds.
pub open spec fn any_success(outcomes: Seq<bool>) -> bool {
    exists|k: int| is_first_success(outcomes, k)
}

/// At most one index is the first success.
pub proof fn lemma_first_success_unique(outcomes: Seq<bool>, i: int, j: int)
    requires
        is_first_success(outcomes, i),
        is_first_success(outcomes, j),
    ensures
        i == j,
{
    if i < j {
        assert(!outcomes[i]);
    } else if j < i {
        assert(!outcomes[j]);
    }
}

/// How a whole probe invocation ended.
#[derive(Clone, Copy, PartialEq, Eq, Structural, Debug)]
pub enum ProbeRun {
    /// The endpoint answered; `elapsed_ms` is the accumulated wait (zero on
    /// first-attempt success) and `sleeps` the number of schedule entries
    /// consumed before the successful attempt.
    Ready { elapsed_ms: u64, sleeps: usize },
    /// Every attempt failed and the schedule is exhausted.
    Unresponsive { elapsed_ms: u64, sleeps: usize },
}

/// Replays a probe invocation against a predetermined sequence of attempt
/// outcomes (one per potential attempt: the initial attempt plus one per
/// schedule entry).
///
/// The contract is the probe's law: first-attempt success waits nothing;
/// success after `k` failures consumes exactly `k` sleeps, and the elapsed
/// wait equals the sum of the consumed schedule entries; when every attempt
/// fails, exactly the whole schedule is consumed before giving up.
pub fn run_probe_script(schedule: Vec<u64>, outcomes: &Vec<bool>) -> (r: ProbeRun)
    requires
        sum_ms(schedule@) <= u64::MAX,
        outcomes@.len() == schedule@.len() + 1,
    ensures
        any_success(outcomes@) ==> {
            let k = choose|k: int| is_first_success(outcomes@, k);
            &&& r matches ProbeRun::Ready { elapsed_ms, sleeps }
            &&& sleeps == k
            &&& elapsed_ms == sum_ms(schedule@.subrange(0, k))
        },
        !any_success(outcomes@) ==> {
            &&& r matches ProbeRun::Unresponsive { elapsed_ms, sleeps }
            &&& sleeps == schedule@.len()
            &&& elapsed_ms == sum_ms(schedule@)
        },
{
    let ghost s = schedule@;
    let mut probe = ReadinessProbe::new(schedule);
    let mut attempt: usize = 0;
    loop
        invariant
            s == schedule@,
            probe.wf(),
            probe.spec_schedule() == s,
            outcomes@.len() == s.len() + 1,
            attempt == probe.spec_sleeps(),
            attempt <= s.len(),
            probe.spec_elapsed() == sum_ms(s.subrange(0, attempt as int)),
            forall|j: int| 0 <= j < attempt ==> !outcomes@[j],
        decreases s.len() - attempt,
    {
        if outcomes[attempt] {
            proof {
                assert(is_first_success(outcomes@, attempt as int));
                let k = choose|k: int| is_first_success(outcomes@, k);
                lemma_first_success_unique(outcomes@, k, attempt as int);
            }
            return ProbeRun::Ready { elapsed_ms: probe.elapsed_ms(), sleeps: attempt };
        }
        match probe.next_backoff() {
            Some(_) => {
                attempt += 1;
            },
            None => {
                proof {
                    assert(attempt == s.len());
                    assert forall|k: int| 0 <= k < outcomes@.len() implies !(
                    is_first_success(outcomes@, k)) by {
                        if k < attempt {
                            assert(!outcomes@[k]);
                        } else {
                            assert(k == attempt);
                            assert(!outcomes@[k]);
                        }
                    }
                    assert(!any_success(outcomes@));
                    assert(s.subrange(0, s.len() as int) =~= s);
                }
                return ProbeRun::Unresponsive { elapsed_ms: probe.elapsed_ms(), sleeps: attempt };
            },
        }
    }
}

} // verus!
