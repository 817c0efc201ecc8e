use ollama_buildpack::backoff::default_backoff_schedule;
use ollama_buildpack::probe::run_probe_script;
use ollama_buildpack::probe::ProbeRun;
use ollama_buildpack::probe::ReadinessProbe;

#[test]
fn first_attempt_success_waits_nothing() {
    let run = run_probe_script(vec![3, 5], &vec![true, false, false]);
    assert_eq!(run, ProbeRun::Ready { elapsed_ms: 0, sleeps: 0 });
}

#[test]
fn success_after_failures_sums_consumed_entries() {
    let run = run_probe_script(vec![5, 7, 11], &vec![false, false, true, false]);
    assert_eq!(run, ProbeRun::Ready { elapsed_ms: 12, sleeps: 2 });
}

#[test]
fn success_on_last_attempt_consumes_whole_schedule() {
    let run = run_probe_script(vec![5, 7, 11], &vec![false, false, false, true]);
    assert_eq!(run, ProbeRun::Ready { elapsed_ms: 23, sleeps: 3 });
}

#[test]
fn exhausted_schedule_gives_up_after_every_entry() {
    let run = run_probe_script(vec![3, 5], &vec![false, false, false]);
    assert_eq!(run, ProbeRun::Unresponsive { elapsed_ms: 8, sleeps: 2 });
}

#[test]
fn empty_schedule_allows_one_attempt() {
    let run = run_probe_script(vec![], &vec![false]);
    assert_eq!(run, ProbeRun::Unresponsive { elapsed_ms: 0, sleeps: 0 });
}

#[test]
fn next_backoff_consumes_entries_in_order() {
    let mut probe = ReadinessProbe::new(vec![2, 4]);
    assert_eq!(probe.elapsed_ms(), 0);
    assert_eq!(probe.next_backoff(), Some(2));
    assert_eq!(probe.next_backoff(), Some(4));
    assert_eq!(probe.next_backoff(), None);
    assert_eq!(probe.elapsed_ms(), 6);
    assert_eq!(probe.sleeps_taken(), 2);
    assert_eq!(probe.schedule_len(), 2);
}

#[test]
fn default_schedule_is_bounded() {
    let schedule = default_backoff_schedule();
    assert_eq!(schedule.len(), 31);
    let mut total: u64 = 0;
    for entry in &schedule {
        assert!(10 <= *entry && *entry <= 60000);
        total += *entry;
    }
    assert!(1020000 <= total && total <= 1860000);
}

#[test]
fn default_schedule_grows_to_the_ceiling() {
    let schedule = default_backoff_schedule();
    for i in 0..schedule.len() - 1 {
        assert!(schedule[i] <= schedule[i + 1]);
    }
    for i in 14..schedule.len() {
        assert_eq!(schedule[i], 60000);
    }
    // the early waits really grow from the floor: the first cannot already
    // sit at the ceiling
    assert!(schedule[0] <= 26);
}
