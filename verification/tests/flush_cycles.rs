use replay_core::fanout::RemoteAction;
use replay_core::flush::{flush_steps, FlushKind, FlushProfile, FlushScheduler, FlushStep};

fn profile(interval_seconds: u64, full_every: u64, vacuum_on_full: bool) -> FlushProfile {
    FlushProfile { interval_seconds, full_every, vacuum_on_full }
}

#[test]
fn every_fourth_cycle_is_a_full_flush() {
    let mut scheduler = FlushScheduler::new(profile(8, 4, true)).unwrap();
    for cycle in 0..8 {
        let dispatches = scheduler.next_cycle(4);
        let expected = if cycle % 4 == 0 { FlushKind::Full } else { FlushKind::MemoryOnly };
        assert_eq!(dispatches.len(), 4);
        for d in &dispatches {
            assert_eq!(d.kind, expected);
        }
    }
}

#[test]
fn cycles_stagger_node_dispatches_evenly() {
    let mut scheduler = FlushScheduler::new(profile(8, 4, true)).unwrap();
    let dispatches = scheduler.next_cycle(4);
    let delays: Vec<u64> = dispatches.iter().map(|d| d.delay_seconds).collect();
    assert_eq!(delays, vec![0, 2, 4, 6]);
    let indices: Vec<u64> = dispatches.iter().map(|d| d.node_index).collect();
    assert_eq!(indices, vec![0, 1, 2, 3]);
}

#[test]
fn a_period_of_one_makes_every_cycle_full() {
    let mut scheduler = FlushScheduler::new(profile(4, 1, false)).unwrap();
    for _ in 0..3 {
        let dispatches = scheduler.next_cycle(4);
        for d in &dispatches {
            assert_eq!(d.kind, FlushKind::Full);
        }
    }
}

#[test]
fn scheduler_rejects_a_zero_period() {
    assert!(FlushScheduler::new(profile(8, 0, true)).is_none());
}

#[test]
fn memory_only_flush_is_one_action() {
    let steps = flush_steps(FlushKind::MemoryOnly, true);
    assert_eq!(steps, vec![FlushStep::Act(RemoteAction::FlushMemory)]);
}

#[test]
fn full_flush_vacuums_and_polls_when_asked_to() {
    let steps = flush_steps(FlushKind::Full, true);
    assert_eq!(
        steps,
        vec![
            FlushStep::EmitFlushNotice,
            FlushStep::Act(RemoteAction::FlushNode),
            FlushStep::Act(RemoteAction::Vacuum),
            FlushStep::PollTableSize,
        ]
    );
}

#[test]
fn full_flush_without_vacuum_still_polls() {
    let steps = flush_steps(FlushKind::Full, false);
    assert_eq!(
        steps,
        vec![
            FlushStep::EmitFlushNotice,
            FlushStep::Act(RemoteAction::FlushNode),
            FlushStep::PollTableSize,
        ]
    );
}
