use lock_watch::forward::{forward_step, run_forward, ForwardAction, StreamEvent};
use lock_watch::probe::{probe_decision, ProbeAction, ProbeState};
use lock_watch::services::{known_services, match_rule_for};
use lock_watch::setup::{SetupAction, SetupState};

/// Drive the subscription sequence with the given per-request outcomes and
/// record each subscription request issued, whether the background task was
/// spawned, and how many times the callback would then be invoked for the
/// given stream observations.
fn drive_listener(outcomes: &[bool], events: Vec<StreamEvent>) -> (Vec<usize>, bool, usize) {
    let mut state = SetupState::new();
    let mut requests: Vec<usize> = Vec::new();
    loop {
        match state.action() {
            SetupAction::Subscribe { index } => {
                requests.push(index);
                state = state.on_result(outcomes[index]);
            }
            SetupAction::Spawn => {
                let invocations = run_forward(&events);
                return (requests, true, invocations);
            }
            SetupAction::Fail => {
                return (requests, false, 0);
            }
        }
    }
}

#[test]
fn known_services_table_is_fixed_and_ordered() {
    let table = known_services();
    assert_eq!(table.len(), 2);
    assert_eq!(table[0].interface, "org.gnome.ScreenSaver");
    assert_eq!(table[0].path, "/org/gnome/ScreenSaver");
    assert_eq!(table[1].interface, "org.freedesktop.ScreenSaver");
    assert_eq!(table[1].path, "/org/freedesktop/ScreenSaver");
}

#[test]
fn match_rule_targets_the_entry_interface_and_active_changed() {
    let table = known_services();
    for entry in &table {
        let rule = match_rule_for(entry);
        assert_eq!(rule.interface, entry.interface);
        assert_eq!(rule.member, "ActiveChanged");
    }
}

#[test]
fn listener_subscribes_once_per_entry_in_table_order() {
    let (requests, spawned, _) = drive_listener(&[true, true], Vec::new());
    assert_eq!(requests, vec![0, 1]);
    assert!(spawned);
}

#[test]
fn listener_spawns_only_after_all_subscriptions() {
    // The spawn decision comes after both requests; with both succeeding,
    // three signals mean exactly three invocations.
    let events = vec![StreamEvent::Signal, StreamEvent::Signal, StreamEvent::Signal];
    let (requests, spawned, invocations) = drive_listener(&[true, true], events);
    assert_eq!(requests.len(), 2);
    assert!(spawned);
    assert_eq!(invocations, 3);
}

#[test]
fn first_subscription_failure_prevents_spawn() {
    // Entry 0's request fails: no further request, no task, no invocation,
    // whatever the bus would have delivered afterwards.
    let events = vec![StreamEvent::Signal, StreamEvent::Signal];
    let (requests, spawned, invocations) = drive_listener(&[false, true], events);
    assert_eq!(requests, vec![0]);
    assert!(!spawned);
    assert_eq!(invocations, 0);
}

#[test]
fn second_subscription_failure_prevents_spawn() {
    let events = vec![StreamEvent::Signal];
    let (requests, spawned, invocations) = drive_listener(&[true, false], events);
    assert_eq!(requests, vec![0, 1]);
    assert!(!spawned);
    assert_eq!(invocations, 0);
}

#[test]
fn every_signal_is_delivered_exactly_once_in_order() {
    assert_eq!(forward_step(&StreamEvent::Signal), ForwardAction::Deliver);
    assert_eq!(forward_step(&StreamEvent::Closed), ForwardAction::Stop);
    let events = vec![
        StreamEvent::Signal,
        StreamEvent::Signal,
        StreamEvent::Signal,
        StreamEvent::Closed,
    ];
    assert_eq!(run_forward(&events), 3);
}

#[test]
fn nothing_is_delivered_after_the_stream_ends() {
    let events = vec![
        StreamEvent::Signal,
        StreamEvent::Signal,
        StreamEvent::Closed,
        StreamEvent::Signal,
        StreamEvent::Signal,
    ];
    assert_eq!(run_forward(&events), 2);
}

#[test]
fn an_empty_or_closed_stream_delivers_nothing() {
    assert_eq!(run_forward(&Vec::new()), 0);
    assert_eq!(run_forward(&vec![StreamEvent::Closed]), 0);
}

#[test]
fn probe_true_when_first_entry_answers() {
    assert_eq!(probe_decision(&vec![true, true]), (true, 1));
    assert_eq!(probe_decision(&vec![true, false]), (true, 1));
}

#[test]
fn probe_true_when_only_second_entry_answers() {
    // Entry 1 errors, entry 2 answers: still available, both attempted.
    assert_eq!(probe_decision(&vec![false, true]), (true, 2));
}

#[test]
fn probe_false_when_no_entry_answers() {
    assert_eq!(probe_decision(&vec![false, false]), (false, 2));
}

#[test]
fn probe_queries_the_table_in_order_and_short_circuits() {
    let state = ProbeState::new();
    assert_eq!(state.action(), ProbeAction::Call { index: 0 });
    // First entry answers: decided at once, no second call.
    let decided = state.on_result(true);
    assert_eq!(decided.action(), ProbeAction::Finish { available: true });
    // First entry fails: the second is queried next.
    let second = state.on_result(false);
    assert_eq!(second.action(), ProbeAction::Call { index: 1 });
    assert_eq!(
        second.on_result(false).action(),
        ProbeAction::Finish { available: false }
    );
}
