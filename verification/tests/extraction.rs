//! End-to-end tests of the event-timeline extraction engine.

use sc2_exp::containerd::event_name;
use sc2_exp::containerd::{
    Containerd, CorrelationState, EventKind, Interval, LineKind, LogEntry, PatternConfig, Role,
};

fn entry(ts: i64, msg: &str) -> LogEntry {
    LogEntry { timestamp_us: ts, message: msg.as_bytes().to_vec() }
}

fn iv(start: i64, end: i64) -> Option<Interval> {
    Some(Interval { start_us: start, end_us: end })
}

#[test]
fn concrete_scenario() {
    let entries = vec![
        entry(100, "RunPodSandbox for sandbox of deployment dep-42 requested"),
        entry(200, "RunPodSandbox returns sandbox id \\\"abc123\\\""),
        entry(300, "PullImage requested for image"),
        entry(400, "PullImage returns image reference \\\"sha\\\""),
        entry(500, "CreateContainer within sandbox abc123 for user-container requested"),
        entry(
            600,
            "CreateContainer within sandbox abc123 for user-container returns container id \\\"cafe1\\\"",
        ),
        entry(700, "StartContainer for cafe1 requested"),
        entry(800, "StartContainer for cafe1 returns successfully"),
    ];
    let report =
        Containerd::get_events_from_entries(PatternConfig::containerd(), b"dep-42", 0, &entries);
    assert_eq!(report.timeline.sandbox, iv(100, 200));
    assert_eq!(report.timeline.pull, iv(300, 400));
    assert_eq!(report.timeline.user_container.create, iv(500, 600));
    assert_eq!(report.timeline.user_container.start, iv(700, 800));
    assert_eq!(report.timeline.queue_proxy.create, None);
    assert_eq!(report.timeline.queue_proxy.start, None);
    // The queue-proxy pair is absent, so the run is incomplete.
    assert!(!report.complete);
    assert_eq!(report.timeline.count(), 4);
    assert_eq!(report.duplicate_starts, 0);
    assert_eq!(report.orphan_completions, 0);
}

#[test]
fn full_run_is_complete() {
    let entries = vec![
        entry(100, "RunPodSandbox for dep-7"),
        entry(110, "RunPodSandbox returns sandbox id \\\"aa11\\\""),
        entry(120, "PullImage requested"),
        entry(130, "PullImage returns image reference"),
        entry(140, "CreateContainer in aa11 for user-container"),
        entry(150, "CreateContainer in aa11 for user-container returns container id \\\"bb22\\\""),
        entry(160, "CreateContainer in aa11 for queue-proxy"),
        entry(170, "CreateContainer in aa11 for queue-proxy returns container id \\\"cc33\\\""),
        entry(180, "StartContainer for bb22"),
        entry(190, "StartContainer for bb22 returns successfully"),
        entry(200, "StartContainer for cc33"),
        entry(210, "StartContainer for cc33 returns successfully"),
    ];
    let report =
        Containerd::get_events_from_entries(PatternConfig::containerd(), b"dep-7", 0, &entries);
    assert!(report.complete);
    assert_eq!(report.timeline.count(), 6);
    assert_eq!(report.timeline.sandbox, iv(100, 110));
    assert_eq!(report.timeline.pull, iv(120, 130));
    assert_eq!(report.timeline.user_container.create, iv(140, 150));
    assert_eq!(report.timeline.queue_proxy.create, iv(160, 170));
    assert_eq!(report.timeline.user_container.start, iv(180, 190));
    assert_eq!(report.timeline.queue_proxy.start, iv(200, 210));
}

#[test]
fn role_isolation_interleaved() {
    // The two roles' lines are interleaved; each still gets its own
    // intervals, with no cross-attribution.
    let entries = vec![
        entry(10, "RunPodSandbox dep-x"),
        entry(20, "RunPodSandbox returns sandbox id \\\"f00d\\\""),
        entry(30, "CreateContainer in f00d for queue-proxy"),
        entry(40, "CreateContainer in f00d for user-container"),
        entry(50, "CreateContainer in f00d for queue-proxy returns container id \\\"0001\\\""),
        entry(60, "CreateContainer in f00d for user-container returns container id \\\"0002\\\""),
        entry(70, "StartContainer 0002"),
        entry(80, "StartContainer 0001"),
        entry(90, "StartContainer 0001 returns successfully"),
        entry(95, "StartContainer 0002 returns successfully"),
    ];
    let report =
        Containerd::get_events_from_entries(PatternConfig::containerd(), b"dep-x", 0, &entries);
    assert_eq!(report.timeline.queue_proxy.create, iv(30, 50));
    assert_eq!(report.timeline.user_container.create, iv(40, 60));
    assert_eq!(report.timeline.user_container.start, iv(70, 95));
    assert_eq!(report.timeline.queue_proxy.start, iv(80, 90));
    assert_eq!(report.duplicate_starts, 0);
    assert_eq!(report.orphan_completions, 0);
}

#[test]
fn line_naming_both_roles_is_ignored() {
    let entries = vec![
        entry(10, "RunPodSandbox dep-x"),
        entry(20, "RunPodSandbox returns sandbox id \\\"f00d\\\""),
        // Both discriminators present: attributed to neither role.
        entry(30, "CreateContainer in f00d for user-container and queue-proxy"),
        entry(40, "CreateContainer in f00d for user-container"),
        entry(50, "CreateContainer in f00d for user-container returns container id \\\"0002\\\""),
    ];
    let report =
        Containerd::get_events_from_entries(PatternConfig::containerd(), b"dep-x", 0, &entries);
    // The ambiguous line did not open the pending phase at t=30.
    assert_eq!(report.timeline.user_container.create, iv(40, 50));
    assert_eq!(report.timeline.queue_proxy.create, None);
}

#[test]
fn orphan_completions_tolerated() {
    let entries = vec![
        // Pull completion with no pull start.
        entry(10, "PullImage returns image reference"),
        // Sandbox completion with no sandbox start: no interval, but the
        // sandbox id is still learned for later phases.
        entry(20, "RunPodSandbox returns sandbox id \\\"abcd\\\""),
        // Create completion with no create start for that role.
        entry(30, "CreateContainer in abcd for user-container returns container id \\\"1234\\\""),
    ];
    let report =
        Containerd::get_events_from_entries(PatternConfig::containerd(), b"dep-1", 0, &entries);
    assert_eq!(report.timeline.count(), 0);
    assert_eq!(report.orphan_completions, 3);
    assert!(!report.complete);
}

#[test]
fn duplicate_starts_keep_first_timestamp() {
    let entries = vec![
        entry(10, "RunPodSandbox dep-9"),
        entry(20, "RunPodSandbox dep-9"),
        entry(30, "PullImage requested"),
        entry(40, "PullImage requested again"),
        entry(50, "RunPodSandbox returns sandbox id \\\"dead\\\""),
        entry(60, "PullImage returns image reference"),
    ];
    let report =
        Containerd::get_events_from_entries(PatternConfig::containerd(), b"dep-9", 0, &entries);
    // Both intervals start at the first start line's timestamp.
    assert_eq!(report.timeline.sandbox, iv(10, 50));
    assert_eq!(report.timeline.pull, iv(30, 60));
    assert_eq!(report.duplicate_starts, 2);
}

#[test]
fn cutoff_drops_stale_entries() {
    let stale_then_fresh = vec![
        // Stale residue of a previous repetition, before the cutoff.
        entry(10, "RunPodSandbox dep-2"),
        entry(20, "PullImage requested"),
        // The current repetition.
        entry(100, "RunPodSandbox dep-2"),
        entry(110, "RunPodSandbox returns sandbox id \\\"beef\\\""),
        entry(120, "PullImage requested"),
        entry(130, "PullImage returns image reference"),
    ];
    let report = Containerd::get_events_from_entries(
        PatternConfig::containerd(),
        b"dep-2",
        50,
        &stale_then_fresh,
    );
    // The stale starts did not win: the intervals start after the cutoff.
    assert_eq!(report.timeline.sandbox, iv(100, 110));
    assert_eq!(report.timeline.pull, iv(120, 130));
    assert_eq!(report.duplicate_starts, 0);

    let fresh_only = stale_then_fresh[2..].to_vec();
    let report2 =
        Containerd::get_events_from_entries(PatternConfig::containerd(), b"dep-2", 50, &fresh_only);
    assert_eq!(report.timeline, report2.timeline);
}

#[test]
fn sandbox_start_needs_deployment_id() {
    let entries = vec![
        entry(10, "RunPodSandbox for some other deployment"),
        entry(20, "RunPodSandbox returns sandbox id \\\"0123\\\""),
    ];
    let report =
        Containerd::get_events_from_entries(PatternConfig::containerd(), b"dep-42", 0, &entries);
    // No start was attributed, so the completion is an orphan.
    assert_eq!(report.timeline.sandbox, None);
    assert_eq!(report.orphan_completions, 1);
}

#[test]
fn malformed_id_is_not_a_completion() {
    let entries = vec![
        entry(10, "RunPodSandbox dep-5"),
        // The id is not hexadecimal: not yet a valid completion.
        entry(20, "RunPodSandbox returns sandbox id \\\"zzzz\\\""),
        entry(30, "RunPodSandbox returns sandbox id \\\"b0b0\\\""),
    ];
    let report =
        Containerd::get_events_from_entries(PatternConfig::containerd(), b"dep-5", 0, &entries);
    // The pending start survived the malformed line and matched the next.
    assert_eq!(report.timeline.sandbox, iv(10, 30));
}

#[test]
fn out_of_order_completion_is_dropped() {
    let entries = vec![
        entry(100, "PullImage requested"),
        // A completion stamped before its start is noise; the pending
        // start is kept for a later, ordered completion.
        entry(50, "PullImage returns image reference"),
        entry(200, "PullImage returns image reference"),
    ];
    let report =
        Containerd::get_events_from_entries(PatternConfig::containerd(), b"dep-1", 0, &entries);
    assert_eq!(report.timeline.pull, iv(100, 200));
    if let Some(p) = report.timeline.pull {
        assert!(p.start_us <= p.end_us);
    }
}

#[test]
fn start_lines_without_known_id_are_ignored() {
    let entries = vec![
        entry(10, "StartContainer for cafe1"),
        entry(20, "StartContainer for cafe1 returns successfully"),
    ];
    let report =
        Containerd::get_events_from_entries(PatternConfig::containerd(), b"dep-1", 0, &entries);
    // No container id is known yet, so nothing can be attributed.
    assert_eq!(report.timeline.count(), 0);
    assert_eq!(report.orphan_completions, 0);
    assert_eq!(report.duplicate_starts, 0);
}

#[test]
fn classifier_is_pure_and_tagged() {
    let state = CorrelationState::new(PatternConfig::containerd(), b"dep-42".to_vec(), 0);
    assert_eq!(
        state.classify(b"RunPodSandbox for dep-42"),
        LineKind::SandboxStart
    );
    assert_eq!(
        state.classify(b"RunPodSandbox returns sandbox id \\\"abc123\\\""),
        LineKind::SandboxDone(b"abc123".to_vec())
    );
    assert_eq!(state.classify(b"PullImage requested"), LineKind::PullStart);
    assert_eq!(
        state.classify(b"PullImage returns image reference"),
        LineKind::PullDone
    );
    // Create lines are unrecognisable until the sandbox id is known.
    assert_eq!(
        state.classify(b"CreateContainer in abc123 for user-container"),
        LineKind::Unrecognized
    );
    assert_eq!(state.classify(b"unrelated noise"), LineKind::Unrecognized);

    let mut advanced = state;
    advanced.process(&entry(5, "RunPodSandbox returns sandbox id \\\"abc123\\\""));
    assert_eq!(
        advanced.classify(b"CreateContainer in abc123 for user-container"),
        LineKind::CreateStart(Role::UserContainer)
    );
    assert_eq!(
        advanced.classify(b"CreateContainer in abc123 for queue-proxy"),
        LineKind::CreateStart(Role::QueueProxy)
    );
    assert_eq!(
        advanced.classify(
            b"CreateContainer in abc123 for queue-proxy returns container id \\\"7e57\\\""
        ),
        LineKind::CreateDone(Role::QueueProxy, b"7e57".to_vec())
    );
}

#[test]
fn raw_json_lines_are_parsed_and_bad_ones_skipped() {
    let lines: Vec<Vec<u8>> = vec![
        br#"{"__REALTIME_TIMESTAMP":"100","MESSAGE":"RunPodSandbox dep-3"}"#.to_vec(),
        b"this is not json".to_vec(),
        br#"{"__REALTIME_TIMESTAMP":"not a number","MESSAGE":"PullImage"}"#.to_vec(),
        br#"{"MESSAGE":"missing timestamp field"}"#.to_vec(),
        br#"{"__REALTIME_TIMESTAMP":"200","MESSAGE":"RunPodSandbox returns sandbox id \\\"ab\\\"","OTHER":"ignored"}"#.to_vec(),
    ];
    let report =
        Containerd::get_events_from_lines(PatternConfig::containerd(), b"dep-3", 0, &lines);
    assert_eq!(report.timeline.sandbox, iv(100, 200));
    assert_eq!(report.timeline.count(), 1);
}

#[test]
fn event_names_cover_the_vocabulary() {
    assert_eq!(event_name(EventKind::RunPodSandbox), "RunPodSandbox");
    assert_eq!(event_name(EventKind::PullImage), "PullImage");
    assert_eq!(
        event_name(EventKind::CreateContainerUserContainer),
        "CreateContainerUserContainer"
    );
    assert_eq!(
        event_name(EventKind::CreateContainerQueueProxy),
        "CreateContainerQueueProxy"
    );
    assert_eq!(
        event_name(EventKind::StartContainerUserContainer),
        "StartContainerUserContainer"
    );
    assert_eq!(
        event_name(EventKind::StartContainerQueueProxy),
        "StartContainerQueueProxy"
    );
}

#[test]
fn timeline_get_matches_slots() {
    let entries = vec![
        entry(10, "PullImage requested"),
        entry(30, "PullImage returns image reference"),
    ];
    let report =
        Containerd::get_events_from_entries(PatternConfig::containerd(), b"dep-1", 0, &entries);
    assert_eq!(report.timeline.get(EventKind::PullImage), iv(10, 30));
    assert_eq!(report.timeline.get(EventKind::RunPodSandbox), None);
}
