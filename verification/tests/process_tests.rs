use deepseek_harness_desktop::lifecycle::{
    ProcessPoll, ReadyAction, ReadyEvent, ReadyPhase, ReadyWait, Shutdown, StopAction, StopEvent,
    StopPhase, STOP_GRACE_MS,
};
use deepseek_harness_desktop::node::{
    bytes_less_eq, last_sorted, latest_version, parse_version, version_less_eq, launcher_candidates, launcher_fallback, node_binary_name,
    node_override, node_search_plan, resolve_node, resource_bases, Anchor, NodeCandidate,
    NodeResolution, Platform,
};
use deepseek_harness_desktop::search::{CandidateSearch, SearchStep};

#[test]
fn ready_after_successful_connect() {
    let mut w = ReadyWait::new(60_000);
    assert_eq!(w.pending(), ReadyAction::ReadClock);
    assert_eq!(w.step(ReadyEvent::Clock(0)), ReadyAction::PollProcess);
    assert_eq!(w.step(ReadyEvent::Polled(Some(ProcessPoll::Running))), ReadyAction::Connect);
    assert_eq!(w.step(ReadyEvent::Probed(false)), ReadyAction::Sleep(200));
    assert_eq!(w.step(ReadyEvent::Paused), ReadyAction::ReadClock);
    assert_eq!(w.step(ReadyEvent::Clock(250)), ReadyAction::PollProcess);
    assert_eq!(w.step(ReadyEvent::Polled(None)), ReadyAction::Connect);
    assert_eq!(w.step(ReadyEvent::Probed(true)), ReadyAction::ReportReady);
    assert_eq!(w.phase, ReadyPhase::Ready);
    assert_eq!(w.step(ReadyEvent::Clock(999_999)), ReadyAction::ReportReady);
}

#[test]
fn ready_wait_fails_when_server_dies() {
    let mut w = ReadyWait::new(60_000);
    w.step(ReadyEvent::Clock(10));
    assert_eq!(w.step(ReadyEvent::Polled(Some(ProcessPoll::Exited))), ReadyAction::ReportFailure);
    assert_eq!(w.step(ReadyEvent::Probed(true)), ReadyAction::ReportFailure);
    let mut w = ReadyWait::new(60_000);
    w.step(ReadyEvent::Clock(10));
    assert_eq!(w.step(ReadyEvent::Polled(Some(ProcessPoll::PollFailed))), ReadyAction::ReportFailure);
}

#[test]
fn ready_wait_times_out() {
    let mut w = ReadyWait::new(60_000);
    assert_eq!(w.step(ReadyEvent::Clock(60_000)), ReadyAction::ReportFailure);
    assert_eq!(w.phase, ReadyPhase::Failed);
    let mut w = ReadyWait::new(60_000);
    assert_eq!(w.step(ReadyEvent::Clock(59_999)), ReadyAction::PollProcess);
}

#[test]
fn ready_wait_ignores_out_of_turn_events() {
    let mut w = ReadyWait::new(100);
    assert_eq!(w.step(ReadyEvent::Probed(true)), ReadyAction::ReadClock);
    assert_eq!(w.phase, ReadyPhase::AwaitClock);
}

#[test]
fn graceful_stop_when_process_exits() {
    let mut s = Shutdown::new(true);
    assert_eq!(s.pending(), StopAction::SendTerminate);
    assert_eq!(s.step(StopEvent::Signaled), StopAction::ReadClock);
    assert_eq!(s.step(StopEvent::Clock(0)), StopAction::PollProcess);
    assert_eq!(s.step(StopEvent::Polled(ProcessPoll::Running)), StopAction::Sleep(100));
    assert_eq!(s.step(StopEvent::Paused), StopAction::ReadClock);
    assert_eq!(s.step(StopEvent::Clock(120)), StopAction::PollProcess);
    assert_eq!(s.step(StopEvent::Polled(ProcessPoll::Exited)), StopAction::Finish);
    assert_eq!(s.phase, StopPhase::Stopped);
}

#[test]
fn stop_kills_after_grace_period() {
    let mut s = Shutdown::new(true);
    s.step(StopEvent::Signaled);
    assert_eq!(s.step(StopEvent::Clock(STOP_GRACE_MS)), StopAction::ForceKill);
    assert_eq!(s.step(StopEvent::Killed), StopAction::Finish);
    let mut s = Shutdown::new(true);
    s.step(StopEvent::Signaled);
    s.step(StopEvent::Clock(5));
    assert_eq!(s.step(StopEvent::Polled(ProcessPoll::PollFailed)), StopAction::ForceKill);
}

#[test]
fn stop_without_signals_kills_at_once() {
    let mut s = Shutdown::new(false);
    assert_eq!(s.pending(), StopAction::ForceKill);
    assert_eq!(s.step(StopEvent::Clock(0)), StopAction::ForceKill);
    assert_eq!(s.step(StopEvent::Killed), StopAction::Finish);
}

fn file_segments(c: &NodeCandidate) -> (Anchor, Vec<&'static str>) {
    match c {
        NodeCandidate::File(p) => (p.anchor, p.segments.clone()),
        NodeCandidate::Command(name) => panic!("command {}", name),
    }
}

#[test]
fn node_search_order_on_macos() {
    let plan = node_search_plan(Platform::MacOs, true, Some(2));
    assert_eq!(plan.len(), 10);
    assert_eq!(file_segments(&plan[0]), (Anchor::ResourceDir, vec!["_up_", "binaries", "node"]));
    assert_eq!(file_segments(&plan[1]), (Anchor::ResourceDir, vec!["_up_", "node"]));
    assert_eq!(file_segments(&plan[2]), (Anchor::ResourceDir, vec!["binaries", "node"]));
    assert_eq!(file_segments(&plan[3]), (Anchor::ResourceDir, vec!["node"]));
    assert!(matches!(plan[4], NodeCandidate::Command("node")));
    assert!(matches!(plan[5], NodeCandidate::Command("node")));
    assert!(matches!(plan[6], NodeCandidate::Command("nodejs")));
    assert_eq!(file_segments(&plan[7]), (Anchor::Fixed("/usr/local/bin/node"), vec![]));
    assert_eq!(file_segments(&plan[8]), (Anchor::Fixed("/opt/homebrew/bin/node"), vec![]));
    assert_eq!(file_segments(&plan[9]), (Anchor::NvmEntry(2), vec!["bin/node"]));
}

#[test]
fn node_search_order_elsewhere() {
    let plan = node_search_plan(Platform::Windows, true, Some(0));
    assert_eq!(plan.len(), 9);
    assert_eq!(file_segments(&plan[0]), (Anchor::ResourceDir, vec!["_up_", "binaries", "node.exe"]));
    assert!(matches!(plan[4], NodeCandidate::Command("node.exe")));
    assert_eq!(
        file_segments(&plan[7]),
        (Anchor::Fixed("C:\\Program Files\\nodejs\\node.exe"), vec![])
    );
    assert_eq!(
        file_segments(&plan[8]),
        (Anchor::Fixed("C:\\Program Files (x86)\\nodejs\\node.exe"), vec![])
    );
    let plan = node_search_plan(Platform::Linux, false, Some(3));
    assert_eq!(plan.len(), 4);
    assert!(matches!(plan[0], NodeCandidate::Command("node")));
    assert!(matches!(plan[2], NodeCandidate::Command("nodejs")));
    assert_eq!(file_segments(&plan[3]), (Anchor::Fixed("/usr/local/bin/node"), vec![]));
    let plan = node_search_plan(Platform::MacOs, false, None);
    assert_eq!(plan.len(), 5);
    assert_eq!(node_search_plan(Platform::Other, false, None).len(), 3);
    assert_eq!(node_binary_name(Platform::Windows), "node.exe");
    assert_eq!(node_binary_name(Platform::Linux), "node");
}

#[test]
fn node_override_from_environment() {
    assert_eq!(node_override(Some(" /opt/node/bin/node \n")), Some("/opt/node/bin/node"));
    assert_eq!(node_override(Some("   ")), None);
    assert_eq!(node_override(Some("")), None);
    assert_eq!(node_override(None), None);
    match resolve_node(Platform::Linux, Some("/x/node"), true, None) {
        NodeResolution::Explicit(p) => assert_eq!(p, "/x/node"),
        _ => panic!("expected the override"),
    }
    match resolve_node(Platform::Windows, Some(" "), false, None) {
        NodeResolution::Search { candidates, fallback } => {
            assert_eq!(candidates.len(), 5);
            assert_eq!(fallback, "node.exe");
        }
        _ => panic!("expected a search"),
    }
}

#[test]
fn launcher_locations() {
    let c = launcher_candidates(true);
    assert_eq!(c.len(), 2);
    assert_eq!(c[0].anchor, Anchor::ResourceDir);
    assert_eq!(c[0].segments, vec!["_up_", "server", "launch-dsh.js"]);
    assert_eq!(c[1].segments, vec!["server", "launch-dsh.js"]);
    assert!(launcher_candidates(false).is_empty());
    let f = launcher_fallback();
    assert_eq!(f.anchor, Anchor::ManifestDir);
    assert_eq!(f.segments, vec!["..", "server", "launch-dsh.js"]);
    let b = resource_bases(true);
    assert_eq!(b.len(), 2);
    assert_eq!(b[0].segments, vec!["_up_"]);
    assert!(b[1].segments.is_empty());
    assert!(resource_bases(false).is_empty());
}

fn names(list: &[&str]) -> Vec<Vec<u8>> {
    list.iter().map(|s| s.as_bytes().to_vec()).collect()
}

#[test]
fn latest_nvm_version_is_highest_version_number() {
    assert_eq!(latest_version(&names(&["v18.20.1", "v20.11.0", "v16.0.0"])), Some(1));
    assert_eq!(latest_version(&names(&["v9.11.2", "v20.1.0"])), Some(1));
    assert_eq!(latest_version(&names(&["v20.1.0", "v9.11.2"])), Some(0));
    assert_eq!(latest_version(&names(&["v18.20.1", "v9.0.0", "v20.11.0"])), Some(2));
    assert_eq!(latest_version(&names(&["v20.9.0", "v20.10.0"])), Some(1));
    assert_eq!(latest_version(&names(&["v20.10.3", "v20.10.12"])), Some(1));
    assert_eq!(latest_version(&names(&["v1.0.0", "v01.0.0"])), Some(1));
    assert_eq!(latest_version(&Vec::new()), None);
}

#[test]
fn nvm_names_of_other_forms_are_passed_over() {
    assert_eq!(latest_version(&names(&["zzz", "v9.0.0", ".DS_Store", "v10.0.0-rc"])), Some(1));
    assert_eq!(latest_version(&names(&["v99999999999999999999.0.0", "v1.2.3"])), Some(1));
    // No version at all: the name that sorts last as bytes.
    assert_eq!(latest_version(&names(&["b", "abc", "a"])), Some(0));
    assert_eq!(latest_version(&names(&["v1", "v1"])), Some(1));
    let list = names(&["v2", "v10", "v2.1"]);
    let mut sorted = list.clone();
    sorted.sort();
    assert_eq!(list[latest_version(&list).unwrap()], *sorted.last().unwrap());
}

#[test]
fn version_names_parse() {
    assert_eq!(parse_version(&b"v20.11.0".to_vec()), Some((20, 11, 0)));
    assert_eq!(parse_version(&b"v0.0.0".to_vec()), Some((0, 0, 0)));
    assert_eq!(parse_version(&b"v007.08.9".to_vec()), Some((7, 8, 9)));
    assert_eq!(parse_version(&b"v18446744073709551615.1.2".to_vec()), Some((u64::MAX, 1, 2)));
    assert_eq!(parse_version(&b"v18446744073709551616.1.2".to_vec()), None);
    assert_eq!(parse_version(&b"20.11.0".to_vec()), None);
    assert_eq!(parse_version(&b"v20.11".to_vec()), None);
    assert_eq!(parse_version(&b"v20.11.0.1".to_vec()), None);
    assert_eq!(parse_version(&b"v20..0".to_vec()), None);
    assert_eq!(parse_version(&b"v.1.2".to_vec()), None);
    assert_eq!(parse_version(&b"v1.2.".to_vec()), None);
    assert_eq!(parse_version(&b"v1.2.3-rc".to_vec()), None);
    assert_eq!(parse_version(&b"".to_vec()), None);
    assert!(version_less_eq((9, 11, 2), (20, 1, 0)));
    assert!(!version_less_eq((20, 1, 0), (9, 11, 2)));
    assert!(version_less_eq((20, 1, 0), (20, 1, 0)));
    assert!(version_less_eq((20, 1, 9), (20, 2, 0)));
}

#[test]
fn byte_order_fallback() {
    assert_eq!(last_sorted(&names(&["v18", "v9", "v20"])), Some(1));
    assert_eq!(last_sorted(&Vec::new()), None);
    assert!(bytes_less_eq(&b"ab".to_vec(), &b"abc".to_vec()));
    assert!(!bytes_less_eq(&b"b".to_vec(), &b"abc".to_vec()));
    assert!(bytes_less_eq(&b"".to_vec(), &b"".to_vec()));
}

#[test]
fn search_uses_first_passing_candidate() {
    let checks = [false, false, true, true];
    let mut s = CandidateSearch::new(checks.len());
    let mut step = s.next();
    let mut asked = Vec::new();
    while let SearchStep::Check(i) = step {
        asked.push(i);
        step = s.report(checks[i]);
    }
    assert_eq!(step, SearchStep::Found(2));
    assert_eq!(asked, vec![0, 1, 2]);
    let mut s = CandidateSearch::new(2);
    assert_eq!(s.report(false), SearchStep::Check(1));
    assert_eq!(s.report(false), SearchStep::Exhausted);
    assert_eq!(CandidateSearch::new(0).next(), SearchStep::Exhausted);
}
