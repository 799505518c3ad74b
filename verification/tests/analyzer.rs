use yaminabe::analyzer::{
    check_blacklist, check_consecutive, check_frequent, check_rule, check_time_travel,
    contains_call, contains_run, count_calls, filter_target, Analyzer,
};
use yaminabe::detection_rule::{
    DetectionRule, Meta, RuleFile, Syscall, SyscallConsecutive, SyscallFrequent, Timestamp,
};
use yaminabe::sandbox::{ExitOutcome, SandboxResult};
use yaminabe::trace::SyscallEvent;

fn comm(name: &str) -> [u8; 16] {
    let mut buf = [0u8; 16];
    buf[..name.len()].copy_from_slice(name.as_bytes());
    buf
}

fn target_event(timestamp: u64, nr: u32) -> SyscallEvent {
    SyscallEvent { timestamp, nr, pid: 10, ppid: 1, comm: comm("target") }
}

fn other_event(timestamp: u64, nr: u32) -> SyscallEvent {
    SyscallEvent { timestamp, nr, pid: 11, ppid: 1, comm: comm("sh") }
}

fn calls(numbers: &[u32]) -> Vec<SyscallEvent> {
    numbers.iter().enumerate().map(|(i, nr)| target_event(i as u64, *nr)).collect()
}

fn stamps(timestamps: &[u64]) -> Vec<SyscallEvent> {
    timestamps.iter().map(|ts| target_event(*ts, 1)).collect()
}

fn meta(name: &str) -> Meta {
    Meta { name: name.to_string(), desc: format!("{} rule", name) }
}

fn syscall_rule(
    name: &str,
    blacklist: Vec<usize>,
    frequent: Vec<(usize, usize)>,
    consecutive: Vec<(usize, usize)>,
) -> DetectionRule {
    DetectionRule {
        meta: meta(name),
        syscall: Some(Syscall {
            blacklist_numbers: blacklist,
            frequent: frequent
                .into_iter()
                .map(|(number, threshold_count)| SyscallFrequent { threshold_count, number })
                .collect(),
            consecutive: consecutive
                .into_iter()
                .map(|(number, threshold_count)| SyscallConsecutive { threshold_count, number })
                .collect(),
        }),
        timestamp: None,
    }
}

fn time_rule(name: &str, check_timetravel: bool) -> DetectionRule {
    DetectionRule { meta: meta(name), syscall: None, timestamp: Some(Timestamp { check_timetravel }) }
}

fn analyzer(events: Vec<SyscallEvent>, rules: Vec<DetectionRule>) -> Analyzer {
    let files: Vec<RuleFile> = rules
        .into_iter()
        .enumerate()
        .map(|(i, rule)| RuleFile { name: format!("rule{}.toml", i), rule: Some(rule) })
        .collect();
    let result = SandboxResult { syscall_events: events, exit: ExitOutcome::Success };
    match Analyzer::new(result, &files) {
        Ok(a) => a,
        Err(e) => panic!("rules did not load: {:?}", e),
    }
}

fn violated(events: Vec<SyscallEvent>, rules: Vec<DetectionRule>) -> Option<(String, String)> {
    let res = analyzer(events, rules).analyze();
    match res.violated_detection_rule {
        Some(rule) => Some((rule.meta.name, res.message)),
        None => {
            assert_eq!(res.message, "");
            None
        }
    }
}

#[test]
fn blacklist_hit_names_the_number() {
    let got = violated(calls(&[1, 59, 2]), vec![syscall_rule("exec", vec![59], vec![], vec![])]);
    assert_eq!(
        got,
        Some(("exec".to_string(), "Blacklisted syscall detected: 59".to_string()))
    );
}

#[test]
fn blacklist_without_the_call_is_clean() {
    let got = violated(calls(&[1, 2, 3, 60]), vec![syscall_rule("exec", vec![59], vec![], vec![])]);
    assert_eq!(got, None);
}

#[test]
fn blacklist_reports_first_listed_number_not_first_event() {
    let trace = calls(&[7, 5]);
    assert_eq!(check_blacklist(&vec![5, 7], &trace), Some(5));
    assert_eq!(check_blacklist(&vec![9, 7, 5], &trace), Some(7));
    assert_eq!(check_blacklist(&vec![9], &trace), None);
    assert_eq!(check_blacklist(&vec![], &trace), None);
}

#[test]
fn frequency_below_threshold_is_clean() {
    let got = violated(
        calls(&[35, 1, 35, 2]),
        vec![syscall_rule("sleepy", vec![], vec![(35, 3)], vec![])],
    );
    assert_eq!(got, None);
}

#[test]
fn frequency_at_threshold_violates() {
    let got = violated(
        calls(&[35, 1, 35, 2, 35]),
        vec![syscall_rule("sleepy", vec![], vec![(35, 3)], vec![])],
    );
    assert_eq!(
        got,
        Some(("sleepy".to_string(), "Frequent syscall detected: 35".to_string()))
    );
}

#[test]
fn frequency_counts_whole_trace() {
    let trace = calls(&[35, 1, 1, 1, 1, 1, 1, 35, 1, 1, 1, 35]);
    assert_eq!(count_calls(&trace, 35), 3);
    assert_eq!(count_calls(&trace, 1), 9);
    assert_eq!(count_calls(&trace, 2), 0);
    assert_eq!(count_calls(&Vec::new(), 2), 0);
    let entries = vec![
        SyscallFrequent { threshold_count: 10, number: 1 },
        SyscallFrequent { threshold_count: 3, number: 35 },
    ];
    assert_eq!(check_frequent(&entries, &trace), Some(35));
}

#[test]
fn consecutive_trailing_run_violates() {
    let got = violated(
        calls(&[24, 24, 1, 24, 24, 24]),
        vec![syscall_rule("yield", vec![], vec![], vec![(24, 3)])],
    );
    assert_eq!(
        got,
        Some(("yield".to_string(), "Consecutive syscall detected: 24".to_string()))
    );
}

#[test]
fn consecutive_broken_run_is_clean() {
    let got = violated(
        calls(&[24, 24, 1, 24, 24]),
        vec![syscall_rule("yield", vec![], vec![], vec![(24, 3)])],
    );
    assert_eq!(got, None);
}

#[test]
fn consecutive_exact_threshold_violates() {
    let got = violated(
        calls(&[24, 24, 24]),
        vec![syscall_rule("yield", vec![], vec![], vec![(24, 3)])],
    );
    assert_eq!(
        got,
        Some(("yield".to_string(), "Consecutive syscall detected: 24".to_string()))
    );
}

#[test]
fn consecutive_run_in_the_middle_violates() {
    let trace = calls(&[24, 24, 24, 1]);
    assert!(contains_run(&trace, 24, 3));
    assert!(!contains_run(&trace, 24, 4));
    assert!(contains_run(&trace, 1, 1));
    assert!(!contains_run(&trace, 1, 2));
    let entries = vec![
        SyscallConsecutive { threshold_count: 2, number: 1 },
        SyscallConsecutive { threshold_count: 3, number: 24 },
    ];
    assert_eq!(check_consecutive(&entries, &trace), Some(24));
}

#[test]
fn threshold_zero_always_violates() {
    let empty: Vec<SyscallEvent> = Vec::new();
    assert!(contains_run(&empty, 24, 0));
    assert!(!contains_run(&empty, 24, 1));
    let got = violated(Vec::new(), vec![syscall_rule("f", vec![], vec![(35, 0)], vec![])]);
    assert_eq!(got, Some(("f".to_string(), "Frequent syscall detected: 35".to_string())));
    let got = violated(Vec::new(), vec![syscall_rule("c", vec![], vec![], vec![(24, 0)])]);
    assert_eq!(got, Some(("c".to_string(), "Consecutive syscall detected: 24".to_string())));
}

#[test]
fn time_travel_backward_violates() {
    let got = violated(stamps(&[100, 200, 150]), vec![time_rule("clock", true)]);
    assert_eq!(
        got,
        Some(("clock".to_string(), "Timetravel detected: prev: 200 > next: 150".to_string()))
    );
}

#[test]
fn time_travel_monotonic_is_clean() {
    let got = violated(stamps(&[100, 200, 300]), vec![time_rule("clock", true)]);
    assert_eq!(got, None);
}

#[test]
fn time_travel_forward_gap_violates() {
    let got = violated(stamps(&[0, 500_000_000, 1_600_000_000]), vec![time_rule("clock", true)]);
    assert_eq!(
        got,
        Some((
            "clock".to_string(),
            "Timetravel detected: prev: 500000000 > next: 1600000000".to_string()
        ))
    );
}

#[test]
fn time_travel_forward_small_gap_is_clean() {
    let got = violated(stamps(&[0, 500_000_000, 1_400_000_000]), vec![time_rule("clock", true)]);
    assert_eq!(got, None);
}

#[test]
fn time_travel_gap_of_exactly_one_second_violates() {
    assert_eq!(check_time_travel(&stamps(&[5, 1_000_000_005])), Some((5, 1_000_000_005)));
    assert_eq!(check_time_travel(&stamps(&[5, 1_000_000_004])), None);
    assert_eq!(check_time_travel(&stamps(&[7, 7, 7])), None);
    assert_eq!(check_time_travel(&stamps(&[7])), None);
    assert_eq!(check_time_travel(&Vec::new()), None);
}

#[test]
fn time_travel_backward_is_searched_before_forward() {
    let trace = stamps(&[0, 2_000_000_000, 1_999_999_999]);
    assert_eq!(check_time_travel(&trace), Some((2_000_000_000, 1_999_999_999)));
}

#[test]
fn time_travel_extreme_timestamps() {
    assert_eq!(check_time_travel(&stamps(&[0, u64::MAX])), Some((0, u64::MAX)));
    assert_eq!(check_time_travel(&stamps(&[u64::MAX, 0])), Some((u64::MAX, 0)));
}

#[test]
fn time_travel_check_switched_off_is_clean() {
    let got = violated(stamps(&[100, 200, 150]), vec![time_rule("clock", false)]);
    assert_eq!(got, None);
}

#[test]
fn rule_without_policies_never_triggers() {
    let rule = DetectionRule { meta: meta("noop"), syscall: None, timestamp: None };
    assert_eq!(check_rule(&rule, &stamps(&[100, 200, 150])), None);
    assert_eq!(violated(calls(&[59, 59, 59]), vec![rule]), None);
}

#[test]
fn only_target_events_are_analysed() {
    let events = vec![
        other_event(1, 59),
        target_event(2, 1),
        other_event(3, 59),
        target_event(4, 2),
    ];
    let kept = filter_target(&events);
    assert_eq!(kept.len(), 2);
    assert_eq!(kept[0].timestamp, 2);
    assert_eq!(kept[1].timestamp, 4);
    let got = violated(events, vec![syscall_rule("exec", vec![59], vec![], vec![])]);
    assert_eq!(got, None);
}

#[test]
fn helper_timestamps_do_not_break_the_order() {
    let events = vec![target_event(100, 1), other_event(50, 1), target_event(200, 1)];
    assert_eq!(violated(events, vec![time_rule("clock", true)]), None);
}

#[test]
fn process_name_is_compared_without_padding() {
    assert!(target_event(0, 0).is_target());
    assert!(!other_event(0, 0).is_target());
    let mut e = target_event(0, 0);
    e.comm = comm("target2");
    assert!(!e.is_target());
    e.comm = comm("targe");
    assert!(!e.is_target());
    e.comm = [0u8; 16];
    assert!(!e.is_target());
    e.comm = comm("tar");
    e.comm[4] = b'g';
    e.comm[5] = b'e';
    e.comm[6] = b't';
    assert!(!e.is_target());
    e.comm = [b't'; 16];
    assert!(!e.is_target());
}

#[test]
fn first_violated_rule_in_store_order_wins() {
    let rules = vec![
        syscall_rule("quiet", vec![100], vec![], vec![]),
        syscall_rule("second", vec![], vec![(1, 2)], vec![]),
        syscall_rule("third", vec![1], vec![], vec![]),
    ];
    let got = violated(calls(&[1, 1]), rules);
    assert_eq!(got, Some(("second".to_string(), "Frequent syscall detected: 1".to_string())));
}

#[test]
fn checks_within_a_rule_run_in_fixed_order() {
    let mut rule = syscall_rule("all", vec![2], vec![(1, 2)], vec![(1, 2)]);
    rule.timestamp = Some(Timestamp { check_timetravel: true });
    let backwards = vec![target_event(10, 1), target_event(5, 1), target_event(1, 2)];
    assert_eq!(
        check_rule(&rule, &backwards),
        Some("Blacklisted syscall detected: 2".to_string())
    );
    let no_blacklist = vec![target_event(10, 1), target_event(5, 1)];
    assert_eq!(
        check_rule(&rule, &no_blacklist),
        Some("Frequent syscall detected: 1".to_string())
    );
    let mut rule = syscall_rule("late", vec![2], vec![(1, 3)], vec![(1, 2)]);
    rule.timestamp = Some(Timestamp { check_timetravel: true });
    assert_eq!(
        check_rule(&rule, &no_blacklist),
        Some("Consecutive syscall detected: 1".to_string())
    );
    let mut rule = syscall_rule("time", vec![2], vec![(1, 3)], vec![(1, 3)]);
    rule.timestamp = Some(Timestamp { check_timetravel: true });
    assert_eq!(
        check_rule(&rule, &no_blacklist),
        Some("Timetravel detected: prev: 10 > next: 5".to_string())
    );
}

#[test]
fn contains_call_finds_any_position() {
    let trace = calls(&[3, 4, 5]);
    assert!(contains_call(&trace, 3));
    assert!(contains_call(&trace, 5));
    assert!(!contains_call(&trace, 6));
    assert!(!contains_call(&Vec::new(), 3));
}

#[test]
fn same_input_gives_same_verdict() {
    let rules = || {
        vec![
            syscall_rule("a", vec![59], vec![(35, 3)], vec![(24, 3)]),
            time_rule("clock", true),
        ]
    };
    let events = || {
        vec![
            target_event(0, 24),
            target_event(10, 24),
            other_event(5, 59),
            target_event(20, 24),
        ]
    };
    let first = violated(events(), rules());
    let second = violated(events(), rules());
    assert_eq!(first, second);
    assert_eq!(first, Some(("a".to_string(), "Consecutive syscall detected: 24".to_string())));
    let a = analyzer(events(), rules());
    let once = a.analyze();
    let again = a.analyze();
    assert_eq!(once.message, again.message);
    assert_eq!(
        once.violated_detection_rule.map(|r| r.meta.name),
        again.violated_detection_rule.map(|r| r.meta.name)
    );
}

#[test]
fn violated_rule_is_handed_back_whole() {
    let rule = syscall_rule("exec", vec![59, 60], vec![(1, 9)], vec![(2, 8)]);
    let res = analyzer(calls(&[60]), vec![rule]).analyze();
    assert_eq!(res.message, "Blacklisted syscall detected: 60");
    let got = res.violated_detection_rule.expect("a rule is violated");
    assert_eq!(got.meta.name, "exec");
    assert_eq!(got.meta.desc, "exec rule");
    let policy = got.syscall.expect("the policy is kept");
    assert_eq!(policy.blacklist_numbers, vec![59, 60]);
    assert_eq!(policy.frequent.len(), 1);
    assert_eq!(policy.frequent[0].number, 1);
    assert_eq!(policy.frequent[0].threshold_count, 9);
    assert_eq!(policy.consecutive[0].number, 2);
    assert_eq!(policy.consecutive[0].threshold_count, 8);
    assert!(got.timestamp.is_none());
}
