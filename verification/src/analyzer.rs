//! The detection rule engine: evaluates a captured trace against the loaded
//! rules and reports the first rule that the trace violates.

use vstd::prelude::*;
use vstd::string::StringExecFns;
use crate::detection_rule::{
    defined_rules, first_malformed_from, load_rules, rule_views, DetectionRule,
    DetectionRuleView, RuleFile, RuleLoadError, Syscall, SyscallConsecutive, SyscallFrequent,
    SyscallView, Timestamp,
};
use crate::sandbox::SandboxResult;
use crate::text::{decimal, push_decimal};
use crate::trace::SyscallEvent;

verus! {

/// Two consecutive events this far apart, in nanoseconds, count as a jump
/// into the future.
pub const FORWARD_GAP_NS: u64 = 1_000_000_000;

/// The predicate that keeps the events of the monitored process.
pub open spec fn target_pred() -> spec_fn(SyscallEvent) -> bool {
    |e: SyscallEvent| e.spec_is_target()
}

/// The events of the monitored process, in capture order.
pub open spec fn target_events(events: Seq<SyscallEvent>) -> Seq<SyscallEvent> {
    events.filter(target_pred())
}

/// Whether some event of `trace` is a call of `number`.
pub open spec fn occurs(trace: Seq<SyscallEvent>, number: usize) -> bool {
    exists|i: int| 0 <= i < trace.len() && (#[trigger] trace[i]).nr == number
}

/// How many events of `trace` are calls of `number`.
pub open spec fn occurrences(trace: Seq<SyscallEvent>, number: usize) -> nat
    decreases trace.len(),
{
    if trace.len() == 0 {
        0
    } else {
        occurrences(trace.drop_last(), number) + if trace.last().nr == number {
            1nat
        } else {
            0nat
        }
    }
}

/// Whether the `len` events of `trace` from position `start` on are all
/// calls of `number`.
pub open spec fn run_at(trace: Seq<SyscallEvent>, number: usize, start: int, len: nat) -> bool {
    forall|j: int| start <= j < start + len ==> (#[trigger] trace[j]).nr == number
}

/// Whether `trace` holds `len` calls of `number` in an unbroken row.
pub open spec fn has_run(trace: Seq<SyscallEvent>, number: usize, len: nat) -> bool {
    exists|start: int|
        0 <= start && start + len <= trace.len() && #[trigger] run_at(trace, number, start, len)
}

/// The first blacklisted number, from position `from` of the list on, that
/// occurs in `trace`.
pub open spec fn first_blacklisted_from(
    numbers: Seq<usize>,
    trace: Seq<SyscallEvent>,
    from: int,
) -> Option<usize>
    decreases numbers.len() - from,
{
    if from < 0 || from >= numbers.len() {
        None
    } else if occurs(trace, numbers[from]) {
        Some(numbers[from])
    } else {
        first_blacklisted_from(numbers, trace, from + 1)
    }
}

/// The number of the first entry, from position `from` of the list on, whose
/// threshold the whole-trace count reaches.
pub open spec fn first_frequent_from(
    entries: Seq<SyscallFrequent>,
    trace: Seq<SyscallEvent>,
    from: int,
) -> Option<usize>
    decreases entries.len() - from,
{
    if from < 0 || from >= entries.len() {
        None
    } else if occurrences(trace, entries[from].number) >= entries[from].threshold_count {
        Some(entries[from].number)
    } else {
        first_frequent_from(entries, trace, from + 1)
    }
}

/// The number of the first entry, from position `from` of the list on, whose
/// threshold an unbroken row of calls reaches.
pub open spec fn first_consecutive_from(
    entries: Seq<SyscallConsecutive>,
    trace: Seq<SyscallEvent>,
    from: int,
) -> Option<usize>
    decreases entries.len() - from,
{
    if from < 0 || from >= entries.len() {
        None
    } else if has_run(trace, entries[from].number, entries[from].threshold_count as nat) {
        Some(entries[from].number)
    } else {
        first_consecutive_from(entries, trace, from + 1)
    }
}

/// The first position, from `from` on, whose event is older than the event
/// just before it.
pub open spec fn first_regression_from(trace: Seq<SyscallEvent>, from: int) -> Option<int>
    decreases trace.len() - from,
{
    if from < 1 || from >= trace.len() {
        None
    } else if trace[from].timestamp < trace[from - 1].timestamp {
        Some(from)
    } else {
        first_regression_from(trace, from + 1)
    }
}

/// The first position, from `from` on, whose event is a full gap later than
/// the event just before it.
pub open spec fn first_gap_from(trace: Seq<SyscallEvent>, from: int) -> Option<int>
    decreases trace.len() - from,
{
    if from < 1 || from >= trace.len() {
        None
    } else if trace[from].timestamp - trace[from - 1].timestamp >= FORWARD_GAP_NS {
        Some(from)
    } else {
        first_gap_from(trace, from + 1)
    }
}

/// The two timestamps, earlier event first, at which time jumps in `trace`:
/// at the first step backward, else at the first gap forward.
pub open spec fn time_travel(trace: Seq<SyscallEvent>) -> Option<(u64, u64)> {
    match first_regression_from(trace, 1) {
        Some(i) => Some((trace[i - 1].timestamp, trace[i].timestamp)),
        None => match first_gap_from(trace, 1) {
            Some(i) => Some((trace[i - 1].timestamp, trace[i].timestamp)),
            None => None,
        },
    }
}

pub open spec fn blacklist_message(number: usize) -> Seq<char> {
    "Blacklisted syscall detected: "@ + decimal(number as nat)
}

pub open spec fn frequent_message(number: usize) -> Seq<char> {
    "Frequent syscall detected: "@ + decimal(number as nat)
}

pub open spec fn consecutive_message(number: usize) -> Seq<char> {
    "Consecutive syscall detected: "@ + decimal(number as nat)
}

pub open spec fn time_travel_message(prev: u64, next: u64) -> Seq<char> {
    "Timetravel detected: prev: "@ + decimal(prev as nat) + " > next: "@ + decimal(next as nat)
}

/// The message of the first system-call policy of `policy` that `trace`
/// violates: blacklist, then frequency, then consecutive runs.
pub open spec fn syscall_violation(policy: SyscallView, trace: Seq<SyscallEvent>) -> Option<
    Seq<char>,
> {
    match first_blacklisted_from(policy.blacklist_numbers, trace, 0) {
        Some(number) => Some(blacklist_message(number)),
        None => match first_frequent_from(policy.frequent, trace, 0) {
            Some(number) => Some(frequent_message(number)),
            None => match first_consecutive_from(policy.consecutive, trace, 0) {
                Some(number) => Some(consecutive_message(number)),
                None => None,
            },
        },
    }
}

/// The message of the timestamp policy of `policy`, if `trace` violates it.
pub open spec fn timestamp_violation(policy: Timestamp, trace: Seq<SyscallEvent>) -> Option<
    Seq<char>,
> {
    if policy.check_timetravel {
        match time_travel(trace) {
            Some((prev, next)) => Some(time_travel_message(prev, next)),
            None => None,
        }
    } else {
        None
    }
}

/// The message of the first policy of `rule` that `trace` violates. The
/// system-call policies come before the timestamp policy; an absent policy
/// is skipped.
pub open spec fn rule_violation(rule: DetectionRuleView, trace: Seq<SyscallEvent>) -> Option<
    Seq<char>,
> {
    let by_syscall = match rule.syscall {
        Some(policy) => syscall_violation(policy, trace),
        None => None,
    };
    if by_syscall is Some {
        by_syscall
    } else {
        match rule.timestamp {
            Some(policy) => timestamp_violation(policy, trace),
            None => None,
        }
    }
}

/// The position of the first rule, from `from` on, that `trace` violates,
/// with the message of the violation.
pub open spec fn first_violation_from(
    rules: Seq<DetectionRuleView>,
    trace: Seq<SyscallEvent>,
    from: int,
) -> Option<(int, Seq<char>)>
    decreases rules.len() - from,
{
    if from < 0 || from >= rules.len() {
        None
    } else {
        match rule_violation(rules[from], trace) {
            Some(message) => Some((from, message)),
            None => first_violation_from(rules, trace, from + 1),
        }
    }
}

/// The verdict on a whole captured trace: the events of the monitored
/// process are held against the rules in store order.
pub open spec fn verdict(rules: Seq<DetectionRuleView>, events: Seq<SyscallEvent>) -> Option<
    (int, Seq<char>),
> {
    first_violation_from(rules, target_events(events), 0)
}

/// The result of an analysis: the first violated rule with the message of
/// the violation, or no rule and an empty message.
pub open spec fn analysis(
    rules: Seq<DetectionRuleView>,
    events: Seq<SyscallEvent>,
) -> AnalyzeResultView {
    match verdict(rules, events) {
        Some((index, message)) => AnalyzeResultView {
            violated_detection_rule: Some(rules[index]),
            message,
        },
        None => AnalyzeResultView { violated_detection_rule: None, message: Seq::empty() },
    }
}

/// Where the search for a blacklisted call ends: it finds a number if and
/// only if some listed number, from position `from` on, occurs in the
/// trace, and the number it finds is the first such in listed order.
pub proof fn lemma_first_blacklisted(numbers: Seq<usize>, trace: Seq<SyscallEvent>, from: int)
    requires
        0 <= from,
    ensures
        match first_blacklisted_from(numbers, trace, from) {
            Some(number) => exists|k: int|
                {
                    &&& from <= k < numbers.len()
                    &&& #[trigger] numbers[k] == number
                    &&& occurs(trace, number)
                    &&& forall|j: int| from <= j < k ==> !occurs(trace, #[trigger] numbers[j])
                },
            None => forall|j: int|
                from <= j < numbers.len() ==> !occurs(trace, #[trigger] numbers[j]),
        },
    decreases numbers.len() - from,
{
    if from < numbers.len() {
        if occurs(trace, numbers[from]) {
            assert(numbers[from] == numbers[from]);
        } else {
            lemma_first_blacklisted(numbers, trace, from + 1);
            match first_blacklisted_from(numbers, trace, from + 1) {
                Some(number) => {
                    let k = choose|k: int|
                        {
                            &&& from + 1 <= k < numbers.len()
                            &&& #[trigger] numbers[k] == number
                            &&& occurs(trace, number)
                            &&& forall|j: int|
                                from + 1 <= j < k ==> !occurs(trace, #[trigger] numbers[j])
                        };
                    assert(numbers[k] == number);
                    assert forall|j: int| from <= j < k implies !occurs(
                        trace,
                        #[trigger] numbers[j],
                    ) by {}
                },
                None => {},
            }
        }
    }
}

/// Where the search for a frequent call ends: at the first entry, from
/// position `from` on, whose threshold the count over the whole trace
/// reaches.
pub proof fn lemma_first_frequent(
    entries: Seq<SyscallFrequent>,
    trace: Seq<SyscallEvent>,
    from: int,
)
    requires
        0 <= from,
    ensures
        match first_frequent_from(entries, trace, from) {
            Some(number) => exists|k: int|
                {
                    &&& from <= k < entries.len()
                    &&& (#[trigger] entries[k]).number == number
                    &&& occurrences(trace, number) >= entries[k].threshold_count
                    &&& forall|j: int|
                        from <= j < k ==> occurrences(trace, (#[trigger] entries[j]).number)
                            < entries[j].threshold_count
                },
            None => forall|j: int|
                from <= j < entries.len() ==> occurrences(trace, (#[trigger] entries[j]).number)
                    < entries[j].threshold_count,
        },
    decreases entries.len() - from,
{
    if from < entries.len() {
        if occurrences(trace, entries[from].number) >= entries[from].threshold_count {
            assert(entries[from].number == entries[from].number);
        } else {
            lemma_first_frequent(entries, trace, from + 1);
            match first_frequent_from(entries, trace, from + 1) {
                Some(number) => {
                    let k = choose|k: int|
                        {
                            &&& from + 1 <= k < entries.len()
                            &&& (#[trigger] entries[k]).number == number
                            &&& occurrences(trace, number) >= entries[k].threshold_count
                            &&& forall|j: int|
                                from + 1 <= j < k ==> occurrences(
                                    trace,
                                    (#[trigger] entries[j]).number,
                                ) < entries[j].threshold_count
                        };
                    assert(entries[k].number == number);
                    assert forall|j: int| from <= j < k implies occurrences(
                        trace,
                        (#[trigger] entries[j]).number,
                    ) < entries[j].threshold_count by {}
                },
                None => {},
            }
        }
    }
}

/// Where the search for a consecutive run ends: at the first entry, from
/// position `from` on, whose threshold an unbroken row of calls reaches.
pub proof fn lemma_first_consecutive(
    entries: Seq<SyscallConsecutive>,
    trace: Seq<SyscallEvent>,
    from: int,
)
    requires
        0 <= from,
    ensures
        match first_consecutive_from(entries, trace, from) {
            Some(number) => exists|k: int|
                {
                    &&& from <= k < entries.len()
                    &&& (#[trigger] entries[k]).number == number
                    &&& has_run(trace, number, entries[k].threshold_count as nat)
                    &&& forall|j: int|
                        from <= j < k ==> !has_run(
                            trace,
                            (#[trigger] entries[j]).number,
                            entries[j].threshold_count as nat,
                        )
                },
            None => forall|j: int|
                from <= j < entries.len() ==> !has_run(
                    trace,
                    (#[trigger] entries[j]).number,
                    entries[j].threshold_count as nat,
                ),
        },
    decreases entries.len() - from,
{
    if from < entries.len() {
        if has_run(trace, entries[from].number, entries[from].threshold_count as nat) {
            assert(entries[from].number == entries[from].number);
        } else {
            lemma_first_consecutive(entries, trace, from + 1);
            match first_consecutive_from(entries, trace, from + 1) {
                Some(number) => {
                    let k = choose|k: int|
                        {
                            &&& from + 1 <= k < entries.len()
                            &&& (#[trigger] entries[k]).number == number
                            &&& has_run(trace, number, entries[k].threshold_count as nat)
                            &&& forall|j: int|
                                from + 1 <= j < k ==> !has_run(
                                    trace,
                                    (#[trigger] entries[j]).number,
                                    entries[j].threshold_count as nat,
                                )
                        };
                    assert(entries[k].number == number);
                    assert forall|j: int| from <= j < k implies !has_run(
                        trace,
                        (#[trigger] entries[j]).number,
                        entries[j].threshold_count as nat,
                    ) by {}
                },
                None => {},
            }
        }
    }
}

/// Where the search for a step backward ends: at the first event, from
/// position `from` on, that is older than the event just before it.
pub proof fn lemma_first_regression(trace: Seq<SyscallEvent>, from: int)
    requires
        1 <= from,
    ensures
        match first_regression_from(trace, from) {
            Some(i) => {
                &&& from <= i < trace.len()
                &&& trace[i].timestamp < trace[i - 1].timestamp
                &&& forall|j: int|
                    from <= j < i ==> (#[trigger] trace[j]).timestamp >= trace[j - 1].timestamp
            },
            None => forall|j: int|
                from <= j < trace.len() ==> (#[trigger] trace[j]).timestamp >= trace[j
                    - 1].timestamp,
        },
    decreases trace.len() - from,
{
    if from < trace.len() && trace[from].timestamp >= trace[from - 1].timestamp {
        lemma_first_regression(trace, from + 1);
    }
}

/// Where the search for a gap forward ends: at the first event, from
/// position `from` on, that is a full gap later than the event just before
/// it.
pub proof fn lemma_first_gap(trace: Seq<SyscallEvent>, from: int)
    requires
        1 <= from,
    ensures
        match first_gap_from(trace, from) {
            Some(i) => {
                &&& from <= i < trace.len()
                &&& trace[i].timestamp - trace[i - 1].timestamp >= FORWARD_GAP_NS
                &&& forall|j: int|
                    from <= j < i ==> (#[trigger] trace[j]).timestamp - trace[j - 1].timestamp
                        < FORWARD_GAP_NS
            },
            None => forall|j: int|
                from <= j < trace.len() ==> (#[trigger] trace[j]).timestamp - trace[j
                    - 1].timestamp < FORWARD_GAP_NS,
        },
    decreases trace.len() - from,
{
    if from < trace.len() && trace[from].timestamp - trace[from - 1].timestamp < FORWARD_GAP_NS {
        lemma_first_gap(trace, from + 1);
    }
}

/// Time does not jump in a trace if and only if every event is at least as
/// late as the event just before it, and less than a full gap later.
pub proof fn lemma_time_travel(trace: Seq<SyscallEvent>)
    ensures
        time_travel(trace) is None <==> forall|i: int|
            0 < i < trace.len() ==> 0 <= (#[trigger] trace[i]).timestamp - trace[i - 1].timestamp
                < FORWARD_GAP_NS,
{
    lemma_first_regression(trace, 1);
    lemma_first_gap(trace, 1);
    if time_travel(trace) is None {
        assert forall|i: int| 0 < i < trace.len() implies 0 <= (#[trigger] trace[i]).timestamp
            - trace[i - 1].timestamp < FORWARD_GAP_NS by {}
    }
}

/// A rule with neither a system-call part nor a timestamp part never
/// triggers, whatever the trace.
pub proof fn lemma_empty_rule_never_triggers(rule: DetectionRuleView, trace: Seq<SyscallEvent>)
    requires
        rule.syscall is None,
        rule.timestamp is None,
    ensures
        rule_violation(rule, trace) is None,
{
}

/// The evaluation stops at the first rule that the trace violates: where
/// it reports the rule at position `index`, no rule before it is violated,
/// and where it reports none, no rule is violated.
pub proof fn lemma_first_violation(
    rules: Seq<DetectionRuleView>,
    trace: Seq<SyscallEvent>,
    from: int,
)
    requires
        0 <= from,
    ensures
        match first_violation_from(rules, trace, from) {
            Some((index, message)) => {
                &&& from <= index < rules.len()
                &&& rule_violation(rules[index], trace) == Some(message)
                &&& forall|j: int|
                    from <= j < index ==> rule_violation(#[trigger] rules[j], trace) is None
            },
            None => forall|j: int|
                from <= j < rules.len() ==> rule_violation(#[trigger] rules[j], trace) is None,
        },
    decreases rules.len() - from,
{
    if from < rules.len() && rule_violation(rules[from], trace) is None {
        lemma_first_violation(rules, trace, from + 1);
    }
}

/// The same rules and the same captured events give the same verdict,
/// however often the analysis is run: the verdict depends on nothing else.
pub proof fn lemma_same_input_same_verdict(first: Analyzer, second: Analyzer)
    requires
        rule_views(first.rules()) == rule_views(second.rules()),
        first.events() == second.events(),
    ensures
        analysis(rule_views(first.rules()), first.events()) == analysis(
            rule_views(second.rules()),
            second.events(),
        ),
{
}

/// Keeps the events of the monitored process, in capture order.
pub fn filter_target(events: &Vec<SyscallEvent>) -> (kept: Vec<SyscallEvent>)
    ensures
        kept@ == target_events(events@),
{
    let mut kept: Vec<SyscallEvent> = Vec::new();
    let mut i: usize = 0;
    proof {
        reveal(Seq::filter);
        assert(events@.take(0) =~= Seq::<SyscallEvent>::empty());
    }
    while i < events.len()
        invariant
            i <= events.len(),
            kept@ == events@.take(i as int).filter(target_pred()),
        decreases events.len() - i,
    {
        proof {
            reveal(Seq::filter);
            assert(events@.take(i + 1).drop_last() =~= events@.take(i as int));
        }
        if events[i].is_target() {
            kept.push(events[i]);
        }
        i = i + 1;
    }
    assert(events@.take(i as int) =~= events@);
    kept
}

/// Whether some event of `trace` is a call of `number`.
pub fn contains_call(trace: &Vec<SyscallEvent>, number: usize) -> (found: bool)
    ensures
        found == occurs(trace@, number),
{
    let mut i: usize = 0;
    while i < trace.len()
        invariant
            i <= trace.len(),
            forall|j: int| 0 <= j < i ==> (#[trigger] trace@[j]).nr != number,
        decreases trace.len() - i,
    {
        if trace[i].nr as usize == number {
            return true;
        }
        i = i + 1;
    }
    false
}

/// Counts the calls of `number` in the whole of `trace`.
pub fn count_calls(trace: &Vec<SyscallEvent>, number: usize) -> (count: usize)
    ensures
        count == occurrences(trace@, number),
{
    let mut count: usize = 0;
    let mut i: usize = 0;
    assert(trace@.take(0) =~= Seq::<SyscallEvent>::empty());
    while i < trace.len()
        invariant
            i <= trace.len(),
            count <= i,
            count == occurrences(trace@.take(i as int), number),
        decreases trace.len() - i,
    {
        assert(trace@.take(i + 1).drop_last() =~= trace@.take(i as int));
        if trace[i].nr as usize == number {
            count = count + 1;
        }
        i = i + 1;
    }
    assert(trace@.take(i as int) =~= trace@);
    count
}

/// Whether `trace` holds `threshold` calls of `number` in an unbroken row.
/// Any other call in between starts the count anew.
pub fn contains_run(trace: &Vec<SyscallEvent>, number: usize, threshold: usize) -> (found: bool)
    ensures
        found == has_run(trace@, number, threshold as nat),
{
    if threshold == 0 {
        assert(run_at(trace@, number, 0, 0));
        return true;
    }
    let mut run: usize = 0;
    let mut i: usize = 0;
    while i < trace.len()
        invariant
            i <= trace.len(),
            run <= i,
            run < threshold,
            run_at(trace@, number, i - run, run as nat),
            i - run > 0 ==> trace@[i - run - 1].nr != number,
            forall|start: int|
                0 <= start && start + threshold <= i ==> !#[trigger] run_at(
                    trace@,
                    number,
                    start,
                    threshold as nat,
                ),
        decreases trace.len() - i,
    {
        if trace[i].nr as usize == number {
            run = run + 1;
            if run >= threshold {
                assert(run_at(trace@, number, i + 1 - run, threshold as nat));
                return true;
            }
        } else {
            run = 0;
        }
        proof {
            let last = i + 1 - threshold;
            if last >= 0 {
                if trace@[i as int].nr == number {
                    let broken = i - run;
                    assert(trace@[broken].nr != number);
                    assert(last <= broken < last + threshold);
                } else {
                    assert(last <= i < last + threshold);
                }
                assert(!run_at(trace@, number, last, threshold as nat));
            }
        }
        i = i + 1;
    }
    false
}

/// The first blacklisted number, in listed order, that `trace` holds a call
/// of.
pub fn check_blacklist(numbers: &Vec<usize>, trace: &Vec<SyscallEvent>) -> (hit: Option<usize>)
    ensures
        hit == first_blacklisted_from(numbers@, trace@, 0),
{
    let mut k: usize = 0;
    while k < numbers.len()
        invariant
            k <= numbers.len(),
            first_blacklisted_from(numbers@, trace@, 0) == first_blacklisted_from(
                numbers@,
                trace@,
                k as int,
            ),
        decreases numbers.len() - k,
    {
        if contains_call(trace, numbers[k]) {
            return Some(numbers[k]);
        }
        k = k + 1;
    }
    None
}

/// The number of the first entry, in listed order, that `trace` holds at
/// least `threshold_count` calls of.
pub fn check_frequent(entries: &Vec<SyscallFrequent>, trace: &Vec<SyscallEvent>) -> (hit: Option<
    usize,
>)
    ensures
        hit == first_frequent_from(entries@, trace@, 0),
{
    let mut k: usize = 0;
    while k < entries.len()
        invariant
            k <= entries.len(),
            first_frequent_from(entries@, trace@, 0) == first_frequent_from(
                entries@,
                trace@,
                k as int,
            ),
        decreases entries.len() - k,
    {
        if entries[k].threshold_count <= count_calls(trace, entries[k].number) {
            return Some(entries[k].number);
        }
        k = k + 1;
    }
    None
}

/// The number of the first entry, in listed order, that `trace` holds
/// `threshold_count` calls of in an unbroken row.
pub fn check_consecutive(entries: &Vec<SyscallConsecutive>, trace: &Vec<SyscallEvent>) -> (hit:
    Option<usize>)
    ensures
        hit == first_consecutive_from(entries@, trace@, 0),
{
    let mut k: usize = 0;
    while k < entries.len()
        invariant
            k <= entries.len(),
            first_consecutive_from(entries@, trace@, 0) == first_consecutive_from(
                entries@,
                trace@,
                k as int,
            ),
        decreases entries.len() - k,
    {
        if contains_run(trace, entries[k].number, entries[k].threshold_count) {
            return Some(entries[k].number);
        }
        k = k + 1;
    }
    None
}

/// The two timestamps at which time jumps in `trace`, earlier event first.
/// The whole trace is searched for a step backward before it is searched for
/// a gap forward.
pub fn check_time_travel(trace: &Vec<SyscallEvent>) -> (hit: Option<(u64, u64)>)
    ensures
        hit == time_travel(trace@),
{
    let mut i: usize = 1;
    while i < trace.len()
        invariant
            1 <= i,
            first_regression_from(trace@, 1) == first_regression_from(trace@, i as int),
        decreases trace.len() - i,
    {
        if trace[i].timestamp < trace[i - 1].timestamp {
            return Some((trace[i - 1].timestamp, trace[i].timestamp));
        }
        i = i + 1;
    }
    let mut i: usize = 1;
    while i < trace.len()
        invariant
            1 <= i,
            first_regression_from(trace@, 1) is None,
            first_gap_from(trace@, 1) == first_gap_from(trace@, i as int),
        decreases trace.len() - i,
    {
        let prev = trace[i - 1].timestamp;
        let next = trace[i].timestamp;
        if next >= prev && next - prev >= FORWARD_GAP_NS {
            return Some((prev, next));
        }
        i = i + 1;
    }
    None
}

/// Holds `trace` against the system-call policies of a rule.
pub fn check_syscall(policy: &Syscall, trace: &Vec<SyscallEvent>) -> (message: Option<String>)
    ensures
        match message {
            Some(text) => syscall_violation(policy@, trace@) == Some(text@),
            None => syscall_violation(policy@, trace@) is None,
        },
{
    if let Some(number) = check_blacklist(&policy.blacklist_numbers, trace) {
        let mut text = String::from_str("Blacklisted syscall detected: ");
        push_decimal(&mut text, number as u64);
        return Some(text);
    }
    if let Some(number) = check_frequent(&policy.frequent, trace) {
        let mut text = String::from_str("Frequent syscall detected: ");
        push_decimal(&mut text, number as u64);
        return Some(text);
    }
    if let Some(number) = check_consecutive(&policy.consecutive, trace) {
        let mut text = String::from_str("Consecutive syscall detected: ");
        push_decimal(&mut text, number as u64);
        return Some(text);
    }
    None
}

/// Holds `trace` against the timestamp policy of a rule.
pub fn check_timestamp(policy: &Timestamp, trace: &Vec<SyscallEvent>) -> (message: Option<String>)
    ensures
        match message {
            Some(text) => timestamp_violation(*policy, trace@) == Some(text@),
            None => timestamp_violation(*policy, trace@) is None,
        },
{
    if !policy.check_timetravel {
        return None;
    }
    match check_time_travel(trace) {
        Some((prev, next)) => {
            let mut text = String::from_str("Timetravel detected: prev: ");
            push_decimal(&mut text, prev);
            text.append(" > next: ");
            push_decimal(&mut text, next);
            Some(text)
        },
        None => None,
    }
}

/// Holds `trace` against one rule: the message of the first of its policies
/// that the trace violates.
pub fn check_rule(rule: &DetectionRule, trace: &Vec<SyscallEvent>) -> (message: Option<String>)
    ensures
        match message {
            Some(text) => rule_violation(rule@, trace@) == Some(text@),
            None => rule_violation(rule@, trace@) is None,
        },
{
    if let Some(policy) = &rule.syscall {
        if let Some(text) = check_syscall(policy, trace) {
            return Some(text);
        }
    }
    if let Some(policy) = &rule.timestamp {
        return check_timestamp(policy, trace);
    }
    None
}

/// The verdict of an analysis: the violated rule with a message, or no rule
/// and an empty message.
#[derive(Debug)]
pub struct AnalyzeResult {
    pub violated_detection_rule: Option<DetectionRule>,
    pub message: String,
}

pub struct AnalyzeResultView {
    pub violated_detection_rule: Option<DetectionRuleView>,
    pub message: Seq<char>,
}

impl View for AnalyzeResult {
    type V = AnalyzeResultView;

    open spec fn view(&self) -> AnalyzeResultView {
        AnalyzeResultView {
            violated_detection_rule: match self.violated_detection_rule {
                Some(rule) => Some(rule@),
                None => None,
            },
            message: self.message@,
        }
    }
}

/// A captured trace together with the rules it is to be held against.
pub struct Analyzer {
    sandbox_result: SandboxResult,
    detection_rules: Vec<DetectionRule>,
}

impl Analyzer {
    /// The rules, in store order.
    pub closed spec fn rules(&self) -> Seq<DetectionRule> {
        self.detection_rules@
    }

    /// The captured events, in capture order.
    pub closed spec fn events(&self) -> Seq<SyscallEvent> {
        self.sandbox_result.syscall_events@
    }

    /// Takes the trace of a run and the entries of the rule directory. The
    /// rules keep the order of the entries.
    ///
    /// Fails if an entry defines no rule, naming the first such entry, or
    /// if there is no entry.
    pub fn new(sandbox_result: SandboxResult, rule_files: &Vec<RuleFile>) -> (res: Result<
        Analyzer,
        RuleLoadError,
    >)
        ensures
            match res {
                Ok(analyzer) => {
                    &&& first_malformed_from(rule_files@, 0) is None
                    &&& rule_files@.len() > 0
                    &&& analyzer.events() == sandbox_result.syscall_events@
                    &&& rule_views(analyzer.rules()) == defined_rules(rule_files@)
                },
                Err(RuleLoadError::RuleParseError { file }) => {
                    &&& first_malformed_from(rule_files@, 0) matches Some(k)
                    &&& file@ == rule_files@[k].name@
                },
                Err(RuleLoadError::NoRulesFound) => rule_files@.len() == 0,
            },
    {
        match load_rules(rule_files) {
            Ok(detection_rules) => Ok(Analyzer { sandbox_result, detection_rules }),
            Err(e) => Err(e),
        }
    }

    /// Evaluates the trace against every rule in store order and stops at
    /// the first violation.
    pub fn analyze(&self) -> (res: AnalyzeResult)
        ensures
            res@ == analysis(rule_views(self.rules()), self.events()),
    {
        let filtered = filter_target(&self.sandbox_result.syscall_events);
        let ghost views = rule_views(self.detection_rules@);
        let mut i: usize = 0;
        while i < self.detection_rules.len()
            invariant
                i <= self.detection_rules.len(),
                views == rule_views(self.detection_rules@),
                filtered@ == target_events(self.sandbox_result.syscall_events@),
                first_violation_from(views, filtered@, 0) == first_violation_from(
                    views,
                    filtered@,
                    i as int,
                ),
            decreases self.detection_rules.len() - i,
        {
            let rule = &self.detection_rules[i];
            assert(views[i as int] == rule@);
            if let Some(message) = check_rule(rule, &filtered) {
                return AnalyzeResult { violated_detection_rule: Some(rule.clone()), message };
            }
            i = i + 1;
        }
        AnalyzeResult { violated_detection_rule: None, message: String::new() }
    }
}

} // verus!
