//! Detection rules: named policies that a trace is checked against.

use vstd::prelude::*;

verus! {

/// Identification of a rule, carried into the verdict.
#[derive(Debug)]
pub struct Meta {
    pub name: String,
    pub desc: String,
}

pub struct MetaView {
    pub name: Seq<char>,
    pub desc: Seq<char>,
}

impl View for Meta {
    type V = MetaView;

    open spec fn view(&self) -> MetaView {
        MetaView { name: self.name@, desc: self.desc@ }
    }
}

impl Clone for Meta {
    fn clone(&self) -> (res: Self)
        ensures
            res@ == self@,
    {
        Meta { name: self.name.clone(), desc: self.desc.clone() }
    }
}

/// Violated when `number` occurs at least `threshold_count` times in the
/// whole trace.
#[derive(Debug, Clone, Copy)]
pub struct SyscallFrequent {
    pub threshold_count: usize,
    pub number: usize,
}

/// Violated when `number` occurs at least `threshold_count` times in an
/// unbroken row.
#[derive(Debug, Clone, Copy)]
pub struct SyscallConsecutive {
    pub threshold_count: usize,
    pub number: usize,
}

/// The system-call policies of a rule.
#[derive(Debug)]
pub struct Syscall {
    pub blacklist_numbers: Vec<usize>,
    pub frequent: Vec<SyscallFrequent>,
    pub consecutive: Vec<SyscallConsecutive>,
}

pub struct SyscallView {
    pub blacklist_numbers: Seq<usize>,
    pub frequent: Seq<SyscallFrequent>,
    pub consecutive: Seq<SyscallConsecutive>,
}

impl View for Syscall {
    type V = SyscallView;

    open spec fn view(&self) -> SyscallView {
        SyscallView {
            blacklist_numbers: self.blacklist_numbers@,
            frequent: self.frequent@,
            consecutive: self.consecutive@,
        }
    }
}

impl Clone for Syscall {
    fn clone(&self) -> (res: Self)
        ensures
            res@ == self@,
    {
        let res = Syscall {
            blacklist_numbers: self.blacklist_numbers.clone(),
            frequent: self.frequent.clone(),
            consecutive: self.consecutive.clone(),
        };
        assert(res.blacklist_numbers@ =~= self.blacklist_numbers@);
        assert(res.frequent@ =~= self.frequent@);
        assert(res.consecutive@ =~= self.consecutive@);
        res
    }
}

/// The timestamp policies of a rule.
#[derive(Debug, Clone, Copy)]
pub struct Timestamp {
    pub check_timetravel: bool,
}

/// A named policy. A rule with neither a `syscall` nor a `timestamp` part
/// never triggers.
#[derive(Debug)]
pub struct DetectionRule {
    pub meta: Meta,
    pub syscall: Option<Syscall>,
    pub timestamp: Option<Timestamp>,
}

pub struct DetectionRuleView {
    pub meta: MetaView,
    pub syscall: Option<SyscallView>,
    pub timestamp: Option<Timestamp>,
}

impl View for DetectionRule {
    type V = DetectionRuleView;

    open spec fn view(&self) -> DetectionRuleView {
        DetectionRuleView {
            meta: self.meta@,
            syscall: match self.syscall {
                Some(s) => Some(s@),
                None => None,
            },
            timestamp: self.timestamp,
        }
    }
}

impl Clone for DetectionRule {
    fn clone(&self) -> (res: Self)
        ensures
            res@ == self@,
    {
        DetectionRule {
            meta: self.meta.clone(),
            syscall: match &self.syscall {
                Some(s) => Some(s.clone()),
                None => None,
            },
            timestamp: self.timestamp,
        }
    }
}

/// One entry of the rule directory, after an attempt to read it as a rule
/// definition.
#[derive(Debug)]
pub struct RuleFile {
    /// Name of the entry.
    pub name: String,
    /// The rule that the entry defines; none if it does not parse as one.
    pub rule: Option<DetectionRule>,
}

impl RuleFile {
    /// The rule that the entry defines, as a view.
    pub open spec fn rule_view(&self) -> Option<DetectionRuleView> {
        match self.rule {
            Some(rule) => Some(rule@),
            None => None,
        }
    }
}

/// The views of `rules`, in order.
pub open spec fn rule_views(rules: Seq<DetectionRule>) -> Seq<DetectionRuleView> {
    rules.map_values(|rule: DetectionRule| rule@)
}

/// The rules that the entries `files` define, in enumeration order. It is
/// meant for entries that define a rule each.
pub open spec fn defined_rules(files: Seq<RuleFile>) -> Seq<DetectionRuleView> {
    files.map_values(|file: RuleFile| file.rule_view().unwrap())
}

/// Why no rule set could be loaded.
#[derive(Debug)]
pub enum RuleLoadError {
    /// The entry `file` does not parse as a rule definition.
    RuleParseError { file: String },
    /// The directory holds no rule at all.
    NoRulesFound,
}

/// The position of the first entry, from `from` on, that defines no rule.
pub open spec fn first_malformed_from(files: Seq<RuleFile>, from: int) -> Option<int>
    decreases files.len() - from,
{
    if from < 0 || from >= files.len() {
        None
    } else if files[from].rule is None {
        Some(from)
    } else {
        first_malformed_from(files, from + 1)
    }
}

/// Every entry that defines no rule lies at or after the first one that
/// `first_malformed_from` finds; where it finds none, every entry defines a
/// rule.
pub proof fn lemma_first_malformed(files: Seq<RuleFile>, from: int)
    requires
        0 <= from,
    ensures
        match first_malformed_from(files, from) {
            Some(k) => {
                &&& from <= k < files.len()
                &&& files[k].rule is None
                &&& forall|j: int| from <= j < k ==> (#[trigger] files[j]).rule is Some
            },
            None => forall|j: int| from <= j < files.len() ==> (#[trigger] files[j]).rule is Some,
        },
    decreases files.len() - from,
{
    if from < files.len() && files[from].rule is Some {
        lemma_first_malformed(files, from + 1);
    }
}

/// The rule set of a directory with the entries `files`: the rules in
/// enumeration order. One entry that defines no rule fails the whole load,
/// and so does a directory without entries.
pub fn load_rules(files: &Vec<RuleFile>) -> (res: Result<Vec<DetectionRule>, RuleLoadError>)
    ensures
        match res {
            Ok(rules) => {
                &&& first_malformed_from(files@, 0) is None
                &&& files@.len() > 0
                &&& rule_views(rules@) == defined_rules(files@)
            },
            Err(RuleLoadError::RuleParseError { file }) => {
                &&& first_malformed_from(files@, 0) matches Some(k)
                &&& file@ == files@[k].name@
            },
            Err(RuleLoadError::NoRulesFound) => files@.len() == 0,
        },
{
    let mut rules: Vec<DetectionRule> = Vec::new();
    let mut i: usize = 0;
    while i < files.len()
        invariant
            i <= files.len(),
            rules@.len() == i,
            first_malformed_from(files@, 0) == first_malformed_from(files@, i as int),
            forall|j: int| 0 <= j < i ==> files@[j].rule_view() == Some((#[trigger] rules@[j])@),
        decreases files.len() - i,
    {
        match &files[i].rule {
            Some(rule) => {
                rules.push(rule.clone());
            },
            None => {
                return Err(RuleLoadError::RuleParseError { file: files[i].name.clone() });
            },
        }
        i = i + 1;
    }
    if rules.len() == 0 {
        return Err(RuleLoadError::NoRulesFound);
    }
    assert(rule_views(rules@) =~= defined_rules(files@));
    Ok(rules)
}

} // verus!
