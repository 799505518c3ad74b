use yaminabe::analyzer::Analyzer;
use yaminabe::detection_rule::{load_rules, DetectionRule, Meta, RuleFile, RuleLoadError, Timestamp};
use yaminabe::sandbox::{ExitOutcome, SandboxResult};

fn rule(name: &str) -> DetectionRule {
    DetectionRule {
        meta: Meta { name: name.to_string(), desc: String::new() },
        syscall: None,
        timestamp: Some(Timestamp { check_timetravel: true }),
    }
}

fn parsed(file: &str, name: &str) -> RuleFile {
    RuleFile { name: file.to_string(), rule: Some(rule(name)) }
}

fn malformed(file: &str) -> RuleFile {
    RuleFile { name: file.to_string(), rule: None }
}

fn no_events() -> SandboxResult {
    SandboxResult { syscall_events: Vec::new(), exit: ExitOutcome::Success }
}

#[test]
fn empty_directory_gives_no_rules_found() {
    assert!(matches!(load_rules(&Vec::new()), Err(RuleLoadError::NoRulesFound)));
    assert!(matches!(Analyzer::new(no_events(), &Vec::new()), Err(RuleLoadError::NoRulesFound)));
}

#[test]
fn one_malformed_file_fails_the_whole_load() {
    let files = vec![parsed("a.toml", "a"), malformed("b.toml"), parsed("c.toml", "c")];
    match load_rules(&files) {
        Err(RuleLoadError::RuleParseError { file }) => assert_eq!(file, "b.toml"),
        other => panic!("unexpected: {:?}", other),
    }
    match Analyzer::new(no_events(), &files) {
        Err(RuleLoadError::RuleParseError { file }) => assert_eq!(file, "b.toml"),
        Err(other) => panic!("unexpected: {:?}", other),
        Ok(_) => panic!("the load must fail"),
    }
}

#[test]
fn first_malformed_file_is_named() {
    let files = vec![malformed("x.toml"), parsed("a.toml", "a"), malformed("y.toml")];
    match load_rules(&files) {
        Err(RuleLoadError::RuleParseError { file }) => assert_eq!(file, "x.toml"),
        other => panic!("unexpected: {:?}", other),
    }
}

#[test]
fn only_malformed_files_give_a_parse_error() {
    match load_rules(&vec![malformed("only.toml")]) {
        Err(RuleLoadError::RuleParseError { file }) => assert_eq!(file, "only.toml"),
        other => panic!("unexpected: {:?}", other),
    }
}

#[test]
fn rules_keep_enumeration_order() {
    let files = vec![parsed("2.toml", "two"), parsed("1.toml", "one"), parsed("3.toml", "three")];
    let rules = load_rules(&files).expect("all files are rules");
    let names: Vec<&str> = rules.iter().map(|r| r.meta.name.as_str()).collect();
    assert_eq!(names, vec!["two", "one", "three"]);
}

#[test]
fn single_rule_loads() {
    let rules = load_rules(&vec![parsed("1.toml", "one")]).expect("the file is a rule");
    assert_eq!(rules.len(), 1);
    assert_eq!(rules[0].meta.name, "one");
    assert!(Analyzer::new(no_events(), &vec![parsed("1.toml", "one")]).is_ok());
}
