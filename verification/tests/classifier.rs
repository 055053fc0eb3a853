use surveilr_ingest::rules::EncounterableResourceClass;
use surveilr_ingest::rules::EncounterableResourcePathClassifier;
use surveilr_ingest::rules::EncounterableResourcePathRules;
use surveilr_ingest::rules::EncounterableResourceUriClassifier;
use surveilr_ingest::rules::NatureRewriteRule;
use surveilr_ingest::regexes::CompiledRegex;

fn default_classifier() -> EncounterableResourcePathClassifier {
    EncounterableResourcePathClassifier::from_path_rules(
        &EncounterableResourcePathRules::default(),
    )
    .unwrap()
}

/// A rule set whose acquire list also covers `tap` and `text`
/// extensions, as the ingest configuration does.
fn tap_aware_rules() -> EncounterableResourcePathRules {
    let mut rules = EncounterableResourcePathRules::default();
    rules.acquire_content_for_paths_regexs =
        vec!["\\.(?P<nature>md|mdx|html|json|jsonc|tap|txt|text|toml|yaml)$".to_string()];
    rules
}

#[test]
fn default_rules_compile() {
    let classifier = default_classifier();
    assert_eq!(classifier.ignore_paths_regex_set.len(), 1);
    assert_eq!(classifier.acquire_content_for_paths_regex_set.len(), 1);
    assert_eq!(classifier.capturable_executables_paths_regexs.len(), 1);
    assert_eq!(classifier.captured_exec_sql_paths_regex_set.len(), 1);
    assert_eq!(classifier.rewrite_nature_regexs.len(), 1);
}

#[test]
fn bad_pattern_is_refused() {
    let mut rules = EncounterableResourcePathRules::default();
    rules.ignore_paths_regexs.push("(".to_string());
    let r = EncounterableResourcePathClassifier::from_path_rules(&rules);
    assert!(r.is_err());
    assert_eq!(r.err().unwrap().pattern, "(");
}

#[test]
fn ignore_short_circuit() {
    let classifier = default_classifier();
    let mut class = EncounterableResourceClass::empty();
    let matched = classifier.classify("src/.git/config", &mut class);
    assert!(matched);
    assert!(class.flags.ignore_resource);
    assert!(!class.flags.content_acquirable);
    assert!(!class.flags.capturable_executable);
    assert!(!class.flags.capturable_sql);
    assert!(class.nature.is_none());
}

#[test]
fn markdown_is_acquirable() {
    let classifier = default_classifier();
    let mut class = EncounterableResourceClass::empty();
    let matched = classifier.classify("README.md", &mut class);
    assert!(matched);
    assert!(class.flags.content_acquirable);
    assert!(!class.flags.ignore_resource);
    assert_eq!(class.nature.as_deref(), Some("md"));
}

#[test]
fn unmatched_uri_leaves_class_untouched() {
    let classifier = default_classifier();
    let mut class = EncounterableResourceClass::empty();
    let matched = classifier.classify("Makefile", &mut class);
    assert!(!matched);
    assert!(!class.flags.content_acquirable);
    assert!(!class.flags.ignore_resource);
    assert!(!class.flags.capturable_executable);
    assert!(!class.flags.capturable_sql);
    assert!(class.nature.is_none());
}

#[test]
fn tap_rewrite_is_logged() {
    let classifier =
        EncounterableResourcePathClassifier::from_path_rules(&tap_aware_rules()).unwrap();
    let mut class = EncounterableResourceClass::empty();
    let mut log: Vec<(String, String, String)> = Vec::new();
    let matched = classifier.classify_logged("foo.tap", &mut class, &mut log);
    assert!(matched);
    assert!(class.flags.content_acquirable);
    assert_eq!(class.nature.as_deref(), Some("text/plain"));
    assert_eq!(
        log,
        vec![("foo.tap".to_string(), "tap".to_string(), "text/plain".to_string())]
    );
}

#[test]
fn rewrite_without_match_keeps_nature() {
    let classifier =
        EncounterableResourcePathClassifier::from_path_rules(&tap_aware_rules()).unwrap();
    let mut class = EncounterableResourceClass::empty();
    let mut log: Vec<(String, String, String)> = Vec::new();
    let matched = classifier.classify_logged("notes.md", &mut class, &mut log);
    assert!(matched);
    assert_eq!(class.nature.as_deref(), Some("md"));
    assert!(log.is_empty());
}

#[test]
fn capturable_with_nature_capture() {
    let classifier = default_classifier();
    let mut class = EncounterableResourceClass::empty();
    let matched = classifier.classify("run.surveilr[json].sh", &mut class);
    assert!(matched);
    assert!(class.flags.capturable_executable);
    assert!(!class.flags.capturable_sql);
    assert!(!class.flags.content_acquirable);
    assert_eq!(class.nature.as_deref(), Some("json"));
}

#[test]
fn batch_sql_sets_both_flags() {
    let classifier = default_classifier();
    let mut class = EncounterableResourceClass::empty();
    let matched = classifier.classify("report.surveilr-SQL.sh", &mut class);
    assert!(matched);
    assert!(class.flags.capturable_executable);
    assert!(class.flags.capturable_sql);
    assert!(!class.flags.content_acquirable);
    assert!(class.nature.is_none());
}

#[test]
fn ignore_wins_over_acquire() {
    let classifier = default_classifier();
    let mut class = EncounterableResourceClass::empty();
    let matched = classifier.classify("repo/.git/README.md", &mut class);
    assert!(matched);
    assert!(class.flags.ignore_resource);
    assert!(!class.flags.content_acquirable);
    assert!(class.nature.is_none());
}

#[test]
fn add_ignore_exact_is_anchored() {
    let mut rules = EncounterableResourcePathRules::default();
    rules.add_ignore_exact("exact.file");
    let classifier = EncounterableResourcePathClassifier::from_path_rules(&rules).unwrap();
    let mut class = EncounterableResourceClass::empty();
    assert!(classifier.classify("exact.file", &mut class));
    assert!(class.flags.ignore_resource);
    let mut other = EncounterableResourceClass::empty();
    // the pattern is anchored and escaped: neither a longer name nor a
    // regex-metacharacter reading may match
    assert!(!classifier.classify("prefix-exact.file", &mut other));
    assert!(!other.flags.ignore_resource);
    let mut dotted = EncounterableResourceClass::empty();
    assert!(!classifier.classify("exactXfile", &mut dotted));
    assert!(!dotted.flags.ignore_resource);
}

#[test]
fn rewrite_rule_is_match_reports_replacement() {
    let rule = NatureRewriteRule {
        regex: CompiledRegex::new("\\.(?P<nature>tap|text)$").unwrap(),
        nature: "text/plain".to_string(),
    };
    assert_eq!(rule.is_match("x.tap"), Some("text/plain".to_string()));
    assert_eq!(rule.is_match("x.md"), None);
}
