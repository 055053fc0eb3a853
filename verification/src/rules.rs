//! Path rules and the URI classifier.
//!
//! A rule set holds five ordered regex pattern lists: ignore patterns,
//! content-acquire patterns (each exposing a capture group named
//! `nature`), capturable-executable patterns (same group), batch-SQL
//! patterns, and nature-rewrite rules (a pattern together with the
//! replacement nature). The classifier compiles the lists and evaluates
//! them in that exact order; the first family that matches writes its
//! flags and short-circuits.

use vstd::prelude::*;

use crate::flags::EncounterableResourceFlags;
use crate::regexes::re_compiles;
use crate::regexes::re_is_match;
use crate::regexes::re_nature_capture;
use crate::regexes::CompiledRegex;

verus! {

/// A nature-rewrite rule: when `regex` matches a URI, the nature becomes
/// the rule's `nature` replacement.
pub struct NatureRewriteRule {
    pub regex: CompiledRegex,
    pub nature: String,
}

impl DeepView for NatureRewriteRule {
    type V = (Seq<char>, Seq<char>);

    open spec fn deep_view(&self) -> (Seq<char>, Seq<char>) {
        (self.regex@, self.nature@)
    }
}

impl NatureRewriteRule {
    /// The replacement nature when this rule's regex matches `text`,
    /// nothing otherwise.
    pub fn is_match(&self, text: &str) -> (r: Option<String>)
        ensures
            r matches Some(s) ==> re_is_match(self.regex@, text@) && s@ == self.nature@,
            r is None ==> !re_is_match(self.regex@, text@),
    {
        if self.regex.is_match(text) {
            Some(self.nature.clone())
        } else {
            None
        }
    }
}

/// The configured rule set: five ordered lists of regex pattern texts.
pub struct EncounterableResourcePathRules {
    pub ignore_paths_regexs: Vec<String>,
    pub acquire_content_for_paths_regexs: Vec<String>,
    pub capturable_executables_paths_regexs: Vec<String>,
    pub captured_exec_sql_paths_regexs: Vec<String>,
    /// Each entry is a pattern together with the replacement nature.
    pub rewrite_nature_regexs: Vec<(String, String)>,
}

pub open spec fn default_ignore_patterns() -> Seq<Seq<char>> {
    seq!["/(\\.git|node_modules)/"@]
}

pub open spec fn default_acquire_patterns() -> Seq<Seq<char>> {
    seq!["\\.(?P<nature>md|mdx|html|json|jsonc|txt|toml|yaml)$"@]
}

pub open spec fn default_capturable_patterns() -> Seq<Seq<char>> {
    seq!["surveilr\\[(?P<nature>[^\\]]*)\\]"@]
}

pub open spec fn default_batch_sql_patterns() -> Seq<Seq<char>> {
    seq!["surveilr-SQL"@]
}

pub open spec fn default_rewrite_rules() -> Seq<(Seq<char>, Seq<char>)> {
    seq![("\\.(?P<nature>tap|text)$"@, "text/plain"@)]
}

impl EncounterableResourcePathRules {
    /// The rule set as ordered lists of pattern texts.
    pub open spec fn spec_rules(&self) -> RuleSetView {
        RuleSetView {
            ignore: self.ignore_paths_regexs.deep_view(),
            acquire: self.acquire_content_for_paths_regexs.deep_view(),
            capturable: self.capturable_executables_paths_regexs.deep_view(),
            batch_sql: self.captured_exec_sql_paths_regexs.deep_view(),
            rewrites: self.rewrite_nature_regexs.deep_view(),
        }
    }

    /// Appends an ignore rule matching exactly `pattern` (every regex
    /// metacharacter escaped, anchored at both ends). Whether the
    /// appended pattern compiles is decided, like any other, when the
    /// rule set is compiled.
    pub fn add_ignore_exact(&mut self, pattern: &str)
        ensures
            final(self).ignore_paths_regexs.deep_view() == old(
                self,
            ).ignore_paths_regexs.deep_view().push(
                seq!['^'] + crate::regexes::re_escape(pattern@) + seq!['$'],
            ),
            final(self).acquire_content_for_paths_regexs == old(
                self,
            ).acquire_content_for_paths_regexs,
            final(self).capturable_executables_paths_regexs == old(
                self,
            ).capturable_executables_paths_regexs,
            final(self).captured_exec_sql_paths_regexs == old(self).captured_exec_sql_paths_regexs,
            final(self).rewrite_nature_regexs == old(self).rewrite_nature_regexs,
    {
        let escaped = crate::regexes::exact_match_pattern(pattern);
        self.ignore_paths_regexs.push(escaped);
        proof {
            assert(final(self).ignore_paths_regexs.deep_view() =~= old(
                self,
            ).ignore_paths_regexs.deep_view().push(
                seq!['^'] + crate::regexes::re_escape(pattern@) + seq!['$'],
            ));
        }
    }
}

impl Default for EncounterableResourcePathRules {
    /// The default rule set: ignore `.git` and `node_modules` directories,
    /// acquire common text formats, treat `surveilr[...]` names as
    /// capturable executables, `surveilr-SQL` names as batch SQL, and
    /// rewrite `.tap`/`.text` natures to `text/plain`.
    fn default() -> (r: Self)
        ensures
            r.spec_rules().ignore == default_ignore_patterns(),
            r.spec_rules().acquire == default_acquire_patterns(),
            r.spec_rules().capturable == default_capturable_patterns(),
            r.spec_rules().batch_sql == default_batch_sql_patterns(),
            r.spec_rules().rewrites == default_rewrite_rules(),
    {
        let mut ignore: Vec<String> = Vec::new();
        ignore.push("/(\\.git|node_modules)/".to_owned());
        let mut acquire: Vec<String> = Vec::new();
        acquire.push("\\.(?P<nature>md|mdx|html|json|jsonc|txt|toml|yaml)$".to_owned());
        let mut capturable: Vec<String> = Vec::new();
        capturable.push("surveilr\\[(?P<nature>[^\\]]*)\\]".to_owned());
        let mut batch_sql: Vec<String> = Vec::new();
        batch_sql.push("surveilr-SQL".to_owned());
        let mut rewrites: Vec<(String, String)> = Vec::new();
        rewrites.push(("\\.(?P<nature>tap|text)$".to_owned(), "text/plain".to_owned()));
        let r = EncounterableResourcePathRules {
            ignore_paths_regexs: ignore,
            acquire_content_for_paths_regexs: acquire,
            capturable_executables_paths_regexs: capturable,
            captured_exec_sql_paths_regexs: batch_sql,
            rewrite_nature_regexs: rewrites,
        };
        proof {
            assert(r.spec_rules().ignore =~= default_ignore_patterns());
            assert(r.spec_rules().acquire =~= default_acquire_patterns());
            assert(r.spec_rules().capturable =~= default_capturable_patterns());
            assert(r.spec_rules().batch_sql =~= default_batch_sql_patterns());
            assert(r.spec_rules().rewrites =~= default_rewrite_rules());
        }
        r
    }
}

/// The mathematical content of a rule set or a compiled classifier: the
/// five ordered pattern lists.
pub struct RuleSetView {
    pub ignore: Seq<Seq<char>>,
    pub acquire: Seq<Seq<char>>,
    pub capturable: Seq<Seq<char>>,
    pub batch_sql: Seq<Seq<char>>,
    pub rewrites: Seq<(Seq<char>, Seq<char>)>,
}

impl RuleSetView {
    /// Every pattern of the rule set is a valid regex.
    pub open spec fn all_compile(self) -> bool {
        &&& forall|i: int| 0 <= i < self.ignore.len() ==> re_compiles(#[trigger] self.ignore[i])
        &&& forall|i: int| 0 <= i < self.acquire.len() ==> re_compiles(#[trigger] self.acquire[i])
        &&& forall|i: int|
            0 <= i < self.capturable.len() ==> re_compiles(#[trigger] self.capturable[i])
        &&& forall|i: int|
            0 <= i < self.batch_sql.len() ==> re_compiles(#[trigger] self.batch_sql[i])
        &&& forall|i: int| 0 <= i < self.rewrites.len() ==> re_compiles(#[trigger] self.rewrites[i].0)
    }

    /// `pattern` occurs in one of the five lists.
    pub open spec fn mentions(self, pattern: Seq<char>) -> bool {
        ||| self.ignore.contains(pattern)
        ||| self.acquire.contains(pattern)
        ||| self.capturable.contains(pattern)
        ||| self.batch_sql.contains(pattern)
        ||| exists|i: int| 0 <= i < self.rewrites.len() && (#[trigger] self.rewrites[i]).0 == pattern
    }
}

/// The error of classifier construction: a pattern that the regex engine
/// refused.
#[derive(Debug)]
pub struct RegexCompileError {
    pub pattern: String,
}

/// A classification result: the flags a rule family wrote and the nature
/// chosen by a capture group (possibly rewritten).
pub struct EncounterableResourceClass {
    pub flags: EncounterableResourceFlags,
    pub nature: Option<String>,
}

/// The mathematical content of a classification result.
pub struct ClassView {
    pub flags: EncounterableResourceFlags,
    pub nature: Option<Seq<char>>,
}

impl View for EncounterableResourceClass {
    type V = ClassView;

    open spec fn view(&self) -> ClassView {
        ClassView { flags: self.flags, nature: self.nature.deep_view() }
    }
}

impl EncounterableResourceClass {
    /// An empty class: no flags, no nature.
    pub fn empty() -> (r: Self)
        ensures
            r@.flags.spec_is_empty(),
            r@.nature is None,
    {
        EncounterableResourceClass {
            flags: EncounterableResourceFlags::empty(),
            nature: None,
        }
    }

    /// A copy with the same flags and nature.
    pub fn duplicate(&self) -> (r: Self)
        ensures
            r@ == self@,
    {
        let nature = match &self.nature {
            Some(n) => Some(n.clone()),
            None => None,
        };
        EncounterableResourceClass { flags: self.flags, nature }
    }
}

impl Clone for EncounterableResourceClass {
    fn clone(&self) -> (r: Self)
        ensures
            r@ == self@,
    {
        self.duplicate()
    }
}

/// A URI classifier: assigns flags and a nature to a URI, in place.
pub trait EncounterableResourceUriClassifier {
    /// Classifies `uri` into `class`; true when some rule family matched.
    fn classify(&self, uri: &str, class: &mut EncounterableResourceClass) -> bool;
}

/// The compiled classifier: the five rule lists of
/// `EncounterableResourcePathRules`, compiled.
pub struct EncounterableResourcePathClassifier {
    pub ignore_paths_regex_set: Vec<CompiledRegex>,
    pub acquire_content_for_paths_regex_set: Vec<CompiledRegex>,
    pub capturable_executables_paths_regexs: Vec<CompiledRegex>,
    pub captured_exec_sql_paths_regex_set: Vec<CompiledRegex>,
    pub rewrite_nature_regexs: Vec<NatureRewriteRule>,
}

impl View for EncounterableResourcePathClassifier {
    type V = RuleSetView;

    open spec fn view(&self) -> RuleSetView {
        RuleSetView {
            ignore: self.ignore_paths_regex_set.deep_view(),
            acquire: self.acquire_content_for_paths_regex_set.deep_view(),
            capturable: self.capturable_executables_paths_regexs.deep_view(),
            batch_sql: self.captured_exec_sql_paths_regex_set.deep_view(),
            rewrites: self.rewrite_nature_regexs.deep_view(),
        }
    }
}

/// Compiles every pattern of `patterns`, in order.
fn compile_all(patterns: &Vec<String>) -> (r: Result<Vec<CompiledRegex>, RegexCompileError>)
    ensures
        r matches Ok(v) ==> v.deep_view() == patterns.deep_view() && (forall|i: int|
            0 <= i < patterns.deep_view().len() ==> re_compiles(#[trigger] patterns.deep_view()[i])),
        r matches Err(e) ==> patterns.deep_view().contains(e.pattern@) && !re_compiles(e.pattern@),
{
    let mut out: Vec<CompiledRegex> = Vec::new();
    let mut i: usize = 0;
    while i < patterns.len()
        invariant
            0 <= i <= patterns.len(),
            out.deep_view() == patterns.deep_view().take(i as int),
            forall|j: int| 0 <= j < i ==> re_compiles(#[trigger] patterns.deep_view()[j]),
        decreases patterns.len() - i,
    {
        match CompiledRegex::new(patterns[i].as_str()) {
            Ok(c) => {
                let ghost pre = out.deep_view();
                let ghost cv = c.deep_view();
                out.push(c);
                proof {
                    let dv = out.deep_view();
                    let tv = patterns.deep_view();
                    assert(pre == tv.take(i as int));
                    assert(tv.len() == patterns@.len());
                    assert(i < patterns@.len());
                    assert(pre.len() == i as int);
                    assert(dv.len() == pre.len() + 1);
                    assert(dv.len() == i + 1);
                    assert forall|j: int| 0 <= j < i implies dv[j] == tv[j] by {
                        assert(dv[j] == pre[j]);
                        assert(pre[j] == tv.take(i as int)[j]);
                    }
                    assert(dv[i as int] == cv);
                    assert(cv == tv[i as int]);
                    assert(dv =~~= tv.take(i as int + 1));
                }
            },
            Err(_) => {
                let pattern = patterns[i].clone();
                proof {
                    assert(patterns.deep_view()[i as int] == pattern@);
                }
                return Err(RegexCompileError { pattern });
            },
        }
        i = i + 1;
    }
    proof {
        assert(out.deep_view() =~~= patterns.deep_view());
    }
    Ok(out)
}

/// Compiles every rewrite rule of `rules`, in order.
fn compile_rewrites(rules: &Vec<(String, String)>) -> (r: Result<
    Vec<NatureRewriteRule>,
    RegexCompileError,
>)
    ensures
        r matches Ok(v) ==> v.deep_view() == rules.deep_view() && (forall|i: int|
            0 <= i < rules.deep_view().len() ==> re_compiles(#[trigger] rules.deep_view()[i].0)),
        r matches Err(e) ==> (exists|i: int|
            0 <= i < rules.deep_view().len() && (#[trigger] rules.deep_view()[i]).0 == e.pattern@)
            && !re_compiles(e.pattern@),
{
    let mut out: Vec<NatureRewriteRule> = Vec::new();
    let mut i: usize = 0;
    while i < rules.len()
        invariant
            0 <= i <= rules.len(),
            out.deep_view() == rules.deep_view().take(i as int),
            forall|j: int| 0 <= j < i ==> re_compiles(#[trigger] rules.deep_view()[j].0),
        decreases rules.len() - i,
    {
        match CompiledRegex::new(rules[i].0.as_str()) {
            Ok(c) => {
                let nature = rules[i].1.clone();
                let rule = NatureRewriteRule { regex: c, nature };
                let ghost pre = out.deep_view();
                let ghost rulev = rule.deep_view();
                out.push(rule);
                proof {
                    let dv = out.deep_view();
                    let tv = rules.deep_view();
                    assert(pre == tv.take(i as int));
                    assert(tv.len() == rules@.len());
                    assert(i < rules@.len());
                    assert(pre.len() == i as int);
                    assert(dv.len() == pre.len() + 1);
                    assert(dv.len() == i + 1);
                    assert forall|j: int| 0 <= j < i implies dv[j] == tv[j] by {
                        assert(dv[j] == pre[j]);
                        assert(pre[j] == tv.take(i as int)[j]);
                    }
                    assert(dv[i as int] == rulev);
                    assert(rulev == tv[i as int]);
                    assert(dv =~~= tv.take(i as int + 1));
                }
            },
            Err(_) => {
                let pattern = rules[i].0.clone();
                proof {
                    assert((rules.deep_view()[i as int]).0 == pattern@);
                }
                return Err(RegexCompileError { pattern });
            },
        }
        i = i + 1;
    }
    proof {
        assert(out.deep_view() =~~= rules.deep_view());
    }
    Ok(out)
}

impl EncounterableResourcePathClassifier {
    /// Compiles a rule set into a classifier. Succeeds exactly when every
    /// pattern of the rule set is a valid regex; the classifier then holds
    /// exactly the rule set's lists, in order.
    pub fn from_path_rules(erpr: &EncounterableResourcePathRules) -> (r: Result<
        Self,
        RegexCompileError,
    >)
        ensures
            r is Ok <==> erpr.spec_rules().all_compile(),
            r matches Ok(c) ==> c@ == erpr.spec_rules(),
            r matches Err(e) ==> erpr.spec_rules().mentions(e.pattern@) && !re_compiles(e.pattern@),
    {
        let ghost rv = erpr.spec_rules();
        let ignore = match compile_all(&erpr.ignore_paths_regexs) {
            Ok(v) => v,
            Err(e) => {
                proof {
                    let i = choose|i: int| 0 <= i < rv.ignore.len() && rv.ignore[i] == e.pattern@;
                    assert(!re_compiles(rv.ignore[i]));
                }
                return Err(e);
            },
        };
        let acquire = match compile_all(&erpr.acquire_content_for_paths_regexs) {
            Ok(v) => v,
            Err(e) => {
                proof {
                    let i = choose|i: int| 0 <= i < rv.acquire.len() && rv.acquire[i] == e.pattern@;
                    assert(!re_compiles(rv.acquire[i]));
                }
                return Err(e);
            },
        };
        let capturable = match compile_all(&erpr.capturable_executables_paths_regexs) {
            Ok(v) => v,
            Err(e) => {
                proof {
                    let i = choose|i: int|
                        0 <= i < rv.capturable.len() && rv.capturable[i] == e.pattern@;
                    assert(!re_compiles(rv.capturable[i]));
                }
                return Err(e);
            },
        };
        let batch_sql = match compile_all(&erpr.captured_exec_sql_paths_regexs) {
            Ok(v) => v,
            Err(e) => {
                proof {
                    let i = choose|i: int|
                        0 <= i < rv.batch_sql.len() && rv.batch_sql[i] == e.pattern@;
                    assert(!re_compiles(rv.batch_sql[i]));
                }
                return Err(e);
            },
        };
        let rewrites = match compile_rewrites(&erpr.rewrite_nature_regexs) {
            Ok(v) => v,
            Err(e) => {
                proof {
                    let i = choose|i: int|
                        0 <= i < rv.rewrites.len() && (#[trigger] rv.rewrites[i]).0 == e.pattern@;
                    assert(!re_compiles(rv.rewrites[i].0));
                }
                return Err(e);
            },
        };
        Ok(
            EncounterableResourcePathClassifier {
                ignore_paths_regex_set: ignore,
                acquire_content_for_paths_regex_set: acquire,
                capturable_executables_paths_regexs: capturable,
                captured_exec_sql_paths_regex_set: batch_sql,
                rewrite_nature_regexs: rewrites,
            },
        )
    }
}

/// Some pattern of `pats` matches `text`.
pub open spec fn any_pattern_matches(pats: Seq<Seq<char>>, text: Seq<char>) -> bool {
    exists|i: int| 0 <= i < pats.len() && re_is_match(#[trigger] pats[i], text)
}

/// The `nature` captured by the first pattern of `pats` whose capture on
/// `text` succeeds; nothing when none does.
pub open spec fn first_nature_capture(pats: Seq<Seq<char>>, text: Seq<char>) -> Option<Seq<char>>
    decreases pats.len(),
{
    if pats.len() == 0 {
        None
    } else if re_nature_capture(pats[0], text) is Some {
        re_nature_capture(pats[0], text)
    } else {
        first_nature_capture(pats.drop_first(), text)
    }
}

/// The first rewrite rule whose pattern matches `text`; nothing when none
/// matches.
pub open spec fn first_rewrite(rewrites: Seq<(Seq<char>, Seq<char>)>, text: Seq<char>) -> Option<
    (Seq<char>, Seq<char>),
>
    decreases rewrites.len(),
{
    if rewrites.len() == 0 {
        None
    } else if re_is_match(rewrites[0].0, text) {
        Some(rewrites[0])
    } else {
        first_rewrite(rewrites.drop_first(), text)
    }
}

/// The nature after consulting the rewrite list: the first matching
/// rewrite replaces `nature`, and the pair `(original, replacement)` is
/// reported; without a match the nature stands.
pub open spec fn spec_apply_rewrite(
    rewrites: Seq<(Seq<char>, Seq<char>)>,
    text: Seq<char>,
    nature: Seq<char>,
) -> (Seq<char>, Option<(Seq<char>, Seq<char>)>) {
    match first_rewrite(rewrites, text) {
        Some(rule) => (rule.1, Some((nature, rule.1))),
        None => (nature, None),
    }
}

/// The outcome of classifying one URI: the class after the call, whether
/// some rule family matched, and the rewrite `(original, replacement)`
/// applied to the nature, if any.
pub struct ClassifyOutcome {
    pub class: ClassView,
    pub matched: bool,
    pub rewrite: Option<(Seq<char>, Seq<char>)>,
}

/// The classifier's decision for `text`, starting from class `before`.
/// The rule families are consulted in this exact order: ignore, acquire
/// content, capturable executable, batch SQL; the first match
/// short-circuits and only that family writes flags.
pub open spec fn spec_classify(c: RuleSetView, text: Seq<char>, before: ClassView) -> ClassifyOutcome {
    if any_pattern_matches(c.ignore, text) {
        ClassifyOutcome {
            class: ClassView {
                flags: EncounterableResourceFlags {
                    ignore_resource: true,
                    ..before.flags
                },
                nature: before.nature,
            },
            matched: true,
            rewrite: None,
        }
    } else if first_nature_capture(c.acquire, text) is Some {
        let applied = spec_apply_rewrite(
            c.rewrites,
            text,
            first_nature_capture(c.acquire, text).unwrap(),
        );
        ClassifyOutcome {
            class: ClassView {
                flags: EncounterableResourceFlags {
                    content_acquirable: true,
                    ..before.flags
                },
                nature: Some(applied.0),
            },
            matched: true,
            rewrite: applied.1,
        }
    } else if first_nature_capture(c.capturable, text) is Some {
        let applied = spec_apply_rewrite(
            c.rewrites,
            text,
            first_nature_capture(c.capturable, text).unwrap(),
        );
        ClassifyOutcome {
            class: ClassView {
                flags: EncounterableResourceFlags {
                    capturable_executable: true,
                    ..before.flags
                },
                nature: Some(applied.0),
            },
            matched: true,
            rewrite: applied.1,
        }
    } else if any_pattern_matches(c.batch_sql, text) {
        ClassifyOutcome {
            class: ClassView {
                flags: EncounterableResourceFlags {
                    capturable_executable: true,
                    capturable_sql: true,
                    ..before.flags
                },
                nature: before.nature,
            },
            matched: true,
            rewrite: None,
        }
    } else {
        ClassifyOutcome { class: before, matched: false, rewrite: None }
    }
}

proof fn lemma_first_nature_capture_skip(pats: Seq<Seq<char>>, text: Seq<char>, i: int)
    requires
        0 <= i <= pats.len(),
        forall|j: int| 0 <= j < i ==> re_nature_capture(#[trigger] pats[j], text) is None,
    ensures
        first_nature_capture(pats, text) == first_nature_capture(pats.skip(i), text),
    decreases i,
{
    if i > 0 {
        assert(pats.skip(i - 1).drop_first() =~= pats.skip(i));
        lemma_first_nature_capture_skip(pats, text, i - 1);
        assert(first_nature_capture(pats.skip(i - 1), text) == first_nature_capture(
            pats.skip(i),
            text,
        ));
    } else {
        assert(pats.skip(0) =~= pats);
    }
}

proof fn lemma_first_rewrite_skip(rewrites: Seq<(Seq<char>, Seq<char>)>, text: Seq<char>, i: int)
    requires
        0 <= i <= rewrites.len(),
        forall|j: int| 0 <= j < i ==> !re_is_match((#[trigger] rewrites[j]).0, text),
    ensures
        first_rewrite(rewrites, text) == first_rewrite(rewrites.skip(i), text),
    decreases i,
{
    if i > 0 {
        assert(rewrites.skip(i - 1).drop_first() =~= rewrites.skip(i));
        lemma_first_rewrite_skip(rewrites, text, i - 1);
    } else {
        assert(rewrites.skip(0) =~= rewrites);
    }
}

impl EncounterableResourcePathClassifier {
    /// Finds the replacement of the first rewrite rule matching `text`,
    /// together with the log entry `(original, replacement)`.
    fn apply_rewrite(&self, text: &str, nature: String) -> (r: (String, Option<(String, String)>))
        ensures
            ({
                let applied = spec_apply_rewrite(self@.rewrites, text@, nature@);
                &&& r.0@ == applied.0
                &&& r.1 matches Some(entry) ==> applied.1 == Some((entry.0@, entry.1@))
                &&& r.1 is None ==> applied.1 is None
            }),
    {
        let ghost rewrites = self@.rewrites;
        let mut i: usize = 0;
        while i < self.rewrite_nature_regexs.len()
            invariant
                0 <= i <= self.rewrite_nature_regexs.len(),
                rewrites == self@.rewrites,
                rewrites.len() == self.rewrite_nature_regexs.len(),
                forall|j: int|
                    0 <= j < self.rewrite_nature_regexs.len() ==> rewrites[j]
                        == #[trigger] self.rewrite_nature_regexs[j].deep_view(),
                forall|j: int| 0 <= j < i ==> !re_is_match((#[trigger] rewrites[j]).0, text@),
            decreases self.rewrite_nature_regexs.len() - i,
        {
            let rule = &self.rewrite_nature_regexs[i];
            match rule.is_match(text) {
                Some(rewritten) => {
                    proof {
                        lemma_first_rewrite_skip(rewrites, text@, i as int);
                        assert(rewrites.skip(i as int)[0] == rewrites[i as int]);
                        assert(first_rewrite(rewrites, text@) == Some(rewrites[i as int]));
                    }
                    let entry = Some((nature, rewritten.clone()));
                    return (rewritten, entry);
                },
                None => {},
            }
            i = i + 1;
        }
        proof {
            lemma_first_rewrite_skip(rewrites, text@, rewrites.len() as int);
            assert(rewrites.skip(rewrites.len() as int) =~= Seq::<
                (Seq<char>, Seq<char>),
            >::empty());
            assert(first_rewrite(rewrites, text@) is None);
        }
        (nature, None)
    }

    /// Whether some pattern of `pats` matches `text`.
    fn any_matches(pats: &Vec<CompiledRegex>, text: &str) -> (r: bool)
        ensures
            r == any_pattern_matches(pats.deep_view(), text@),
    {
        let ghost view = pats.deep_view();
        let mut i: usize = 0;
        while i < pats.len()
            invariant
                0 <= i <= pats.len(),
                view == pats.deep_view(),
                view.len() == pats.len(),
                forall|j: int| 0 <= j < pats.len() ==> view[j] == #[trigger] pats[j].deep_view(),
                forall|j: int| 0 <= j < i ==> !re_is_match(#[trigger] view[j], text@),
            decreases pats.len() - i,
        {
            if pats[i].is_match(text) {
                proof {
                    assert(re_is_match(view[i as int], text@));
                }
                return true;
            }
            i = i + 1;
        }
        false
    }

    /// The nature captured by the first pattern of `pats` that matches
    /// `text` with a participating `nature` group.
    fn first_capture(pats: &Vec<CompiledRegex>, text: &str) -> (r: Option<String>)
        ensures
            r matches Some(s) ==> first_nature_capture(pats.deep_view(), text@) == Some(s@),
            r is None ==> first_nature_capture(pats.deep_view(), text@) is None,
    {
        let ghost view = pats.deep_view();
        let mut i: usize = 0;
        while i < pats.len()
            invariant
                0 <= i <= pats.len(),
                view == pats.deep_view(),
                view.len() == pats.len(),
                forall|j: int| 0 <= j < pats.len() ==> view[j] == #[trigger] pats[j].deep_view(),
                forall|j: int| 0 <= j < i ==> re_nature_capture(#[trigger] view[j], text@) is None,
            decreases pats.len() - i,
        {
            match pats[i].capture_nature(text) {
                Some(nature) => {
                    proof {
                        lemma_first_nature_capture_skip(view, text@, i as int);
                        assert(view.skip(i as int)[0] == view[i as int]);
                    }
                    return Some(nature);
                },
                None => {},
            }
            i = i + 1;
        }
        proof {
            lemma_first_nature_capture_skip(view, text@, view.len() as int);
            assert(view.skip(view.len() as int) =~= Seq::<Seq<char>>::empty());
        }
        None
    }

    /// Classifies `text` into `class` and reports the rewrite log entry,
    /// if a rewrite was applied.
    fn classify_core(&self, text: &str, class: &mut EncounterableResourceClass) -> (r: (
        bool,
        Option<(String, String)>,
    ))
        ensures
            ({
                let out = spec_classify(self@, text@, old(class)@);
                &&& final(class)@ == out.class
                &&& r.0 == out.matched
                &&& r.1 matches Some(entry) ==> out.rewrite == Some((entry.0@, entry.1@))
                &&& r.1 is None ==> out.rewrite is None
            }),
    {
        if Self::any_matches(&self.ignore_paths_regex_set, text) {
            class.flags.ignore_resource = true;
            return (true, None);
        }
        match Self::first_capture(&self.acquire_content_for_paths_regex_set, text) {
            Some(nature) => {
                class.flags.content_acquirable = true;
                let applied = self.apply_rewrite(text, nature);
                class.nature = Some(applied.0);
                return (true, applied.1);
            },
            None => {},
        }
        match Self::first_capture(&self.capturable_executables_paths_regexs, text) {
            Some(nature) => {
                class.flags.capturable_executable = true;
                let applied = self.apply_rewrite(text, nature);
                class.nature = Some(applied.0);
                return (true, applied.1);
            },
            None => {},
        }
        if Self::any_matches(&self.captured_exec_sql_paths_regex_set, text) {
            class.flags.capturable_executable = true;
            class.flags.capturable_sql = true;
            return (true, None);
        }
        (false, None)
    }

    /// Classifies `text` into `class`, appending any applied nature
    /// rewrite `(uri, original, replacement)` to `rewritten_natures`.
    pub fn classify_logged(
        &self,
        text: &str,
        class: &mut EncounterableResourceClass,
        rewritten_natures: &mut Vec<(String, String, String)>,
    ) -> (r: bool)
        ensures
            ({
                let out = spec_classify(self@, text@, old(class)@);
                &&& final(class)@ == out.class
                &&& r == out.matched
                &&& out.rewrite matches Some(rw) ==> final(rewritten_natures).deep_view() == old(
                    rewritten_natures,
                ).deep_view().push((text@, rw.0, rw.1))
                &&& out.rewrite is None ==> *final(rewritten_natures) == *old(rewritten_natures)
            }),
    {
        let (matched, rewrite) = self.classify_core(text, class);
        match rewrite {
            Some(entry) => {
                rewritten_natures.push((text.to_owned(), entry.0, entry.1));
                proof {
                    let out = spec_classify(self@, text@, old(class)@);
                    let rw = out.rewrite.unwrap();
                    assert(final(rewritten_natures).deep_view() =~= old(
                        rewritten_natures,
                    ).deep_view().push((text@, rw.0, rw.1)));
                }
            },
            None => {},
        }
        matched
    }
}

impl EncounterableResourceUriClassifier for EncounterableResourcePathClassifier {
    /// Classifies `uri` into `class`: the first matching rule family
    /// writes its flags (and possibly a nature), exactly as
    /// `spec_classify` says.
    fn classify(&self, uri: &str, class: &mut EncounterableResourceClass) -> (r: bool)
        ensures
            final(class)@ == spec_classify(self@, uri@, old(class)@).class,
            r == spec_classify(self@, uri@, old(class)@).matched,
    {
        let (matched, _) = self.classify_core(uri, class);
        matched
    }
}

/// Law: for every rule set, URI and empty starting class, exactly one
/// rule family writes flags (or none, when nothing matches): the written
/// flag set is one of no-flags, ignore alone, content-acquire alone,
/// capturable-executable alone, or capturable-executable with batch SQL.
/// Moreover a batch-SQL match always sets the capturable-executable flag,
/// an ignored resource carries no acquisition flag, the rewrite list is
/// consulted only where a nature was first captured, and a rewrite never
/// clears the nature.
pub proof fn lemma_classify_one_rule_family(c: RuleSetView, text: Seq<char>, before: ClassView)
    requires
        before.flags.spec_is_empty(),
    ensures
        ({
            let out = spec_classify(c, text, before);
            let f = out.class.flags;
            &&& (!out.matched ==> out.class == before)
            &&& (f.ignore_resource ==> !f.content_acquirable && !f.capturable_executable
                && !f.capturable_sql)
            &&& (f.content_acquirable ==> !f.ignore_resource && !f.capturable_executable
                && !f.capturable_sql)
            &&& (f.capturable_sql ==> f.capturable_executable)
            &&& (out.rewrite is Some ==> out.class.nature is Some)
            &&& (out.rewrite matches Some(rw) ==> out.class.nature == Some(rw.1))
        }),
{
}

} // verus!
