//! Capturable executables and their invocation outcomes.
//!
//! A capturable executable either holds an invokable shell command (the
//! interpretable code, its declared nature and the batch-SQL flag) or
//! marks a resource that was requested as executable but lacks the OS
//! execute permission. Running the command is the shell executive's
//! concern: an external collaborator behind the `ShellExecutive` trait.
//! The decision logic — what each invocation returns for every possible
//! shell outcome — is pure and fully specified here.

use vstd::prelude::*;

use crate::fsio::path_is_executable;
use crate::rules::EncounterableResourceClass;
use crate::tasks::json_parses;
use crate::tasks::parse_json_text;

verus! {

/// The stdin payload handed to a shell executive.
#[derive(Debug)]
pub enum ShellStdIn {
    Empty,
    Text(String),
}

/// What a shell executive reports back: captured stdout and stderr, and
/// the process exit code. Success is exit code zero.
#[derive(Debug)]
pub struct ShellResult {
    pub stdout: String,
    pub stderr: String,
    pub status: i32,
}

impl ShellResult {
    /// True exactly when the exit code is zero.
    pub fn success(&self) -> (r: bool)
        ensures
            r == (self.status == 0),
    {
        self.status == 0
    }
}

/// What a shell executive is asked to run: a URI naming an executable
/// file, or a task-shell line with its optional identity.
pub enum ShellExecutiveSpec {
    UriExecutable(String),
    DenoTaskShell(String, Option<String>),
}

/// The mathematical content of a `ShellExecutiveSpec`.
pub enum ShellExecutiveSpecView {
    UriExecutable(Seq<char>),
    DenoTaskShell(Seq<char>, Option<Seq<char>>),
}

impl View for ShellExecutiveSpec {
    type V = ShellExecutiveSpecView;

    open spec fn view(&self) -> ShellExecutiveSpecView {
        match self {
            ShellExecutiveSpec::UriExecutable(u) => ShellExecutiveSpecView::UriExecutable(u@),
            ShellExecutiveSpec::DenoTaskShell(line, identity) => ShellExecutiveSpecView::DenoTaskShell(
                line@,
                identity.deep_view(),
            ),
        }
    }
}

/// The shell-executive contract, implemented outside the library: given
/// a command and a stdin payload, run it and report stdout, stderr and
/// the exit status, or an error message when it could not be run at all.
pub trait ShellExecutive {
    fn execute(&self, command: &ShellExecutiveSpec, std_in: &ShellStdIn) -> Result<
        ShellResult,
        String,
    >;
}

/// The structured diagnostic an invocation returns instead of throwing:
/// the source URI, the mandatory issue, and whatever context the failing
/// stage had at hand.
#[derive(Debug)]
pub struct ExecDiagnostic {
    pub src: String,
    pub interpretable_code: Option<String>,
    pub issue: String,
    pub remediation: Option<String>,
    pub nature: Option<String>,
    pub is_batched_sql: Option<bool>,
    pub exit_status: Option<i32>,
    pub stdout: Option<String>,
    pub stderr: Option<String>,
    pub rust_err: Option<String>,
}

/// A capturable executable: an invokable shell command, or the marker of
/// a resource requested as executable without execute permission.
pub enum CapturableExecutable {
    UriShellExecutive(ShellExecutiveSpec, String, String, bool),
    RequestedButNotExecutable(String),
}

/// The mathematical content of a `CapturableExecutable`.
pub enum CapExecView {
    UriShellExecutive(ShellExecutiveSpecView, Seq<char>, Seq<char>, bool),
    RequestedButNotExecutable(Seq<char>),
}

impl View for CapturableExecutable {
    type V = CapExecView;

    open spec fn view(&self) -> CapExecView {
        match self {
            CapturableExecutable::UriShellExecutive(es, code, nature, sql) => CapExecView::UriShellExecutive(
                es@,
                code@,
                nature@,
                *sql,
            ),
            CapturableExecutable::RequestedButNotExecutable(u) => CapExecView::RequestedButNotExecutable(
                u@,
            ),
        }
    }
}

impl CapExecView {
    /// The URI an invocation reports as its source.
    pub open spec fn spec_uri(self) -> Seq<char> {
        match self {
            CapExecView::UriShellExecutive(_, code, _, _) => code,
            CapExecView::RequestedButNotExecutable(u) => u,
        }
    }
}

/// The capturable executable classified from a bare URI: invokable, with
/// the class's nature (or the placeholder `?nature`) and its batch-SQL
/// flag.
pub open spec fn spec_from_executable_file_uri(
    uri: Seq<char>,
    erc: crate::rules::ClassView,
) -> CapExecView {
    CapExecView::UriShellExecutive(
        ShellExecutiveSpecView::UriExecutable(uri),
        uri,
        match erc.nature {
            Some(n) => n,
            None => "?nature"@,
        },
        erc.flags.capturable_sql,
    )
}

/// The capturable executable for a real file: invokable when the OS
/// execute bit is set, the requested-but-not-executable marker otherwise.
pub open spec fn spec_from_executable_file_path(
    path: Seq<char>,
    erc: crate::rules::ClassView,
    executable: bool,
) -> CapExecView {
    if executable {
        spec_from_executable_file_uri(path, erc)
    } else {
        CapExecView::RequestedButNotExecutable(path)
    }
}

impl CapturableExecutable {
    /// Builds the invokable form from a URI, on the filename pattern
    /// alone (no execute-permission check).
    pub fn from_executable_file_uri(uri: &str, erc: &EncounterableResourceClass) -> (r:
        CapturableExecutable)
        ensures
            r@ == spec_from_executable_file_uri(uri@, erc@),
    {
        let nature = match &erc.nature {
            Some(n) => n.clone(),
            None => "?nature".to_owned(),
        };
        CapturableExecutable::UriShellExecutive(
            ShellExecutiveSpec::UriExecutable(uri.to_owned()),
            uri.to_owned(),
            nature,
            erc.flags.capturable_sql,
        )
    }

    /// Builds the capturable executable for a real file: the filename
    /// pattern already matched, so only the OS execute permission
    /// decides between the invokable form and the marker.
    pub fn from_executable_file_path(path: &str, erc: &EncounterableResourceClass) -> (r:
        CapturableExecutable)
        ensures
            exists|executable: bool|
                r@ == spec_from_executable_file_path(path@, erc@, executable),
    {
        let executable = path_is_executable(path);
        if executable {
            let r = Self::from_executable_file_uri(path, erc);
            proof {
                assert(r@ == spec_from_executable_file_path(path@, erc@, true));
            }
            r
        } else {
            let r = CapturableExecutable::RequestedButNotExecutable(path.to_owned());
            proof {
                assert(r@ == spec_from_executable_file_path(path@, erc@, false));
            }
            r
        }
    }

    /// The URI of this capturable executable.
    pub fn uri(&self) -> (r: &str)
        ensures
            r@ == self@.spec_uri(),
    {
        match self {
            CapturableExecutable::UriShellExecutive(_, uri, _, _) => uri.as_str(),
            CapturableExecutable::RequestedButNotExecutable(uri) => uri.as_str(),
        }
    }
}

/// The diagnostic of an invocation on a resource without execute
/// permission: the source and the stage's issue text, a canned
/// remediation, and nothing else.
pub open spec fn not_executable_diag(src: Seq<char>, issue: Seq<char>, d: &ExecDiagnostic) -> bool {
    &&& d.src@ == src
    &&& d.issue@ == issue
    &&& d.remediation matches Some(m) && m@ == "make sure that script has executable permissions set"@
    &&& d.interpretable_code is None
    &&& d.nature is None
    &&& d.is_batched_sql is None
    &&& d.exit_status is None
    &&& d.stdout is None
    &&& d.stderr is None
    &&& d.rust_err is None
}

/// What the text invocation returns for each possible shell outcome: on
/// exit code zero the captured stdout with the declared nature and the
/// batch-SQL flag; on a nonzero exit a diagnostic with the exit status,
/// stdout and stderr; on an execution error a diagnostic with the error
/// text.
pub open spec fn text_outcome_post(
    uri: Seq<char>,
    code: Seq<char>,
    nature: Seq<char>,
    is_sql: bool,
    outcome: Result<ShellResult, String>,
    r: Result<(String, String, bool), ExecDiagnostic>,
) -> bool {
    match outcome {
        Ok(sr) => {
            if sr.status == 0 {
                &&& r matches Ok(t)
                &&& t.0 == sr.stdout
                &&& t.1@ == nature
                &&& t.2 == is_sql
            } else {
                &&& r matches Err(d)
                &&& d.src@ == uri
                &&& d.interpretable_code matches Some(c) && c@ == code
                &&& d.issue@
                    == "[CapturableExecutable::TextFromExecutableUri.executed_text] invalid exit status"@
                &&& d.remediation matches Some(m) && m@
                    == "ensure that executable is called with proper arguments and input formats"@
                &&& d.nature matches Some(n) && n@ == nature
                &&& d.is_batched_sql is None
                &&& d.exit_status == Some(sr.status)
                &&& d.stdout == Some(sr.stdout)
                &&& d.stderr == Some(sr.stderr)
                &&& d.rust_err is None
            }
        },
        Err(e) => {
            &&& r matches Err(d)
            &&& d.src@ == uri
            &&& d.interpretable_code matches Some(c) && c@ == code
            &&& d.issue@
                == "[CapturableExecutable::TextFromExecutableUri.executed_text] execution error"@
            &&& d.remediation is None
            &&& d.nature matches Some(n) && n@ == nature
            &&& d.is_batched_sql is None
            &&& d.exit_status is None
            &&& d.stdout is None
            &&& d.stderr is None
            &&& d.rust_err == Some(e)
        },
    }
}

/// Decides the text invocation's result from the shell outcome alone.
pub fn text_outcome_of(
    uri: &str,
    interpretable_code: &str,
    nature: &str,
    is_batched_sql: bool,
    outcome: Result<ShellResult, String>,
) -> (r: Result<(String, String, bool), ExecDiagnostic>)
    ensures
        text_outcome_post(uri@, interpretable_code@, nature@, is_batched_sql, outcome, r),
{
    match outcome {
        Ok(sr) => {
            if sr.status == 0 {
                Ok((sr.stdout, nature.to_owned(), is_batched_sql))
            } else {
                Err(
                    ExecDiagnostic {
                        src: uri.to_owned(),
                        interpretable_code: Some(interpretable_code.to_owned()),
                        issue:
                            "[CapturableExecutable::TextFromExecutableUri.executed_text] invalid exit status".to_owned(),
                        remediation: Some(
                            "ensure that executable is called with proper arguments and input formats".to_owned(),
                        ),
                        nature: Some(nature.to_owned()),
                        is_batched_sql: None,
                        exit_status: Some(sr.status),
                        stdout: Some(sr.stdout),
                        stderr: Some(sr.stderr),
                        rust_err: None,
                    },
                )
            }
        },
        Err(e) => Err(
            ExecDiagnostic {
                src: uri.to_owned(),
                interpretable_code: Some(interpretable_code.to_owned()),
                issue:
                    "[CapturableExecutable::TextFromExecutableUri.executed_text] execution error".to_owned(),
                remediation: None,
                nature: Some(nature.to_owned()),
                is_batched_sql: None,
                exit_status: None,
                stdout: None,
                stderr: None,
                rust_err: Some(e),
            },
        ),
    }
}

/// What the JSON invocation returns for each possible shell outcome: as
/// the text invocation, but stdout must additionally parse as JSON; a
/// parse failure yields a diagnostic with its own remediation and the
/// raw stdout.
pub open spec fn json_outcome_post(
    uri: Seq<char>,
    code: Seq<char>,
    nature: Seq<char>,
    is_sql: bool,
    outcome: Result<ShellResult, String>,
    r: Result<(serde_json::Value, String, bool), ExecDiagnostic>,
) -> bool {
    match outcome {
        Ok(sr) => {
            if sr.status == 0 {
                if json_parses(sr.stdout@) {
                    &&& r matches Ok(t)
                    &&& t.1@ == nature
                    &&& t.2 == is_sql
                } else {
                    &&& r matches Err(d)
                    &&& d.src@ == uri
                    &&& d.interpretable_code matches Some(c) && c@ == code
                    &&& d.issue@
                        == "[CapturableExecutable::TextFromExecutableUri.executed_result_as_json] unable to deserialize JSON"@
                    &&& d.remediation matches Some(m) && m@
                        == "ensure that executable is emitting JSON (e.g. `--json`)"@
                    &&& d.nature matches Some(n) && n@ == nature
                    &&& d.is_batched_sql == Some(is_sql)
                    &&& d.exit_status == Some(sr.status)
                    &&& d.stdout == Some(sr.stdout)
                    &&& d.stderr == Some(sr.stderr)
                    &&& d.rust_err is None
                }
            } else {
                &&& r matches Err(d)
                &&& d.src@ == uri
                &&& d.interpretable_code matches Some(c) && c@ == code
                &&& d.issue@
                    == "[CapturableExecutable::TextFromExecutableUri.executed_result_as_json] invalid exit status"@
                &&& d.remediation matches Some(m) && m@
                    == "ensure that executable is called with proper arguments and input formats"@
                &&& d.nature matches Some(n) && n@ == nature
                &&& d.is_batched_sql == Some(is_sql)
                &&& d.exit_status == Some(sr.status)
                &&& d.stdout is None
                &&& d.stderr == Some(sr.stderr)
                &&& d.rust_err is None
            }
        },
        Err(e) => {
            &&& r matches Err(d)
            &&& d.src@ == uri
            &&& d.interpretable_code is None
            &&& d.issue@
                == "[CapturableExecutable::TextFromExecutableUri.executed_result_as_json] execution error"@
            &&& d.remediation is None
            &&& d.nature matches Some(n) && n@ == nature
            &&& d.is_batched_sql == Some(is_sql)
            &&& d.exit_status is None
            &&& d.stdout is None
            &&& d.stderr is None
            &&& d.rust_err == Some(e)
        },
    }
}

/// Decides the JSON invocation's result from the shell outcome alone.
pub fn json_outcome_of(
    uri: &str,
    interpretable_code: &str,
    nature: &str,
    is_batched_sql: bool,
    outcome: Result<ShellResult, String>,
) -> (r: Result<(serde_json::Value, String, bool), ExecDiagnostic>)
    ensures
        json_outcome_post(uri@, interpretable_code@, nature@, is_batched_sql, outcome, r),
{
    match outcome {
        Ok(sr) => {
            if sr.status == 0 {
                match parse_json_text(sr.stdout.as_str()) {
                    Some(value) => Ok((value, nature.to_owned(), is_batched_sql)),
                    None => Err(
                        ExecDiagnostic {
                            src: uri.to_owned(),
                            interpretable_code: Some(interpretable_code.to_owned()),
                            issue:
                                "[CapturableExecutable::TextFromExecutableUri.executed_result_as_json] unable to deserialize JSON".to_owned(),
                            remediation: Some(
                                "ensure that executable is emitting JSON (e.g. `--json`)".to_owned(),
                            ),
                            nature: Some(nature.to_owned()),
                            is_batched_sql: Some(is_batched_sql),
                            exit_status: Some(sr.status),
                            stdout: Some(sr.stdout),
                            stderr: Some(sr.stderr),
                            rust_err: None,
                        },
                    ),
                }
            } else {
                Err(
                    ExecDiagnostic {
                        src: uri.to_owned(),
                        interpretable_code: Some(interpretable_code.to_owned()),
                        issue:
                            "[CapturableExecutable::TextFromExecutableUri.executed_result_as_json] invalid exit status".to_owned(),
                        remediation: Some(
                            "ensure that executable is called with proper arguments and input formats".to_owned(),
                        ),
                        nature: Some(nature.to_owned()),
                        is_batched_sql: Some(is_batched_sql),
                        exit_status: Some(sr.status),
                        stdout: None,
                        stderr: Some(sr.stderr),
                        rust_err: None,
                    },
                )
            }
        },
        Err(e) => Err(
            ExecDiagnostic {
                src: uri.to_owned(),
                interpretable_code: None,
                issue:
                    "[CapturableExecutable::TextFromExecutableUri.executed_result_as_json] execution error".to_owned(),
                remediation: None,
                nature: Some(nature.to_owned()),
                is_batched_sql: Some(is_batched_sql),
                exit_status: None,
                stdout: None,
                stderr: None,
                rust_err: Some(e),
            },
        ),
    }
}

/// What the SQL invocation returns for each possible shell outcome,
/// given that the executable is classified as batch SQL: as the text
/// invocation, without the batch-SQL flag in the success value.
pub open spec fn sql_outcome_post(
    uri: Seq<char>,
    code: Seq<char>,
    nature: Seq<char>,
    outcome: Result<ShellResult, String>,
    r: Result<(String, String), ExecDiagnostic>,
) -> bool {
    match outcome {
        Ok(sr) => {
            if sr.status == 0 {
                &&& r matches Ok(t)
                &&& t.0 == sr.stdout
                &&& t.1@ == nature
            } else {
                &&& r matches Err(d)
                &&& d.src@ == uri
                &&& d.interpretable_code matches Some(c) && c@ == code
                &&& d.issue@
                    == "[CapturableExecutable::TextFromExecutableUri.executed_result_as_sql] invalid exit status"@
                &&& d.remediation matches Some(m) && m@
                    == "ensure that executable is called with proper arguments and input formats"@
                &&& d.nature matches Some(n) && n@ == nature
                &&& d.is_batched_sql is None
                &&& d.exit_status == Some(sr.status)
                &&& d.stdout == Some(sr.stdout)
                &&& d.stderr == Some(sr.stderr)
                &&& d.rust_err is None
            }
        },
        Err(e) => {
            &&& r matches Err(d)
            &&& d.src@ == uri
            &&& d.interpretable_code matches Some(c) && c@ == code
            &&& d.issue@
                == "[CapturableExecutable::TextFromExecutableUri.executed_result_as_sql] execution error"@
            &&& d.remediation is None
            &&& d.nature matches Some(n) && n@ == nature
            &&& d.is_batched_sql is None
            &&& d.exit_status is None
            &&& d.stdout is None
            &&& d.stderr is None
            &&& d.rust_err == Some(e)
        },
    }
}

/// The diagnostic of a SQL invocation on an executable that is not
/// classified as batch SQL.
pub open spec fn not_batch_sql_diag(
    uri: Seq<char>,
    code: Seq<char>,
    nature: Seq<char>,
    d: &ExecDiagnostic,
) -> bool {
    &&& d.src@ == uri
    &&& d.interpretable_code matches Some(c) && c@ == code
    &&& d.issue@
        == "[CapturableExecutable::TextFromExecutableUri.executed_result_as_sql] is not classified as batch SQL"@
    &&& d.remediation is None
    &&& d.nature matches Some(n) && n@ == nature
    &&& d.is_batched_sql is None
    &&& d.exit_status is None
    &&& d.stdout is None
    &&& d.stderr is None
    &&& d.rust_err is None
}

/// The text invocation's result is consistent with some shell outcome.
pub open spec fn text_invocation_consistent(
    code: Seq<char>,
    nature: Seq<char>,
    is_sql: bool,
    r: Result<(String, String, bool), ExecDiagnostic>,
) -> bool {
    exists|outcome: Result<ShellResult, String>|
        text_outcome_post(code, code, nature, is_sql, outcome, r)
}

/// The JSON invocation's result is consistent with some shell outcome.
pub open spec fn json_invocation_consistent(
    code: Seq<char>,
    nature: Seq<char>,
    is_sql: bool,
    r: Result<(serde_json::Value, String, bool), ExecDiagnostic>,
) -> bool {
    exists|outcome: Result<ShellResult, String>|
        json_outcome_post(code, code, nature, is_sql, outcome, r)
}

/// The SQL invocation's result is consistent with some shell outcome.
pub open spec fn sql_invocation_consistent(
    code: Seq<char>,
    nature: Seq<char>,
    r: Result<(String, String), ExecDiagnostic>,
) -> bool {
    exists|outcome: Result<ShellResult, String>| sql_outcome_post(code, code, nature, outcome, r)
}

/// Decides the SQL invocation's result from the shell outcome alone,
/// for an executable classified as batch SQL.
pub fn sql_outcome_of(
    uri: &str,
    interpretable_code: &str,
    nature: &str,
    outcome: Result<ShellResult, String>,
) -> (r: Result<(String, String), ExecDiagnostic>)
    ensures
        sql_outcome_post(uri@, interpretable_code@, nature@, outcome, r),
{
    match outcome {
        Ok(sr) => {
            if sr.status == 0 {
                Ok((sr.stdout, nature.to_owned()))
            } else {
                Err(
                    ExecDiagnostic {
                        src: uri.to_owned(),
                        interpretable_code: Some(interpretable_code.to_owned()),
                        issue:
                            "[CapturableExecutable::TextFromExecutableUri.executed_result_as_sql] invalid exit status".to_owned(),
                        remediation: Some(
                            "ensure that executable is called with proper arguments and input formats".to_owned(),
                        ),
                        nature: Some(nature.to_owned()),
                        is_batched_sql: None,
                        exit_status: Some(sr.status),
                        stdout: Some(sr.stdout),
                        stderr: Some(sr.stderr),
                        rust_err: None,
                    },
                )
            }
        },
        Err(e) => Err(
            ExecDiagnostic {
                src: uri.to_owned(),
                interpretable_code: Some(interpretable_code.to_owned()),
                issue:
                    "[CapturableExecutable::TextFromExecutableUri.executed_result_as_sql] execution error".to_owned(),
                remediation: None,
                nature: Some(nature.to_owned()),
                is_batched_sql: None,
                exit_status: None,
                stdout: None,
                stderr: None,
                rust_err: Some(e),
            },
        ),
    }
}

fn not_executable_diagnostic(src: &str, issue: &str) -> (d: ExecDiagnostic)
    ensures
        not_executable_diag(src@, issue@, &d),
{
    ExecDiagnostic {
        src: src.to_owned(),
        interpretable_code: None,
        issue: issue.to_owned(),
        remediation: Some("make sure that script has executable permissions set".to_owned()),
        nature: None,
        is_batched_sql: None,
        exit_status: None,
        stdout: None,
        stderr: None,
        rust_err: None,
    }
}

impl CapturableExecutable {
    /// Runs the executive and captures stdout as text. On the invokable
    /// form the result follows `text_outcome_post` for whatever the
    /// executive reported; on the not-executable marker it is the
    /// permission diagnostic, and nothing is run.
    pub fn executed_result_as_text<E: ShellExecutive>(&self, executive: &E, std_in: &ShellStdIn)
        -> (r: Result<(String, String, bool), ExecDiagnostic>)
        ensures
            self@ matches CapExecView::UriShellExecutive(_, code, nature, is_sql)
                ==> text_invocation_consistent(code, nature, is_sql, r),
            self@ matches CapExecView::RequestedButNotExecutable(src) ==> r matches Err(d)
                && not_executable_diag(
                src,
                "[CapturableExecutable::RequestedButNotExecutable.executed_sql] executable permissions not set"@,
                &d,
            ),
    {
        match self {
            CapturableExecutable::UriShellExecutive(es, code, nature, is_sql) => {
                let outcome = executive.execute(es, std_in);
                let ghost outcome_view = outcome;
                let r = text_outcome_of(code.as_str(), code.as_str(), nature.as_str(), *is_sql, outcome);
                proof {
                    assert(text_outcome_post(code@, code@, nature@, *is_sql, outcome_view, r));
                    assert(text_invocation_consistent(code@, nature@, *is_sql, r));
                }
                r
            },
            CapturableExecutable::RequestedButNotExecutable(src) => Err(
                not_executable_diagnostic(
                    src.as_str(),
                    "[CapturableExecutable::RequestedButNotExecutable.executed_sql] executable permissions not set",
                ),
            ),
        }
    }

    /// Runs the executive and parses stdout as JSON. On the invokable
    /// form the result follows `json_outcome_post` for whatever the
    /// executive reported; on the not-executable marker it is the
    /// permission diagnostic, and nothing is run.
    pub fn executed_result_as_json<E: ShellExecutive>(&self, executive: &E, std_in: &ShellStdIn)
        -> (r: Result<(serde_json::Value, String, bool), ExecDiagnostic>)
        ensures
            self@ matches CapExecView::UriShellExecutive(_, code, nature, is_sql)
                ==> json_invocation_consistent(code, nature, is_sql, r),
            self@ matches CapExecView::RequestedButNotExecutable(src) ==> r matches Err(d)
                && not_executable_diag(
                src,
                "[CapturableExecutable::RequestedButNotExecutable.executed_result_as_json] executable permissions not set"@,
                &d,
            ),
    {
        match self {
            CapturableExecutable::UriShellExecutive(es, code, nature, is_sql) => {
                let outcome = executive.execute(es, std_in);
                let ghost outcome_view = outcome;
                let r = json_outcome_of(code.as_str(), code.as_str(), nature.as_str(), *is_sql, outcome);
                proof {
                    assert(json_outcome_post(code@, code@, nature@, *is_sql, outcome_view, r));
                    assert(json_invocation_consistent(code@, nature@, *is_sql, r));
                }
                r
            },
            CapturableExecutable::RequestedButNotExecutable(src) => Err(
                not_executable_diagnostic(
                    src.as_str(),
                    "[CapturableExecutable::RequestedButNotExecutable.executed_result_as_json] executable permissions not set",
                ),
            ),
        }
    }

    /// Runs the executive and captures stdout as batch SQL. An
    /// executable not classified as batch SQL is refused with a
    /// diagnostic and nothing is run; otherwise the result follows
    /// `sql_outcome_post` for whatever the executive reported. On the
    /// not-executable marker it is the permission diagnostic.
    pub fn executed_result_as_sql<E: ShellExecutive>(&self, executive: &E, std_in: &ShellStdIn)
        -> (r: Result<(String, String), ExecDiagnostic>)
        ensures
            self@ matches CapExecView::UriShellExecutive(_, code, nature, is_sql) ==> {
                if is_sql {
                    sql_invocation_consistent(code, nature, r)
                } else {
                    r matches Err(d) && not_batch_sql_diag(code, code, nature, &d)
                }
            },
            self@ matches CapExecView::RequestedButNotExecutable(src) ==> r matches Err(d)
                && not_executable_diag(
                src,
                "[CapturableExecutable::RequestedButNotExecutable.executed_result_as_sql] executable permissions not set"@,
                &d,
            ),
    {
        match self {
            CapturableExecutable::UriShellExecutive(es, code, nature, is_sql) => {
                if *is_sql {
                    let outcome = executive.execute(es, std_in);
                    let ghost outcome_view = outcome;
                    let r = sql_outcome_of(code.as_str(), code.as_str(), nature.as_str(), outcome);
                    proof {
                        assert(sql_outcome_post(code@, code@, nature@, outcome_view, r));
                        assert(sql_invocation_consistent(code@, nature@, r));
                    }
                    r
                } else {
                    Err(
                        ExecDiagnostic {
                            src: code.clone(),
                            interpretable_code: Some(code.clone()),
                            issue:
                                "[CapturableExecutable::TextFromExecutableUri.executed_result_as_sql] is not classified as batch SQL".to_owned(),
                            remediation: None,
                            nature: Some(nature.clone()),
                            is_batched_sql: None,
                            exit_status: None,
                            stdout: None,
                            stderr: None,
                            rust_err: None,
                        },
                    )
                }
            },
            CapturableExecutable::RequestedButNotExecutable(src) => Err(
                not_executable_diagnostic(
                    src.as_str(),
                    "[CapturableExecutable::RequestedButNotExecutable.executed_result_as_sql] executable permissions not set",
                ),
            ),
        }
    }
}

} // verus!
