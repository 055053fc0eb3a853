use std::io::Write;

use surveilr_ingest::capexec::CapturableExecutable;
use surveilr_ingest::capexec::ShellExecutive;
use surveilr_ingest::capexec::ShellExecutiveSpec;
use surveilr_ingest::capexec::ShellResult;
use surveilr_ingest::capexec::ShellStdIn;
use surveilr_ingest::flags::EncounterableResourceFlags;
use surveilr_ingest::rules::EncounterableResourceClass;

/// A shell executive for tests: reports a fixed outcome.
struct FixedExecutive {
    stdout: String,
    stderr: String,
    status: i32,
    fail: bool,
}

impl ShellExecutive for FixedExecutive {
    fn execute(
        &self,
        _command: &ShellExecutiveSpec,
        _std_in: &ShellStdIn,
    ) -> Result<ShellResult, String> {
        if self.fail {
            Err("could not spawn".to_string())
        } else {
            Ok(ShellResult {
                stdout: self.stdout.clone(),
                stderr: self.stderr.clone(),
                status: self.status,
            })
        }
    }
}

fn ok_executive(stdout: &str) -> FixedExecutive {
    FixedExecutive { stdout: stdout.to_string(), stderr: String::new(), status: 0, fail: false }
}

fn class_with(nature: Option<&str>, capturable_sql: bool) -> EncounterableResourceClass {
    let mut flags = EncounterableResourceFlags::empty();
    flags.capturable_executable = true;
    flags.capturable_sql = capturable_sql;
    EncounterableResourceClass { flags, nature: nature.map(|n| n.to_string()) }
}

fn invokable(nature: Option<&str>, capturable_sql: bool) -> CapturableExecutable {
    CapturableExecutable::from_executable_file_uri("job.sh", &class_with(nature, capturable_sql))
}

#[test]
fn shell_result_success_is_exit_zero() {
    let ok = ShellResult { stdout: String::new(), stderr: String::new(), status: 0 };
    let bad = ShellResult { stdout: String::new(), stderr: String::new(), status: 3 };
    assert!(ok.success());
    assert!(!bad.success());
}

#[test]
fn text_invocation_success() {
    let ce = invokable(Some("json"), false);
    let r = ce.executed_result_as_text(&ok_executive("payload"), &ShellStdIn::Empty).unwrap();
    assert_eq!(r, ("payload".to_string(), "json".to_string(), false));
}

#[test]
fn text_invocation_nonzero_exit() {
    let ce = invokable(Some("json"), false);
    let executive =
        FixedExecutive { stdout: "out".to_string(), stderr: "err".to_string(), status: 2, fail: false };
    let d = ce.executed_result_as_text(&executive, &ShellStdIn::Empty).err().unwrap();
    assert_eq!(d.src, "job.sh");
    assert_eq!(d.interpretable_code.as_deref(), Some("job.sh"));
    assert!(d.issue.contains("invalid exit status"));
    assert_eq!(d.exit_status, Some(2));
    assert_eq!(d.stdout.as_deref(), Some("out"));
    assert_eq!(d.stderr.as_deref(), Some("err"));
    assert_eq!(d.nature.as_deref(), Some("json"));
}

#[test]
fn text_invocation_execution_error() {
    let ce = invokable(Some("json"), false);
    let executive =
        FixedExecutive { stdout: String::new(), stderr: String::new(), status: 0, fail: true };
    let d = ce.executed_result_as_text(&executive, &ShellStdIn::Empty).err().unwrap();
    assert!(d.issue.contains("execution error"));
    assert_eq!(d.rust_err.as_deref(), Some("could not spawn"));
}

#[test]
fn json_invocation_parses_stdout() {
    let ce = invokable(Some("json"), false);
    let (value, nature, is_sql) =
        ce.executed_result_as_json(&ok_executive("{\"a\": 1}"), &ShellStdIn::Empty).unwrap();
    let expected: serde_json::Value = serde_json::from_str("{\"a\": 1}").unwrap();
    assert_eq!(value, expected);
    assert_eq!(nature, "json");
    assert!(!is_sql);
}

#[test]
fn json_invocation_rejects_non_json_stdout() {
    let ce = invokable(Some("json"), false);
    let d = ce.executed_result_as_json(&ok_executive("plainly not json"), &ShellStdIn::Empty)
        .err()
        .unwrap();
    assert!(d.issue.contains("unable to deserialize JSON"));
    assert_eq!(
        d.remediation.as_deref(),
        Some("ensure that executable is emitting JSON (e.g. `--json`)")
    );
    assert_eq!(d.stdout.as_deref(), Some("plainly not json"));
    assert_eq!(d.is_batched_sql, Some(false));
}

#[test]
fn sql_invocation_on_batch_sql() {
    let ce = invokable(None, true);
    let (stdout, nature) =
        ce.executed_result_as_sql(&ok_executive("SELECT 1;"), &ShellStdIn::Empty).unwrap();
    assert_eq!(stdout, "SELECT 1;");
    // no classifier nature was set, so the placeholder stands
    assert_eq!(nature, "?nature");
}

#[test]
fn sql_invocation_refuses_non_batch_sql() {
    let ce = invokable(Some("json"), false);
    let d = ce.executed_result_as_sql(&ok_executive("SELECT 1;"), &ShellStdIn::Empty)
        .err()
        .unwrap();
    assert!(d.issue.contains("is not classified as batch SQL"));
    assert_eq!(d.src, "job.sh");
}

#[test]
fn not_executable_short_circuits_every_invocation() {
    let ce = CapturableExecutable::RequestedButNotExecutable("script.sh".to_string());
    let executive = ok_executive("never runs");
    let t = ce.executed_result_as_text(&executive, &ShellStdIn::Empty).err().unwrap();
    assert!(t.issue.contains("executable permissions not set"));
    assert_eq!(t.src, "script.sh");
    let j = ce.executed_result_as_json(&executive, &ShellStdIn::Empty).err().unwrap();
    assert!(j.issue.contains("executable permissions not set"));
    let s = ce.executed_result_as_sql(&executive, &ShellStdIn::Empty).err().unwrap();
    assert!(s.issue.contains("executable permissions not set"));
    assert_eq!(
        s.remediation.as_deref(),
        Some("make sure that script has executable permissions set")
    );
}

#[test]
fn execute_bit_set_yields_invokable() {
    // /bin/sh carries the execute bit on every host this runs on
    let ce = CapturableExecutable::from_executable_file_path(
        "/bin/sh",
        &class_with(Some("json"), false),
    );
    match &ce {
        CapturableExecutable::UriShellExecutive(spec, code, nature, is_sql) => {
            match spec {
                ShellExecutiveSpec::UriExecutable(u) => assert_eq!(u, "/bin/sh"),
                _ => panic!("expected the uri-executable form"),
            }
            assert_eq!(code, "/bin/sh");
            assert_eq!(nature, "json");
            assert!(!is_sql);
        }
        _ => panic!("expected the invokable form"),
    }
}

#[test]
fn missing_execute_bit_yields_marker() {
    // a freshly created file carries no execute bit
    let tmp = vfs::VfsPath::new(vfs::PhysicalFS::new("/tmp"));
    let name = "surveilr_ingest_no_exec_bit.surveilr[json].sh";
    let file = tmp.join(name).unwrap();
    let mut w = file.create_file().unwrap();
    w.write_all(b"echo hi").unwrap();
    drop(w);
    let os_path = format!("/tmp/{}", name);
    let ce = CapturableExecutable::from_executable_file_path(
        os_path.as_str(),
        &class_with(Some("json"), false),
    );
    match &ce {
        CapturableExecutable::RequestedButNotExecutable(uri) => assert_eq!(uri, &os_path),
        _ => panic!("expected the requested-but-not-executable marker"),
    }
    assert_eq!(ce.uri(), os_path);
}

#[test]
fn task_line_executable_keeps_identity() {
    let er = surveilr_ingest::encounter::EncounterableResource::from_deno_task_shell_line(
        "{\"greet\":\"echo hi\",\"nature\":\"text/plain\"}",
    );
    let ce = surveilr_ingest::capexec::CapturableExecutable::from_encountered_content(
        &er,
        &class_with(None, false),
    );
    match &ce {
        CapturableExecutable::UriShellExecutive(spec, code, nature, is_sql) => {
            match spec {
                ShellExecutiveSpec::DenoTaskShell(line, identity) => {
                    assert_eq!(line, "echo hi");
                    assert_eq!(identity.as_deref(), Some("greet"));
                }
                _ => panic!("expected the task-shell form"),
            }
            assert_eq!(code, "echo hi");
            assert_eq!(nature, "text/plain");
            assert!(!is_sql);
        }
        _ => panic!("expected the invokable form"),
    }
}
