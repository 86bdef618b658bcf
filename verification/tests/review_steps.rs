use llama_chat::browser_tools::{navigate_first, navigate_opened, NavigateAction};
use llama_chat::documents::extract_eml_text;
use llama_chat::routes::tools::{file_step, FileStep, ToolAction, FORBIDDEN};

fn read(path: &str) -> ToolAction {
    ToolAction::ReadFile { path: path.to_string() }
}

#[test]
fn refused_paths_are_answered_forbidden() {
    match file_step(read("../etc/passwd"), Ok("/etc/passwd".to_string())) {
        FileStep::Refuse { response } => {
            assert_eq!(response.status, FORBIDDEN);
            assert_eq!(response.body, r#"{"error":"Path not allowed"}"#);
        }
        _ => panic!("a path outside /app must be refused"),
    }
    match file_step(read("x"), Err("No such file or directory (os error 2)".to_string())) {
        FileStep::Refuse { response } => {
            assert_eq!(response.status, 403);
            assert_eq!(
                response.body,
                r#"{"error":"Failed to resolve path: No such file or directory (os error 2)"}"#
            );
        }
        _ => panic!("an unresolved path must be refused"),
    }
    match file_step(read("/application"), Ok("/application".to_string())) {
        FileStep::Refuse { .. } => {}
        _ => panic!("/application is not under /app"),
    }
}

#[test]
fn allowed_paths_are_used_resolved() {
    match file_step(read("models/../notes.txt"), Ok("/app/notes.txt".to_string())) {
        FileStep::Read { path } => assert_eq!(path, "/app/notes.txt"),
        _ => panic!("expected a read"),
    }
    let write = ToolAction::WriteFile { path: "a".to_string(), content: "hi".to_string() };
    match file_step(write, Ok("/app/a".to_string())) {
        FileStep::Write { path, content } => {
            assert_eq!(path, "/app/a");
            assert_eq!(content, "hi");
        }
        _ => panic!("expected a write"),
    }
    let list = ToolAction::ListDirectory { path: ".".to_string(), recursive: true };
    match file_step(list, Ok("/app".to_string())) {
        FileStep::List { path, recursive } => {
            assert_eq!(path, "/app");
            assert!(recursive);
        }
        _ => panic!("expected a listing"),
    }
}

#[test]
fn navigation_decisions() {
    match navigate_first("https://a.org", Some(true)) {
        NavigateAction::Reply { text } => assert_eq!(text, "Navigated to https://a.org."),
        _ => panic!("a session that navigated is answered"),
    }
    assert!(matches!(navigate_first("https://a.org", Some(false)), NavigateAction::OpenSession));
    assert!(matches!(navigate_first("https://a.org", None), NavigateAction::OpenSession));
    assert_eq!(navigate_opened(true, Ok("https://a.org/".to_string())), "Opened new session at https://a.org/.");
    assert_eq!(navigate_opened(false, Ok("https://a.org/".to_string())), "Navigated to https://a.org/.");
    assert_eq!(navigate_opened(false, Err("no browser".to_string())), "navigate failed: no browser");
}

#[test]
fn mail_parts_in_preorder() {
    let mail = [
        "From: a@b.c",
        "Subject: Files",
        "Content-Type: multipart/mixed; boundary=\"XX\"",
        "",
        "--XX",
        "Content-Type: text/plain",
        "",
        "First part",
        "--XX",
        "Content-Type: application/pdf",
        "Content-Disposition: attachment; filename=\"r.pdf\"",
        "",
        "%PDF",
        "--XX--",
        "",
    ]
    .join("\r\n");
    assert_eq!(
        extract_eml_text(mail.as_bytes()),
        "From: a@b.c\nSubject: Files\n\n---\n\nFirst part\n\nAttachments:\n  - r.pdf (application/pdf)"
    );
}

use llama_chat::desktop_tools::processes::{
    grace_period, graceful_outcome_reply, graceful_reply, kill_error_line, kill_plan, killed_reply,
    terminated_reply, GracefulOutcome, KillPlan,
};
use llama_chat::file_tools::{
    directory_listing, python_reply, read_error_reply, read_reply, written_reply, DirEntryInfo, EntryKind,
    MAX_READ_SIZE,
};

fn procs() -> Result<Vec<(u32, String)>, String> {
    Ok(vec![
        (4, "System".to_string()),
        (100, "svchost.exe".to_string()),
        (200, "notepad.exe".to_string()),
        (300, "Notepad++.exe".to_string()),
        (42, "llama-chat.exe".to_string()),
    ])
}

fn refusal(plan: KillPlan) -> String {
    match plan {
        KillPlan::Refuse { message } => message,
        _ => panic!("expected a refusal"),
    }
}

#[test]
fn kill_requests_refuse_critical_and_own_processes() {
    assert_eq!(refusal(kill_plan(None, None, true, 42, &procs())), "'name' or 'pid' is required");
    assert_eq!(refusal(kill_plan(None, Some(42), true, 42, &procs())), "refusing to kill own process");
    assert_eq!(
        refusal(kill_plan(None, Some(100), true, 42, &procs())),
        "refusing to kill system-critical process 'svchost.exe' (PID 100)"
    );
    assert_eq!(
        refusal(kill_plan(None, Some(4), true, 42, &procs())),
        "refusing to kill system-critical process 'System' (PID 4)"
    );
    assert_eq!(
        refusal(kill_plan(Some("SVCHOST"), None, true, 42, &procs())),
        "refusing to kill system-critical process 'SVCHOST'"
    );
    assert_eq!(refusal(kill_plan(Some("x"), None, true, 42, &Err("no list".to_string()))), "no list");
    match kill_plan(None, Some(200), false, 42, &procs()) {
        KillPlan::KillPid { pid, force } => {
            assert_eq!(pid, 200);
            assert!(!force);
        }
        _ => panic!("expected a kill by id"),
    }
    match kill_plan(Some("NOTEPAD"), None, true, 42, &procs()) {
        KillPlan::KillNamed { name, targets, force } => {
            assert_eq!(name, "NOTEPAD");
            assert_eq!(targets, vec![(200, "notepad.exe".to_string()), (300, "Notepad++.exe".to_string())]);
            assert!(force);
        }
        _ => panic!("expected a kill by name"),
    }
    match kill_plan(Some(".exe"), None, true, 42, &procs()) {
        KillPlan::KillNamed { targets, .. } => {
            assert_eq!(targets, vec![(200, "notepad.exe".to_string()), (300, "Notepad++.exe".to_string())]);
        }
        _ => panic!("expected a kill by name"),
    }
    match kill_plan(Some("chrome"), None, true, 42, &procs()) {
        KillPlan::Reply { text } => assert_eq!(text, "No process matching 'chrome' found"),
        _ => panic!("expected a reply"),
    }
}

#[test]
fn kill_replies() {
    assert_eq!(terminated_reply(7), "Terminated process PID 7");
    assert_eq!(killed_reply("np", 2, 2, &vec![]), "Killed 2/2 process(es) matching 'np'");
    let errors = vec![kill_error_line(3, "a.exe", "denied"), kill_error_line(4, "b.exe", "gone")];
    assert_eq!(
        killed_reply("x", 0, 2, &errors),
        "Killed 0/2 process(es) matching 'x'\nErrors: PID 3 (a.exe): denied; PID 4 (b.exe): gone"
    );
    assert_eq!(
        graceful_reply("np", 1, &vec!["PID 5 (np.exe): done".to_string()]),
        "Graceful kill for 1 process(es) matching 'np':\nPID 5 (np.exe): done"
    );
    assert_eq!(grace_period(None), 5000);
    assert_eq!(grace_period(Some(100)), 500);
    assert_eq!(grace_period(Some(60_000)), 15000);
    assert_eq!(grace_period(Some(-3)), 500);
    assert_eq!(graceful_outcome_reply(9, 500, &GracefulOutcome::NoWindows), "No windows for PID 9; force-terminated");
    assert_eq!(
        graceful_outcome_reply(9, 500, &GracefulOutcome::Exited { elapsed_ms: 200 }),
        "Process PID 9 exited gracefully after 200ms"
    );
    assert_eq!(
        graceful_outcome_reply(9, 500, &GracefulOutcome::Forced),
        "Process PID 9 did not exit within 500ms; force-terminated"
    );
    assert_eq!(
        graceful_outcome_reply(9, 500, &GracefulOutcome::ForceFailed { error: "denied".to_string() }),
        "Process PID 9 did not exit within 500ms; force-kill failed: denied"
    );
}

#[test]
fn file_tool_replies() {
    assert_eq!(read_reply("short".to_string()), "short");
    let long = "a".repeat(MAX_READ_SIZE + 5);
    assert_eq!(
        read_reply(long),
        format!("{}\n\n[Truncated: showing first 102400 of 102405 bytes]", "a".repeat(MAX_READ_SIZE))
    );
    assert_eq!(read_error_reply("x.txt", "not found"), "Error reading 'x.txt': not found");
    assert_eq!(written_reply(12, "/tmp/a"), "Written 12 bytes to /tmp/a");
    assert_eq!(python_reply("", ""), "Python script executed successfully (no output)");
    assert_eq!(python_reply("hi\n", ""), "hi\n");
    assert_eq!(python_reply("hi\n", "warn"), "hi\n\nStderr: warn");
    let listing = directory_listing(
        "/tmp/d",
        vec![
            DirEntryInfo { name: "zeta.txt".to_string(), size: 12, kind: EntryKind::File },
            DirEntryInfo { name: "Alpha".to_string(), size: 4096, kind: EntryKind::Dir },
            DirEntryInfo { name: "beta".to_string(), size: 0, kind: EntryKind::Unknown },
        ],
    );
    let expected = [
        "Directory listing: /tmp/d".to_string(),
        format!("{:<40} {:>10} {}", "Name", "Size", "Type"),
        "-".repeat(60),
        format!("{:<40} {:>10} {}", "Alpha", 4096, "<DIR>"),
        format!("{:<40} {:>10} {}", "beta", 0, "<?>"),
        format!("{:<40} {:>10} {}", "zeta.txt", 12, "<FILE>"),
    ]
    .join("\n");
    assert_eq!(listing, expected);
}
