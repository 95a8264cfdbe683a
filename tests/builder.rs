use crate_docs::builder::{failure_record, Action, Builder, Stage, Status};
use crate_docs::command::{CommandOutput, TaskError};
use crate_docs::cratesio::{Error, Metadata};
use crate_docs::db::{resolve_status, CrateStatus, Db, FAILURE_TTL};
use crate_docs::store::Store;

fn ok_output() -> Result<CommandOutput, String> {
    Ok(CommandOutput { code: Some(0), stdout: String::new(), stderr: String::new() })
}

fn status_name(s: &Status) -> &'static str {
    match s {
        Status::Pending => "pending",
        Status::Running => "running",
        Status::Succeeded(_) => "succeeded",
        Status::Failed(_) => "failed",
    }
}

/// Runs a build whose command at `failing` (if any) exits with `code` and
/// writes `stderr`; every other step succeeds. Returns the statuses seen.
fn drive(b: &mut Builder, failing: Option<Stage>, code: i32, stderr: &str) -> Vec<&'static str> {
    let mut seen = vec![status_name(&b.status)];
    let mut action = b.start();
    seen.push(status_name(&b.status));
    loop {
        action = match action {
            Action::Download { .. } => b.on_download(Ok(())),
            Action::Run(_) => {
                let out = if Some(b.stage) == failing {
                    Ok(CommandOutput { code: Some(code), stdout: String::new(), stderr: stderr.to_string() })
                } else {
                    ok_output()
                };
                b.on_command(out)
            },
            Action::Finished => break,
        };
        seen.push(status_name(&b.status));
    }
    seen
}

#[test]
fn successful_build_reports_downloaded() {
    let store = Store::new("/srv/docs".to_string());
    let mut db = Db::new();
    let krate = store.make_crate("widget", "1.0");
    assert_eq!(db.crate_status(&krate, "widget-1.0", false, 0), CrateStatus::Missing);
    assert_eq!(db.request_build(&krate, "widget-1.0", false, 0), CrateStatus::Missing);
    assert_eq!(db.crate_status(&krate, "widget-1.0", false, 1), CrateStatus::Downloading);

    let mut b = Builder::new("widget", "1.0", krate.duplicate());
    drive(&mut b, None, 0, "");
    match &b.status {
        Status::Succeeded(p) => assert_eq!(p, "/srv/docs/widget/1.0"),
        _ => panic!("expected success"),
    }
    db.finish_build(&b, 2);
    assert!(!db.is_build_in_progress(&krate));
    assert_eq!(db.crate_status(&krate, "widget-1.0", true, 3), CrateStatus::Downloaded);
}

#[test]
fn generate_failure_is_remembered() {
    let store = Store::new("/srv/docs".to_string());
    let mut db = Db::new();
    let krate = store.make_crate("widget", "1.0");
    assert_eq!(db.request_build(&krate, "widget-1.0", false, 10), CrateStatus::Missing);
    let mut b = Builder::new("widget", "1.0", krate.duplicate());
    drive(&mut b, Some(Stage::Document), 1, "syntax error");
    assert!(matches!(b.status, Status::Failed(TaskError::Command(Some(1), _, _))));
    assert_eq!(b.stage, Stage::Done);
    db.finish_build(&b, 10);
    assert!(!db.is_build_in_progress(&krate));
    let f = db.get_failed("widget-1.0", 10 + FAILURE_TTL - 1).unwrap();
    assert_eq!(f.code, 1);
    assert_eq!(f.message, "syntax error");
    assert_eq!(db.crate_status(&krate, "widget-1.0", false, 20), CrateStatus::Failed);
    assert!(db.get_failed("widget-1.0", 10 + FAILURE_TTL).is_none());
}

#[test]
fn concurrent_requests_start_one_build() {
    let store = Store::new("/srv/docs".to_string());
    let mut db = Db::new();
    let krate = store.make_crate("widget", "2.0");
    let first = db.request_build(&krate, "widget-2.0", false, 0);
    let second = db.request_build(&krate, "widget-2.0", false, 0);
    assert_eq!(first, CrateStatus::Missing);
    assert_eq!(second, CrateStatus::Downloading);
    assert_eq!(db.builds_in_progress.len(), 1);
}

#[test]
fn statuses_only_move_forward() {
    let mut b = Builder::new("widget", "1.0", Store::new("d".to_string()).make_crate("widget", "1.0"));
    let seen = drive(&mut b, None, 0, "");
    assert_eq!(seen[0], "pending");
    assert_eq!(*seen.last().unwrap(), "succeeded");
    assert!(seen[1..seen.len() - 1].iter().all(|s| *s == "running"));

    let mut b = Builder::new("widget", "1.0", Store::new("d".to_string()).make_crate("widget", "1.0"));
    let seen = drive(&mut b, Some(Stage::MakeDir), 2, "no space");
    assert_eq!(*seen.last().unwrap(), "failed");
    assert!(seen[1..seen.len() - 1].iter().all(|s| *s == "running"));
}

#[test]
fn failed_stage_skips_to_cleanup() {
    let dest = Store::new("d".to_string()).make_crate("widget", "1.0");
    let mut b = Builder::new("widget", "1.0", dest);
    b.start();
    let a = b.on_download(Err(TaskError::DownloadRequest));
    assert_eq!(b.stage, Stage::Cleanup);
    match a {
        Action::Run(c) => assert_eq!(c.program, "rm"),
        _ => panic!("expected cleanup"),
    }
    // a failing cleanup does not hide the real outcome
    let done = b.on_command(Err("rm missing".to_string()));
    assert!(matches!(done, Action::Finished));
    assert!(matches!(b.status, Status::Failed(TaskError::DownloadRequest)));
}

#[test]
fn build_places_output_before_cleanup() {
    let dest = Store::new("d".to_string()).make_crate("widget", "1.0");
    let mut b = Builder::new("widget", "1.0", dest);
    let mut programs = vec![];
    let mut action = b.start();
    loop {
        action = match action {
            Action::Download { url, dest } => {
                assert!(url.ends_with("/widget/widget-1.0.crate"));
                assert_eq!(dest, b.temp_crate.crate_path);
                b.on_download(Ok(()))
            },
            Action::Run(c) => {
                programs.push(c.program.clone());
                if c.program == "cp" {
                    assert_eq!(c.args, vec!["-r".to_string(), format!("{}/target/doc/", b.temp_crate.path), "d/widget/1.0".to_string()]);
                }
                b.on_command(ok_output())
            },
            Action::Finished => break,
        };
    }
    assert_eq!(programs, vec!["mkdir", "tar", "/bin/sh", "mkdir", "cp", "rm"]);
}

#[test]
fn failure_record_of_each_error() {
    let f = failure_record(&TaskError::Command(Some(1), "  ".to_string(), "syntax error\n".to_string()));
    assert_eq!(f.code, 1);
    assert_eq!(f.message, "syntax error");
    let f = failure_record(&TaskError::Command(None, "a".to_string(), "b".to_string()));
    assert_eq!(f.code, -1);
    assert_eq!(f.message, "a\nb");
    let f = failure_record(&TaskError::DownloadResponse);
    assert_eq!(f.code, -1);
    assert_eq!(f.message, "Unknown reason");
    let f = failure_record(&TaskError::CommandExecute("x".to_string()));
    assert_eq!(f.message, "Unknown reason");
}

#[test]
fn resolver_covers_every_reachable_combination() {
    assert_eq!(resolve_status(false, false, true), CrateStatus::Failed);
    assert_eq!(resolve_status(false, false, false), CrateStatus::Missing);
    assert_eq!(resolve_status(false, true, false), CrateStatus::Downloading);
    assert_eq!(resolve_status(false, true, true), CrateStatus::Downloading);
    assert_eq!(resolve_status(true, false, false), CrateStatus::Downloaded);
    assert_eq!(resolve_status(true, false, true), CrateStatus::Downloaded);
    assert_eq!(CrateStatus::Downloading.as_str(), "downloading");
    assert_eq!(CrateStatus::Failed.as_str(), "failed");
}

#[test]
fn failure_round_trip() {
    let mut db = Db::new();
    let f = failure_record(&TaskError::Command(Some(3), "out".to_string(), "err".to_string()));
    assert!(db.set_failed("widget-1.0", f.duplicate(), 100).is_ok());
    let back = db.get_failed("widget-1.0", 100).unwrap();
    assert_eq!(back.code, f.code);
    assert_eq!(back.message, f.message);
    assert!(db.get_failed("widget-2.0", 100).is_none());
}

#[test]
fn metadata_fetched_once_per_ttl() {
    let mut db = Db::new();
    let mut calls = 0;
    let mut get = |db: &mut Db, now: u64, calls: &mut i32| {
        db.get_crate("widget", || {
            *calls += 1;
            Ok(Metadata { versions: vec!["1.0".to_string()] })
        }, Some(300), now)
    };
    assert_eq!(get(&mut db, 1000, &mut calls).unwrap().versions, vec!["1.0"]);
    assert_eq!(get(&mut db, 1299, &mut calls).unwrap().versions, vec!["1.0"]);
    assert_eq!(calls, 1);
    assert_eq!(get(&mut db, 1300, &mut calls).unwrap().versions, vec!["1.0"]);
    assert_eq!(calls, 2);
}

#[test]
fn metadata_errors_are_not_cached() {
    let mut db = Db::new();
    let r = db.get_crate("widget", || Err(Error("down".to_string())), Some(300), 0);
    assert_eq!(r.unwrap_err().0, "down");
    let r = db.get_crate("widget", || Ok(Metadata { versions: vec![] }), None, 1);
    assert!(r.is_ok());
    // without a time-to-live the value stays
    let r = db.get_crate("widget", || Err(Error("unused".to_string())), None, u64::MAX);
    assert!(r.is_ok());
}

#[test]
fn registry_add_and_remove_builds() {
    let store = Store::new("d".to_string());
    let mut db = Db::new();
    let b = Builder::new("widget", "1.0", store.make_crate("widget", "1.0"));
    db.add_build_in_progress(&b);
    db.add_build_in_progress(&b);
    assert!(db.is_build_in_progress(&store.make_crate("widget", "1.0")));
    assert!(!db.is_build_in_progress(&store.make_crate("widget", "2.0")));
    db.remove_build_in_progress(&b);
    assert!(!db.is_build_in_progress(&store.make_crate("widget", "1.0")));
}

#[test]
fn setting_a_key_again_replaces_its_entry() {
    let mut db = Db::new();
    let first = failure_record(&TaskError::DownloadRequest);
    let second = failure_record(&TaskError::Command(Some(4), "late".to_string(), String::new()));
    assert!(db.set_failed("widget-1.0", first, 0).is_ok());
    assert!(db.set_failed("other-1.0", failure_record(&TaskError::DownloadResponse), 0).is_ok());
    assert!(db.set_failed("widget-1.0", second, 5).is_ok());
    assert_eq!(db.failures.entries.len(), 2);
    let f = db.get_failed("widget-1.0", 6).unwrap();
    assert_eq!(f.code, 4);
    assert_eq!(f.message, "late");
    assert_eq!(db.get_failed("other-1.0", 6).unwrap().code, -1);
}
