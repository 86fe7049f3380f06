//! The machine behind a driver, as an application would run it: each request
//! is carried out by a scripted outside, and the answer is handed back.

use todome_updater::{start, step, Dialog, DialogKind, Event, Phase, Request, UpdateInfo};

/// What the scripted outside answers, and what it was asked to do.
struct Outside {
    handle: Result<(), String>,
    check: Result<Option<UpdateInfo>, String>,
    answer: bool,
    chunks: usize,
    install: Result<(), String>,
    calls: Vec<String>,
    shown: Vec<Dialog>,
    logged: Vec<String>,
}

impl Outside {
    fn new() -> Outside {
        Outside {
            handle: Ok(()),
            check: Ok(None),
            answer: false,
            chunks: 0,
            install: Ok(()),
            calls: Vec::new(),
            shown: Vec::new(),
            logged: Vec::new(),
        }
    }

    fn offering(version: &str, body: Option<&str>) -> Outside {
        let mut outside = Outside::new();
        outside.check = Ok(Some(UpdateInfo {
            version: version.to_string(),
            body: body.map(|notes| notes.to_string()),
        }));
        outside
    }
}

/// Runs one update check against `outside` and returns the phase it ended in.
fn drive(outside: &mut Outside) -> Phase {
    let mut taken = start();
    loop {
        if let Some(failure) = &taken.failure {
            outside.logged.push(failure.log_line());
        }
        let Some(request) = taken.request else {
            break;
        };
        let phase = taken.next;
        let event = match request {
            Request::AcquireUpdater => {
                outside.calls.push("updater".to_string());
                match outside.handle.clone() {
                    Ok(()) => Event::UpdaterReady,
                    Err(e) => Event::UpdaterUnavailable(e),
                }
            }
            Request::CheckForUpdate => {
                outside.calls.push("check".to_string());
                match outside.check.clone() {
                    Ok(Some(info)) => Event::UpdateAvailable(info),
                    Ok(None) => Event::UpToDate,
                    Err(e) => Event::CheckFailed(e),
                }
            }
            Request::Confirm(dialog) => {
                outside.calls.push("confirm".to_string());
                outside.shown.push(dialog);
                Event::Answered(outside.answer)
            }
            Request::Install => {
                outside.calls.push("download_and_install".to_string());
                for n in 0..outside.chunks {
                    let ignored = step(phase, Event::ChunkReceived { len: 1024 * (n + 1), total: None });
                    assert_eq!(ignored.next, phase);
                    assert!(ignored.failure.is_none() && ignored.request.is_none());
                }
                if outside.chunks > 0 {
                    let ignored = step(phase, Event::DownloadFinished);
                    assert_eq!(ignored.next, phase);
                    assert!(ignored.failure.is_none() && ignored.request.is_none());
                }
                match outside.install.clone() {
                    Ok(()) => Event::Installed,
                    Err(e) => Event::InstallFailed(e),
                }
            }
            Request::Alert(dialog) => {
                outside.calls.push("alert".to_string());
                outside.shown.push(dialog);
                break;
            }
        };
        taken = step(phase, event);
    }
    taken.next
}

#[test]
fn driver_without_handle_shows_nothing() {
    let mut outside = Outside::new();
    outside.handle = Err("updater plugin missing".to_string());
    assert_eq!(drive(&mut outside), Phase::Done);
    assert_eq!(outside.calls, vec!["updater"]);
    assert!(outside.shown.is_empty());
    assert_eq!(outside.logged, vec!["[updater] init failed: updater plugin missing"]);
}

#[test]
fn driver_up_to_date_shows_nothing() {
    let mut outside = Outside::new();
    assert_eq!(drive(&mut outside), Phase::Done);
    assert_eq!(outside.calls, vec!["updater", "check"]);
    assert!(outside.shown.is_empty());
    assert!(outside.logged.is_empty());
}

#[test]
fn driver_check_failure_is_only_logged() {
    let mut outside = Outside::new();
    outside.check = Err("dns error".to_string());
    assert_eq!(drive(&mut outside), Phase::Done);
    assert_eq!(outside.calls, vec!["updater", "check"]);
    assert!(outside.shown.is_empty());
    assert_eq!(outside.logged, vec!["[updater] check failed: dns error"]);
}

#[test]
fn driver_confirms_once_before_installing() {
    let mut outside = Outside::offering("1.2.0", Some("Bug fixes"));
    outside.answer = true;
    assert_eq!(drive(&mut outside), Phase::Done);
    assert_eq!(outside.calls, vec!["updater", "check", "confirm", "download_and_install"]);
    assert_eq!(outside.shown.len(), 1);
    assert_eq!(outside.shown[0].kind, DialogKind::Info);
    assert!(outside.shown[0].message.contains("1.2.0"));
    assert!(outside.shown[0].message.contains("Bug fixes"));
    assert!(outside.logged.is_empty());
}

#[test]
fn driver_declined_does_not_install() {
    let mut outside = Outside::offering("1.2.0", Some("Bug fixes"));
    outside.answer = false;
    outside.install = Err("must not be reached".to_string());
    assert_eq!(drive(&mut outside), Phase::Done);
    assert_eq!(outside.calls, vec!["updater", "check", "confirm"]);
    assert_eq!(outside.shown.len(), 1);
    assert!(outside.logged.is_empty());
}

#[test]
fn driver_failed_install_is_logged_then_shown() {
    let mut outside = Outside::offering("1.2.0", None);
    outside.answer = true;
    outside.install = Err("signature mismatch".to_string());
    assert_eq!(drive(&mut outside), Phase::Done);
    assert_eq!(
        outside.calls,
        vec!["updater", "check", "confirm", "download_and_install", "alert"]
    );
    assert_eq!(outside.logged, vec!["[updater] install failed: signature mismatch"]);
    assert_eq!(outside.shown.len(), 2);
    assert_eq!(outside.shown[1].kind, DialogKind::Error);
    assert_eq!(outside.shown[1].title, "エラー");
    assert_eq!(outside.shown[1].message, "アップデートに失敗しました:\nsignature mismatch");
}

#[test]
fn driver_outcome_does_not_depend_on_progress_reports() {
    for install in [Ok(()), Err("signature mismatch".to_string())] {
        let mut quiet = Outside::offering("1.2.0", Some("Bug fixes"));
        quiet.answer = true;
        quiet.install = install.clone();
        let quiet_end = drive(&mut quiet);
        for chunks in [1usize, 2, 500] {
            let mut noisy = Outside::offering("1.2.0", Some("Bug fixes"));
            noisy.answer = true;
            noisy.install = install.clone();
            noisy.chunks = chunks;
            assert_eq!(drive(&mut noisy), quiet_end);
            assert_eq!(noisy.calls, quiet.calls);
            assert_eq!(noisy.shown, quiet.shown);
            assert_eq!(noisy.logged, quiet.logged);
        }
    }
}
