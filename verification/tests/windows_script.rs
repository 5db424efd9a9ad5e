use pinkdown::update::windows::{handoff_decision, update_script, updater_file_names, Handoff, HandoffProbe};
use pinkdown::update::windows_update_script;

#[test]
fn update_installer_script_waits_then_runs_setup_in_the_existing_directory() {
    let script = windows_update_script(
        42,
        "pinkdown-setup.exe",
        "current.exe",
        "ready",
        "error.log",
        "update.ps1",
    );
    assert!(script.contains("Set-Content -LiteralPath $ready"));
    assert!(script.contains("Wait-Process -Id $parentId"));
    assert!(script.contains("Start-Process -FilePath $installer"));
    assert!(script.contains("'/DIR=\"' + $installDir + '\"'"));
    assert!(script.contains("if ($setup.ExitCode -ne 0)"));
    assert!(script.contains("Start-Process -FilePath $current"));
    assert!(script.contains("Set-Content -LiteralPath $log"));
}

#[test]
fn windows_installer_script_waits_then_runs_setup_in_the_existing_directory() {
    let script = update_script(
        42,
        "pinkdown-setup.exe",
        "current.exe",
        "ready",
        "error.log",
        "update.ps1",
    );
    assert!(script.contains("Set-Content -LiteralPath $ready"));
    assert!(script.contains("Wait-Process -Id $parentId"));
    assert!(script.contains("Start-Process -FilePath $installer"));
    assert!(script.contains("'/DIR=\"' + $installDir + '\"'"));
    assert!(script.contains("if ($setup.ExitCode -ne 0)"));
    assert!(script.contains("Start-Process -FilePath $current"));
    assert!(script.contains("Set-Content -LiteralPath $log"));
}

#[test]
fn update_script_header_names_the_process_and_quotes_paths() {
    let script = update_script(42, "C:\\it's\\setup.exe", "a", "b", "c", "d");
    let lines: Vec<&str> = script.lines().collect();
    assert_eq!(lines[0], "$ErrorActionPreference = 'Stop'");
    assert_eq!(lines[1], "$parentId = 42");
    assert_eq!(lines[2], "$installer = 'C:\\it''s\\setup.exe'");
    assert_eq!(lines[3], "$current = 'a'");
    assert_eq!(lines[4], "$installDir = Split-Path -Parent $current");
    assert_eq!(lines[7], "$script = 'd'");
    assert_eq!(lines[8], "try {");
    assert_eq!(*lines.last().unwrap(), "}");
    assert_eq!(lines.len(), 26);
}

#[test]
fn quoted_path_reads_back_after_undoubling() {
    let path = "O'Brien's ''files''";
    let script = update_script(1, path, "c", "r", "l", "s");
    let line = script.lines().nth(2).unwrap();
    let quoted = line.strip_prefix("$installer = ").unwrap();
    let body = &quoted[1..quoted.len() - 1];
    assert_eq!(body.replace("''", "'"), path);
}

#[test]
fn updater_files_are_named_after_the_process() {
    let (script, ready, log) = updater_file_names(1234);
    assert_eq!(script, "pinkdown-update-1234.ps1");
    assert_eq!(ready, "pinkdown-update-1234.ready");
    assert_eq!(log, "pinkdown-update-1234.log");
}

#[test]
fn handoff_decisions_follow_the_updater() {
    assert!(matches!(handoff_decision(Some(HandoffProbe::Ready), "l"), Handoff::Acknowledged));
    assert!(matches!(handoff_decision(Some(HandoffProbe::Running), "l"), Handoff::Wait));
    match handoff_decision(Some(HandoffProbe::Exited), "C:\\tmp\\u.log") {
        Handoff::Failed(e) => {
            assert_eq!(e.message(), "Updater exited before handoff; see C:\\tmp\\u.log")
        }
        _ => panic!("expected failure"),
    }
    match handoff_decision(Some(HandoffProbe::InspectFailed("denied".to_owned())), "l") {
        Handoff::Failed(e) => assert_eq!(e.message(), "Could not inspect updater: denied"),
        _ => panic!("expected failure"),
    }
    match handoff_decision(None, "l") {
        Handoff::TimedOut(e) => assert_eq!(e.message(), "Updater did not acknowledge the handoff"),
        _ => panic!("expected timeout"),
    }
}
