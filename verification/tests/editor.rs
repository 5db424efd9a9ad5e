use pinkdown::dialog::{button_choice, dialog_choice, unsaved_subtitle, Choice};
use pinkdown::editor::{
    line_count, opened_status, saved_status, shortcuts, word_count, Confirmation, Effect,
    PendingAction, Shortcut, Workflow,
};
use std::path::PathBuf;

use pinkdown::update::{version_from_tag, PollResult, UpdateChecker, UpdateError, UpdateOutcome};

#[test]
fn confirmation_text_names_the_action() {
    assert_eq!(
        PendingAction::OpenPath(PathBuf::from("a.md")).confirmation_text(),
        "Save your changes before opening another document?"
    );
    assert_eq!(
        PendingAction::Close.confirmation_text(),
        "Save your changes before closing PinkDown?"
    );
    assert_eq!(
        PendingAction::Restart.confirmation_text(),
        "Save your changes before restarting to install the update?"
    );
}

#[test]
fn clean_documents_close_at_once() {
    let mut w = Workflow::new();
    let effects = w.check_close_request(true, false);
    assert_eq!(effects.len(), 2);
    assert!(matches!(effects[0], Effect::CancelClose));
    assert!(matches!(effects[1], Effect::Close));
    assert!(w.allow_close);
    assert!(w.check_close_request(true, false).is_empty());
}

#[test]
fn dirty_documents_ask_before_closing() {
    let mut w = Workflow::new();
    let effects = w.check_close_request(true, true);
    assert_eq!(effects.len(), 2);
    assert!(matches!(effects[1], Effect::CancelClose));
    assert!(matches!(w.pending, Some(PendingAction::Close)));
    assert!(!w.allow_close);
    let again = w.check_close_request(true, true);
    assert_eq!(again.len(), 1);
    assert!(matches!(w.confirm(Some(Confirmation::Discard), false), Effect::Close));
    assert!(w.allow_close);
    assert!(w.pending.is_none());
}

#[test]
fn cancel_and_failed_save_keep_the_document_open() {
    let mut w = Workflow::new();
    assert!(matches!(
        w.request_action(PendingAction::OpenPath(PathBuf::from("b.md")), true),
        Effect::CancelClose
    ));
    assert!(matches!(w.confirm(Some(Confirmation::Save), false), Effect::Nothing));
    assert!(w.pending.is_some());
    assert!(matches!(w.confirm(Some(Confirmation::Cancel), false), Effect::Nothing));
    assert!(w.pending.is_none());
    assert!(!w.allow_close);
}

#[test]
fn successful_save_opens_the_requested_document() {
    let mut w = Workflow::new();
    w.request_action(PendingAction::OpenPath(PathBuf::from("b.md")), true);
    match w.confirm(Some(Confirmation::Save), true) {
        Effect::Open(path) => assert_eq!(path, PathBuf::from("b.md")),
        _ => panic!("expected open"),
    }
    assert!(matches!(w.request_action(PendingAction::OpenDialog, false), Effect::PickFile));
}

#[test]
fn update_results_set_the_status() {
    let mut w = Workflow::new();
    let r = w.update_polled(PollResult::Pending, false);
    assert!(r.repaint_soon && r.status.is_none());
    let r = w.update_polled(PollResult::Ready(Err(UpdateError::new("offline".to_owned()))), false);
    assert_eq!(r.status.as_deref(), Some("Update failed: offline"));
    let v = version_from_tag("v1.2.3").unwrap();
    let r = w.update_polled(PollResult::Ready(Ok(UpdateOutcome::UpToDate(v))), false);
    assert_eq!(r.status.as_deref(), Some("PinkDown v1.2.3 is up to date"));
    let v = version_from_tag("v2.0.0").unwrap();
    let r = w.update_polled(PollResult::Ready(Ok(UpdateOutcome::ManualUpdate(v))), false);
    assert_eq!(r.status.as_deref(), Some("PinkDown v2.0.0 is available from GitHub Releases"));
    assert!(!w.update_staged);
}

#[test]
fn staged_update_requests_a_restart() {
    let mut w = Workflow::new();
    let v = version_from_tag("v2.0.0").unwrap();
    let r = w.update_polled(PollResult::Ready(Ok(UpdateOutcome::InstallReady(v))), true);
    assert_eq!(
        r.status.as_deref(),
        Some("PinkDown v2.0.0 is staged and will install when PinkDown closes")
    );
    assert!(matches!(r.effect, Effect::CancelClose));
    assert!(matches!(w.pending, Some(PendingAction::Restart)));
    assert!(w.update_staged);
    let mut checker = UpdateChecker::new();
    let (status, launch) = w.check_updates(&mut checker);
    assert_eq!(status.as_deref(), Some("The staged update will install when PinkDown closes"));
    assert!(!launch);
}

#[test]
fn available_release_is_offered_without_downloading() {
    let mut w = Workflow::new();
    let v = version_from_tag("v2.0.0").unwrap();
    let r = w.update_polled(
        PollResult::Ready(Ok(UpdateOutcome::Available { tag: "v2.0.0".to_owned(), version: v })),
        true,
    );
    assert_eq!(
        r.status.as_deref(),
        Some("PinkDown v2.0.0 is available; choose Update to download and install it")
    );
    assert!(matches!(r.effect, Effect::Nothing));
    assert!(!r.repaint_soon);
    assert!(!w.update_staged);
    assert!(w.pending.is_none());
    match &w.update_offer {
        Some((tag, version)) => {
            assert_eq!(tag, "v2.0.0");
            assert_eq!(version.text(), "2.0.0");
        }
        None => panic!("expected an offer"),
    }
}

#[test]
fn confirming_an_offer_hands_out_one_install() {
    let mut w = Workflow::new();
    let mut checker = UpdateChecker::new();
    assert!(w.confirm_update(&mut checker).is_none());
    assert!(!checker.running());
    let v = version_from_tag("v2.0.0").unwrap();
    w.update_polled(
        PollResult::Ready(Ok(UpdateOutcome::Available { tag: "v2.0.0".to_owned(), version: v })),
        false,
    );
    let job = w.confirm_update(&mut checker).unwrap();
    assert_eq!(job.tag, "v2.0.0");
    assert_eq!(job.version.text(), "2.0.0");
    assert_eq!(job.status, "Downloading PinkDown v2.0.0\u{2026}");
    assert!(w.update_offer.is_none());
    assert!(checker.running());
    assert!(w.confirm_update(&mut checker).is_none());
}

#[test]
fn an_offer_waits_while_a_job_runs() {
    let mut w = Workflow::new();
    let v = version_from_tag("v2.0.0").unwrap();
    w.update_polled(
        PollResult::Ready(Ok(UpdateOutcome::Available { tag: "v2.0.0".to_owned(), version: v })),
        false,
    );
    let mut checker = UpdateChecker::new();
    assert!(checker.start());
    assert!(w.confirm_update(&mut checker).is_none());
    assert!(w.update_offer.is_some());
    assert!(checker.running());
}

#[test]
fn check_updates_starts_one_check() {
    let w = Workflow::new();
    let mut checker = UpdateChecker::new();
    let (status, launch) = w.check_updates(&mut checker);
    assert_eq!(status.as_deref(), Some("Checking for updates\u{2026}"));
    assert!(launch);
    assert_eq!(w.check_updates(&mut checker), (None, false));
}

#[test]
fn status_texts_name_the_document() {
    assert_eq!(opened_status("a.md", "UTF-8"), "Opened a.md \u{b7} UTF-8");
    assert_eq!(saved_status("a.md"), "Saved a.md");
}

#[test]
fn words_and_lines_are_counted_like_the_standard_library() {
    for text in ["", "one", " two  words\t", "a\nb\n", "a\n\nb", "\n", "x\r\ny", "\u{3000}z\u{a0}w"] {
        assert_eq!(word_count(text), text.split_whitespace().count(), "{text:?}");
        assert_eq!(line_count(text), text.lines().count(), "{text:?}");
    }
}

#[test]
fn dialog_choices_follow_the_buttons_and_keys() {
    assert_eq!(button_choice(true, false, false), Some(Choice::Save));
    assert_eq!(button_choice(true, true, false), Some(Choice::Discard));
    assert_eq!(button_choice(true, true, true), Some(Choice::Cancel));
    assert_eq!(button_choice(false, false, false), None);
    assert_eq!(dialog_choice(Some(Choice::Discard), true, false), Some(Choice::Save));
    assert_eq!(dialog_choice(None, false, true), Some(Choice::Cancel));
    assert_eq!(dialog_choice(Some(Choice::Discard), false, true), Some(Choice::Discard));
    assert_eq!(dialog_choice(None, false, false), None);
    assert_eq!(
        unsaved_subtitle("notes.md"),
        "\u{201c}notes.md\u{201d} has edits not yet saved."
    );
}

#[test]
fn shortcuts_follow_the_modifiers() {
    assert_eq!(shortcuts(true, false, true, false), vec![Shortcut::Open]);
    assert_eq!(shortcuts(true, false, false, true), vec![Shortcut::Save]);
    assert_eq!(shortcuts(true, true, false, true), vec![Shortcut::SaveAs]);
    assert_eq!(shortcuts(true, true, true, true), vec![Shortcut::Open, Shortcut::SaveAs]);
    assert!(shortcuts(false, true, true, true).is_empty());
}
