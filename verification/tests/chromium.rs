use pinkdown::export::chromium::{
    browser_arguments, browser_candidates, browser_names_on_path, check_pdf_header,
    find_chromium_browser, no_browser_message, no_pdf_message, pdf_size_step, print_outcome,
    wait_step, which_output_path, BrowserChoice, ChildPoll, WaitStep,
};
use pinkdown::platform::Platform;

#[test]
fn windows_candidates_join_each_root_with_each_browser() {
    let paths = browser_candidates(
        Platform::Windows,
        Some("D:\\Apps".to_owned()),
        None,
        Some("C:\\Users\\me\\AppData\\Local".to_owned()),
    );
    assert_eq!(paths.len(), 12);
    assert_eq!(paths[0].base, "D:\\Apps");
    assert_eq!(paths[0].tail, vec!["Microsoft\\Edge\\Application\\msedge.exe".to_owned()]);
    assert_eq!(paths[4].base, "C:\\Users\\me\\AppData\\Local");
    assert_eq!(paths[4].tail, vec!["Google\\Chrome\\Application\\chrome.exe".to_owned()]);
    assert_eq!(paths[11].base, "C:\\Program Files (x86)");
    assert_eq!(paths[11].tail, vec!["Chromium\\Application\\chrome.exe".to_owned()]);
}

#[test]
fn unix_and_mac_candidates_are_fixed_paths() {
    let linux = browser_candidates(Platform::Linux, None, None, None);
    assert_eq!(linux.len(), 7);
    assert_eq!(linux[0].base, "/usr/bin/google-chrome-stable");
    assert!(linux[0].tail.is_empty());
    assert_eq!(linux[6].base, "/snap/bin/chromium");
    let mac = browser_candidates(Platform::MacOs, Some("ignored".to_owned()), None, None);
    assert_eq!(mac.len(), 4);
    assert_eq!(mac[1].base, "/Applications/Microsoft Edge.app/Contents/MacOS/Microsoft Edge");
    assert!(browser_candidates(Platform::Other, None, None, None).is_empty());
}

#[test]
fn browser_names_depend_on_the_platform() {
    assert_eq!(browser_names_on_path(Platform::Windows), vec!["msedge", "chrome", "chromium"]);
    assert_eq!(browser_names_on_path(Platform::OtherUnix).len(), 6);
    assert!(browser_names_on_path(Platform::Other).is_empty());
}

#[test]
fn installed_browsers_are_preferred_over_path_lookups() {
    assert_eq!(
        find_chromium_browser(&vec![false, true, true], &vec![true]),
        Some(BrowserChoice::Candidate(1))
    );
    assert_eq!(
        find_chromium_browser(&vec![false, false], &vec![false, true, true]),
        Some(BrowserChoice::OnPath(1))
    );
    assert_eq!(find_chromium_browser(&vec![false], &vec![false]), None);
}

#[test]
fn which_output_uses_the_first_trimmed_line() {
    assert_eq!(
        which_output_path("  /usr/bin/chromium \r\n/other\n").as_deref(),
        Some("/usr/bin/chromium")
    );
    assert_eq!(which_output_path(""), None);
    assert_eq!(which_output_path("   \n/usr/bin/chromium\n"), None);
}

#[test]
fn pdf_header_must_start_with_the_pdf_magic() {
    assert!(check_pdf_header(b"%PDF-").is_ok());
    assert!(check_pdf_header(b"%PDF").is_ok());
    assert_eq!(
        check_pdf_header(b"%PD").unwrap_err(),
        "Could not export PDF: browser wrote an invalid PDF."
    );
    assert!(check_pdf_header(b"<html").is_err());
}

#[test]
fn pdf_is_checked_once_its_size_settles() {
    assert_eq!(pdf_size_step(None, 0), (None, false));
    assert_eq!(pdf_size_step(None, 10), (Some(10), false));
    assert_eq!(pdf_size_step(Some(10), 20), (Some(20), false));
    assert_eq!(pdf_size_step(Some(20), 20), (Some(20), true));
    assert_eq!(pdf_size_step(Some(20), 0), (Some(20), false));
    assert_eq!(no_pdf_message(), "Could not export PDF: browser did not produce a PDF file.");
}

#[test]
fn waiting_for_the_browser_reports_exit_codes_and_timeouts() {
    assert!(matches!(
        wait_step(ChildPoll::Exited { success: true, code: Some(0) }, true),
        WaitStep::Finished(Ok(()))
    ));
    match wait_step(ChildPoll::Exited { success: false, code: Some(-3) }, false) {
        WaitStep::Finished(Err(e)) => assert_eq!(e, "exit code -3"),
        _ => panic!("expected failure"),
    }
    match wait_step(ChildPoll::Exited { success: false, code: None }, false) {
        WaitStep::Finished(Err(e)) => assert_eq!(e, "exit code -1"),
        _ => panic!("expected failure"),
    }
    match wait_step(ChildPoll::Running, true) {
        WaitStep::Kill(e) => assert_eq!(e, "timed out"),
        _ => panic!("expected kill"),
    }
    assert!(matches!(wait_step(ChildPoll::Running, false), WaitStep::Sleep));
    match wait_step(ChildPoll::Failed("io".to_owned()), false) {
        WaitStep::Finished(Err(e)) => assert_eq!(e, "io"),
        _ => panic!("expected failure"),
    }
}

#[test]
fn browser_is_started_headless_with_a_private_profile() {
    let args = browser_arguments("/tmp/p", "/tmp/out.pdf", "file:///tmp/in.html");
    assert_eq!(args.len(), 10);
    assert_eq!(args[0], "--headless=new");
    assert_eq!(args[1], "--user-data-dir=/tmp/p");
    assert_eq!(args[8], "--print-to-pdf=/tmp/out.pdf");
    assert_eq!(args[9], "file:///tmp/in.html");
}

#[test]
fn print_outcome_prefers_a_valid_pdf() {
    assert!(print_outcome(Ok(()), Err("timed out".to_owned())).is_ok());
    assert_eq!(print_outcome(Err("bad".to_owned()), Ok(())).unwrap_err(), "bad");
    assert_eq!(
        print_outcome(Err("bad".to_owned()), Err("timed out".to_owned())).unwrap_err(),
        "Could not export PDF: browser print failed (timed out). Try exporting HTML instead."
    );
    assert!(no_browser_message().starts_with("Could not export PDF: no Chromium-based browser"));
}
