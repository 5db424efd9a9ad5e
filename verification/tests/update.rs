use pinkdown::platform::Platform;
use pinkdown::update::release::{
    download_file_name, expected_checksum, release_urls, sha256_hex, verify_download,
};
use pinkdown::update::{
    authorization_header, bearer_authorization, check_for_update, github_api_error, github_request_error,
    github_token_from, select_latest_tag, version_from_tag, PollResult, Received, UpdateChecker,
    UpdateError, UpdateOutcome,
};
use semver::Version;

#[test]
fn selects_highest_semantic_version_and_ignores_other_tags() {
    let tags = ["nightly", "v1.9.0", "v2.0.0-beta.1", "v1.10.0"].map(str::to_owned).to_vec();
    let (tag, version) = select_latest_tag(&tags).unwrap();
    assert_eq!(tag, "v2.0.0-beta.1");
    assert_eq!(*version.semver(), Version::parse("2.0.0-beta.1").unwrap());
}

#[test]
fn rejects_a_tag_set_without_semantic_versions() {
    let error = select_latest_tag(&vec!["latest".to_owned()]).unwrap_err();
    assert_eq!(error.message(), "No semantic-version tags found on GitHub");
}

#[test]
fn select_latest_tag_prefers_the_last_of_equal_versions() {
    let tags = vec!["v1.2.0".to_owned(), "1.2.0".to_owned(), "v1.1.0".to_owned()];
    let (tag, version) = select_latest_tag(&tags).unwrap();
    assert_eq!(tag, "1.2.0");
    assert_eq!(version.text(), "1.2.0");
}

#[test]
fn select_latest_tag_of_an_empty_list_fails() {
    assert!(select_latest_tag(&Vec::new()).is_err());
}

#[test]
fn version_from_tag_strips_every_leading_v() {
    let version = version_from_tag("vv3.1.4").unwrap();
    assert_eq!(version.text(), "3.1.4");
    assert_eq!(*version.semver(), Version::parse("3.1.4").unwrap());
    let error = version_from_tag("v1.x").unwrap_err();
    assert_eq!(error, Version::parse("1.x").unwrap_err().to_string());
}

#[test]
fn github_token_prefers_github_token_over_gh_token() {
    let token = github_token_from(Some("primary".to_owned()), Some("secondary".to_owned()));
    assert_eq!(token.as_deref(), Some("primary"));
}

#[test]
fn github_token_falls_back_to_gh_token() {
    let token = github_token_from(None, Some("secondary".to_owned()));
    assert_eq!(token.as_deref(), Some("secondary"));
}

#[test]
fn github_token_ignores_blank_values() {
    assert_eq!(github_token_from(Some(String::new()), Some(String::new())), None);
    assert_eq!(github_token_from(Some("  ".to_owned()), Some("  ".to_owned())), None);
}

#[test]
fn github_token_trims_whitespace_around_the_value() {
    assert_eq!(
        github_token_from(Some("  secret-token\n".to_owned()), Some("  secret-token\n".to_owned()))
            .as_deref(),
        Some("secret-token")
    );
}

#[test]
fn github_token_is_none_without_env_vars() {
    assert_eq!(github_token_from(None, None), None);
}

#[test]
fn blank_github_token_does_not_fall_back() {
    assert_eq!(github_token_from(Some(" \t".to_owned()), Some("secondary".to_owned())), None);
}

#[test]
fn rate_limited_api_errors_explain_the_token_fix() {
    let error = github_api_error(403, r#"{"message":"API rate limit exceeded for 1.2.3.4"}"#);
    assert!(error.message().contains("GITHUB_TOKEN"));
    assert!(github_api_error(429, "API rate limit exceeded")
        .message()
        .contains("GITHUB_TOKEN"));
}

#[test]
fn non_rate_limit_api_errors_report_the_status() {
    let error = github_api_error(404, "Not Found");
    assert_eq!(error.message(), "GitHub API returned status 404: Not Found");
}

#[test]
fn api_errors_without_a_body_report_only_the_status() {
    assert_eq!(github_api_error(403, "").message(), "GitHub API returned status 403");
}

#[test]
fn rate_limit_text_with_another_status_is_reported_verbatim() {
    assert_eq!(
        github_api_error(500, "rate limit").message(),
        "GitHub API returned status 500: rate limit"
    );
    assert_eq!(github_api_error(7, " \n").message(), "GitHub API returned status 7");
}

#[test]
fn request_errors_explain_rate_limits_and_report_other_failures() {
    assert!(github_request_error(Some(429), "rate limit", "x").message().contains("GH_TOKEN"));
    assert_eq!(
        github_request_error(Some(404), "Not Found", "status code 404").message(),
        "Could not contact GitHub: status code 404"
    );
    assert_eq!(
        github_request_error(None, "", "dns failure").message(),
        "Could not contact GitHub: dns failure"
    );
}

#[test]
fn bearer_authorization_carries_the_token() {
    assert_eq!(bearer_authorization("secret-token"), "Bearer secret-token");
}

#[test]
fn update_error_keeps_its_message() {
    assert_eq!(UpdateError::new("boom".to_owned()).message(), "boom");
}

#[test]
fn newer_release_is_offered_on_windows_and_is_manual_elsewhere() {
    let latest = version_from_tag("v2.0.0").unwrap();
    match check_for_update("v2.0.0".to_owned(), latest, "1.9.9", Platform::Windows).unwrap() {
        UpdateOutcome::Available { tag, version } => {
            assert_eq!(tag, "v2.0.0");
            assert_eq!(version.text(), "2.0.0");
        }
        _ => panic!("expected an offer"),
    }
    let latest = version_from_tag("v2.0.0").unwrap();
    match check_for_update("v2.0.0".to_owned(), latest, "1.9.9", Platform::Linux).unwrap() {
        UpdateOutcome::ManualUpdate(v) => assert_eq!(v.text(), "2.0.0"),
        _ => panic!("expected a manual update"),
    }
    let latest = version_from_tag("v2.0.0").unwrap();
    assert!(matches!(
        check_for_update("v2.0.0".to_owned(), latest, "1.9.9", Platform::MacOs).unwrap(),
        UpdateOutcome::ManualUpdate(_)
    ));
}

#[test]
fn same_or_older_release_is_up_to_date() {
    let latest = version_from_tag("v1.0.0").unwrap();
    match check_for_update("v1.0.0".to_owned(), latest, "1.0.0", Platform::Windows).unwrap() {
        UpdateOutcome::UpToDate(v) => assert_eq!(v.text(), "1.0.0"),
        _ => panic!("expected up to date"),
    }
    let latest = version_from_tag("v1.0.0-rc.1").unwrap();
    assert!(matches!(
        check_for_update("v1.0.0-rc.1".to_owned(), latest, "1.0.0", Platform::MacOs).unwrap(),
        UpdateOutcome::UpToDate(_)
    ));
}

#[test]
fn invalid_current_version_is_reported() {
    let latest = version_from_tag("v1.0.0").unwrap();
    let error = check_for_update("v1.0.0".to_owned(), latest, "one", Platform::Linux).err().unwrap();
    assert!(error.message().starts_with("Invalid current version: "));
}

#[test]
fn checker_runs_one_check_at_a_time() {
    let mut checker = UpdateChecker::new();
    assert!(matches!(checker.poll(Received::Empty), PollResult::Idle));
    assert!(checker.start());
    assert!(!checker.start());
    assert!(matches!(checker.poll(Received::Empty), PollResult::Pending));
    match checker.poll(Received::Disconnected) {
        PollResult::Ready(Err(e)) => assert_eq!(e.message(), "Update check did not complete"),
        _ => panic!("expected a failure"),
    }
    assert!(!checker.running());
    assert!(checker.start());
    let latest = version_from_tag("1.0.0").unwrap();
    let result = Ok(UpdateOutcome::ManualUpdate(latest));
    assert!(matches!(checker.poll(Received::Message(result)), PollResult::Ready(Ok(_))));
    assert!(matches!(checker.poll(Received::Empty), PollResult::Idle));
}

#[test]
fn release_urls_point_at_the_windows_installer() {
    let (asset, checksum) = release_urls("v1.2.3");
    assert_eq!(
        asset,
        "https://github.com/3xian/PinkDown/releases/download/v1.2.3/pinkdown-windows-x64-setup.exe"
    );
    assert_eq!(checksum, format!("{asset}.sha256"));
    assert_eq!(download_file_name("v1.2.3", 77), "pinkdown-v1.2.3-77-setup.exe");
}

#[test]
fn expected_checksum_reads_the_first_word_in_lowercase() {
    let sum = "AB".repeat(32);
    let text = format!("  {sum}  pinkdown-windows-x64-setup.exe\n");
    assert_eq!(expected_checksum(&text).unwrap(), "ab".repeat(32));
}

#[test]
fn expected_checksum_rejects_missing_or_malformed_sums() {
    let message = "Release checksum is missing or invalid";
    assert_eq!(expected_checksum("").unwrap_err().message(), message);
    assert_eq!(expected_checksum("abc").unwrap_err().message(), message);
    assert_eq!(expected_checksum(&"g".repeat(64)).unwrap_err().message(), message);
    assert_eq!(expected_checksum(&"a".repeat(65)).unwrap_err().message(), message);
}

#[test]
fn authorization_header_only_with_a_token() {
    assert_eq!(authorization_header(Some("t")).as_deref(), Some("Bearer t"));
    assert_eq!(authorization_header(None), None);
}

#[test]
fn sha256_hex_is_sixty_four_digits() {
    assert_eq!(sha256_hex(b"").len(), 64);
    assert_eq!(sha256_hex(&[7u8; 1000]).len(), 64);
}

#[test]
fn sha256_hex_matches_the_known_digest() {
    assert_eq!(
        sha256_hex(b"abc"),
        "ba7816bf8f01cfea414140de5dae2223b00361a396177a9cb410ff61f20015ad"
    );
}

#[test]
fn downloads_are_checked_for_size_and_checksum() {
    let sum = "a".repeat(64);
    assert!(verify_download(10, &sum, &sum).is_ok());
    assert_eq!(
        verify_download(10, &"b".repeat(64), &sum).unwrap_err().message(),
        "Downloaded update did not match its release checksum"
    );
    assert_eq!(
        verify_download(256 * 1024 * 1024 + 1, &sum, &sum).unwrap_err().message(),
        "Downloaded update exceeds the 256 MiB limit"
    );
    assert!(verify_download(256 * 1024 * 1024, &sum, &sum).is_ok());
}
