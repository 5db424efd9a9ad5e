//! Update checks against the project's GitHub tags: error messages, token
//! selection, version selection and the decisions of the background checker.

use vstd::prelude::*;

pub mod release;
pub mod windows;

use crate::text::{
    all_white_space, chars_of, contains_chars, contains_seq, decimal, lemma_trimmed_empty,
    opt_view, push_decimal, trim_chars, trimmed,
};

verus! {

/// An update failure, carried as the message shown in the status bar.
#[derive(Debug)]
pub struct UpdateError(String);

impl View for UpdateError {
    type V = Seq<char>;

    closed spec fn view(&self) -> Seq<char> {
        self.0@
    }
}

impl UpdateError {
    /// An error with the given message.
    pub fn new(message: String) -> (r: Self)
        ensures
            r@ == message@,
    {
        UpdateError(message)
    }

    /// The message this error shows.
    pub fn message(&self) -> (r: &str)
        ensures
            r@ == self@,
    {
        self.0.as_str()
    }
}

/// The message for a GitHub API response refused for its rate limit.
pub open spec fn rate_limit_message() -> Seq<char> {
    "GitHub API rate limit exceeded; set GITHUB_TOKEN or GH_TOKEN to a personal access token to raise it"@
}

/// The message for a GitHub API response with an error `status` and `body`:
/// rate-limited answers (403 or 429 whose body mentions "rate limit") explain
/// how to raise the limit; others report the status, and the body when it
/// holds more than whitespace.
pub open spec fn api_error_message(status: u16, body: Seq<char>) -> Seq<char> {
    if (status == 403 || status == 429) && contains_seq(body, "rate limit"@) {
        rate_limit_message()
    } else if all_white_space(body) {
        "GitHub API returned status "@ + decimal(status as nat)
    } else {
        "GitHub API returned status "@ + decimal(status as nat) + ": "@ + body
    }
}

/// The error for a GitHub API response with status `status` and body `body`.
pub fn github_api_error(status: u16, body: &str) -> (r: UpdateError)
    ensures
        r@ == api_error_message(status, body@),
{
    let body_chars = chars_of(body);
    let needle = chars_of("rate limit");
    if (status == 403 || status == 429) && contains_chars(&body_chars, &needle) {
        return UpdateError::new(
            String::from_str(
                "GitHub API rate limit exceeded; set GITHUB_TOKEN or GH_TOKEN to a personal access token to raise it",
            ),
        );
    }
    let trimmed_body = trim_chars(&body_chars);
    proof {
        lemma_trimmed_empty(body@);
    }
    let mut message = String::from_str("GitHub API returned status ");
    push_decimal(&mut message, status as u64);
    if trimmed_body.len() != 0 {
        message.append(": ");
        message.append(body);
    }
    UpdateError::new(message)
}

} // verus!

verus! {

/// The token a request should carry: the value of `GITHUB_TOKEN` when that
/// variable is set, else that of `GH_TOKEN`, trimmed; none when the chosen
/// value is blank.
pub open spec fn token_choice(github_token: Option<Seq<char>>, gh_token: Option<Seq<char>>) -> Option<
    Seq<char>,
> {
    let raw = if github_token is Some {
        github_token
    } else {
        gh_token
    };
    match raw {
        Some(value) => if trimmed(value).len() > 0 {
            Some(trimmed(value))
        } else {
            None
        },
        None => None,
    }
}

/// The GitHub token from the values of `GITHUB_TOKEN` and `GH_TOKEN` (none
/// where a variable is unset or unreadable).
pub fn github_token_from(github_token: Option<String>, gh_token: Option<String>) -> (r: Option<String>)
    ensures
        opt_view(r) == token_choice(opt_view(github_token), opt_view(gh_token)),
{
    let raw = match github_token {
        Some(value) => Some(value),
        None => gh_token,
    };
    match raw {
        Some(value) => {
            let value_chars = chars_of(value.as_str());
            let t = trim_chars(&value_chars);
            if t.len() > 0 {
                Some(crate::text::string_from_chars(&t))
            } else {
                None
            }
        },
        None => None,
    }
}

/// The `Authorization` header value that carries `token`.
pub fn bearer_authorization(token: &str) -> (r: String)
    ensures
        r@ == "Bearer "@ + token@,
{
    let mut value = String::from_str("Bearer ");
    value.append(token);
    value
}

/// The `Authorization` header a GitHub API request carries: a bearer header
/// with the token when there is one, none otherwise.
pub fn authorization_header(token: Option<&str>) -> (r: Option<String>)
    ensures
        match token {
            Some(t) => r matches Some(h) && h@ == "Bearer "@ + t@,
            None => r is None,
        },
{
    match token {
        Some(t) => Some(bearer_authorization(t)),
        None => None,
    }
}

/// The error for a failed GitHub API request: a rate-limit status (403 or
/// 429) is explained from its `body`; any other failure reports the
/// transport's description `detail`.
pub fn github_request_error(status: Option<u16>, body: &str, detail: &str) -> (r: UpdateError)
    ensures
        match status {
            Some(code) => (code == 403 || code == 429) ==> r@ == api_error_message(code, body@),
            None => true,
        },
        !(status matches Some(code) && (code == 403 || code == 429)) ==> r@
            == "Could not contact GitHub: "@ + detail@,
{
    match status {
        Some(code) => {
            if code == 403 || code == 429 {
                return github_api_error(code, body);
            }
        },
        None => {},
    }
    let mut message = String::from_str("Could not contact GitHub: ");
    message.append(detail);
    UpdateError::new(message)
}

} // verus!

verus! {

#[verifier::external_type_specification]
#[verifier::external_body]
pub struct ExSemverVersion(semver::Version);

/// What `semver::Version::parse` answers for `text`: none when it accepts
/// the text as a semantic version, else the message of its error.
pub uninterp spec fn semver_parse_error(text: Seq<char>) -> Option<Seq<char>>;

/// Whether the version parsed from `left` is greater than that parsed from
/// `right` in `semver::Version`'s order.
pub uninterp spec fn semver_greater(left: Seq<char>, right: Seq<char>) -> bool;

/// A semantic version together with the text it was parsed from; its view
/// is that text.
#[derive(Debug)]
pub struct ParsedVersion {
    text: String,
    version: semver::Version,
}

impl View for ParsedVersion {
    type V = Seq<char>;

    closed spec fn view(&self) -> Seq<char> {
        self.text@
    }
}

/// Parses `text` with `semver::Version::parse`. The contract claims that it
/// succeeds exactly when `semver_parse_error(text)` is none, that the result
/// keeps `text`, and that a failure carries the error's message, which
/// depends on `text` alone.
#[verifier::external_body]
fn parse_semver(text: &str) -> (r: Result<ParsedVersion, String>)
    ensures
        r is Ok <==> semver_parse_error(text@) is None,
        r matches Ok(v) ==> v@ == text@,
        r matches Err(message) ==> semver_parse_error(text@) == Some(message@),
{
    match semver::Version::parse(text) {
        Ok(version) => Ok(ParsedVersion { text: text.to_owned(), version }),
        Err(error) => Err(error.to_string()),
    }
}

/// Compares two versions with `semver::Version`'s `>`. The contract claims
/// the answer is `semver_greater` of their texts, and, as `Ord` promises a
/// total order, that a version is never greater than itself, that two
/// versions are never each greater than the other, and that when `left` is
/// not greater than `right`, every version greater than `right` is greater
/// than `left`.
#[verifier::external_body]
fn version_greater(left: &ParsedVersion, right: &ParsedVersion) -> (r: bool)
    ensures
        r == semver_greater(left@, right@),
        r ==> !semver_greater(right@, left@),
        left@ == right@ ==> !r,
        !r ==> forall|x: Seq<char>|
            semver_parse_error(x) is None && #[trigger] semver_greater(x, right@)
                ==> semver_greater(x, left@),
{
    left.version > right.version
}

/// Displays a version with `semver::Version`'s `Display`. The contract
/// claims the text is exactly the text the version was parsed from: parsing
/// admits no leading zeros, padding or empty parts, and `Display` prints the
/// numbers in decimal and the pre-release and build identifiers verbatim.
#[verifier::external_body]
fn version_display(v: &ParsedVersion) -> (r: String)
    ensures
        r@ == v@,
{
    v.version.to_string()
}

impl ParsedVersion {
    /// The text the version was parsed from.
    pub fn text(&self) -> (r: &str)
        ensures
            r@ == self@,
    {
        self.text.as_str()
    }

    /// The `semver` value held for the text, as `semver::Version::parse`
    /// produced it.
    pub closed spec fn semver_value(&self) -> semver::Version {
        self.version
    }

    /// The version as `semver` holds it.
    pub fn semver(&self) -> (r: &semver::Version)
        ensures
            *r == self.semver_value(),
    {
        &self.version
    }

    /// The version as `semver` displays it, which is the text it was
    /// parsed from.
    pub fn to_display_string(&self) -> (r: String)
        ensures
            r@ == self@,
    {
        version_display(self)
    }
}

/// `s` without its leading `v` characters (`trim_start_matches('v')`).
pub open spec fn strip_v(s: Seq<char>) -> Seq<char>
    decreases s.len(),
{
    if s.len() > 0 && s[0] == 'v' {
        strip_v(s.drop_first())
    } else {
        s
    }
}

/// Whether `tag` names a semantic version once its leading `v`s are removed.
pub open spec fn tag_has_version(tag: Seq<char>) -> bool {
    semver_parse_error(strip_v(tag)) is None
}

proof fn lemma_strip_v_at(s: Seq<char>, i: int)
    requires
        0 <= i <= s.len(),
        forall|k: int| 0 <= k < i ==> #[trigger] s[k] == 'v',
        i == s.len() || s[i] != 'v',
    ensures
        strip_v(s) == s.subrange(i, s.len() as int),
    decreases i,
{
    if i == 0 {
        assert(s.subrange(0, s.len() as int) =~= s);
    } else {
        let t = s.drop_first();
        assert forall|k: int| 0 <= k < i - 1 implies #[trigger] t[k] == 'v' by {
            assert(t[k] == s[k + 1]);
        }
        lemma_strip_v_at(t, i - 1);
        assert(t.subrange(i - 1, t.len() as int) =~= s.subrange(i, s.len() as int));
    }
}

/// The version a release tag names: the tag without its leading `v`s, parsed
/// as a semantic version.
pub fn version_from_tag(tag: &str) -> (r: Result<ParsedVersion, String>)
    ensures
        r is Ok <==> tag_has_version(tag@),
        r matches Ok(v) ==> v@ == strip_v(tag@),
        r matches Err(message) ==> semver_parse_error(strip_v(tag@)) == Some(message@),
{
    let cs = chars_of(tag);
    let mut i: usize = 0;
    while i < cs.len() && cs[i] == 'v'
        invariant
            i <= cs@.len(),
            forall|k: int| 0 <= k < i ==> #[trigger] cs@[k] == 'v',
        decreases cs@.len() - i,
    {
        i = i + 1;
    }
    proof {
        lemma_strip_v_at(tag@, i as int);
    }
    let rest = crate::text::string_from_range(&cs, i, cs.len());
    parse_semver(rest.as_str())
}

/// The index of the tag that the latest-version search settles on among the
/// first `n` tags: each tag with a version replaces the one held so far
/// unless the held version is greater, so the last of equally high versions
/// wins. None when no tag among them has a version.
pub open spec fn latest_index(tags: Seq<Seq<char>>, n: int) -> Option<int>
    decreases n,
{
    if n <= 0 {
        None
    } else {
        let prev = latest_index(tags, n - 1);
        if tag_has_version(tags[n - 1]) {
            match prev {
                Some(p) => if semver_greater(strip_v(tags[p]), strip_v(tags[n - 1])) {
                    Some(p)
                } else {
                    Some(n - 1)
                },
                None => Some(n - 1),
            }
        } else {
            prev
        }
    }
}

/// The message when no tag names a semantic version.
pub open spec fn no_version_tags_message() -> Seq<char> {
    "No semantic-version tags found on GitHub"@
}

/// Among the first `n` tags the search settles on a tag exactly when some tag
/// names a version; the tag it settles on names a version, and that version
/// is greater than the version of every later tag.
pub proof fn latest_tag_outranks_later_tags(tags: Seq<Seq<char>>, n: int)
    requires
        0 <= n <= tags.len(),
    ensures
        latest_index(tags, n) is None <==> (forall|k: int|
            0 <= k < n ==> !tag_has_version(#[trigger] tags[k])),
        latest_index(tags, n) matches Some(i) ==> 0 <= i < n && tag_has_version(tags[i]) && (
        forall|k: int|
            i < k < n && tag_has_version(#[trigger] tags[k]) ==> semver_greater(
                strip_v(tags[i]),
                strip_v(tags[k]),
            )),
    decreases n,
{
    if n > 0 {
        latest_tag_outranks_later_tags(tags, n - 1);
        if latest_index(tags, n - 1) is None && !tag_has_version(tags[n - 1]) {
            assert forall|k: int| 0 <= k < n implies !tag_has_version(#[trigger] tags[k]) by {
                if k < n - 1 {
                } else {
                }
            }
        }
    }
}

/// The tag naming the latest semantic version and that version. Tags that
/// name no version are skipped; among equal versions the last tag wins.
pub fn select_latest_tag(tags: &Vec<String>) -> (r: Result<(String, ParsedVersion), UpdateError>)
    ensures
        match r {
            Ok((tag, version)) => exists|i: int|
                latest_index(tags.deep_view(), tags@.len() as int) == Some(i) && tag@
                    == tags.deep_view()[i] && version@ == strip_v(tag@) && forall|k: int|
                    0 <= k < tags@.len() && k != i && tag_has_version(
                        #[trigger] tags.deep_view()[k],
                    ) ==> !semver_greater(strip_v(tags.deep_view()[k]), version@),
            Err(e) => latest_index(tags.deep_view(), tags@.len() as int) is None && e@
                == no_version_tags_message(),
        },
{
    let ghost dv = tags.deep_view();
    let mut best: Option<(usize, ParsedVersion)> = None;
    let mut i: usize = 0;
    while i < tags.len()
        invariant
            i <= tags@.len(),
            dv == tags.deep_view(),
            dv.len() == tags@.len(),
            match best {
                Some((b, v)) => latest_index(dv, i as int) == Some(b as int) && v@ == strip_v(
                    dv[b as int],
                ) && b < i && semver_parse_error(v@) is None && forall|k: int|
                    0 <= k < i && k != b && tag_has_version(#[trigger] dv[k]) ==> !semver_greater(
                        strip_v(dv[k]),
                        v@,
                    ),
                None => latest_index(dv, i as int) is None && forall|k: int|
                    0 <= k < i ==> !tag_has_version(#[trigger] dv[k]),
            },
        decreases tags@.len() - i,
    {
        assert(dv[i as int] == tags@[i as int]@);
        match version_from_tag(tags[i].as_str()) {
            Ok(v) => {
                let replace = match &best {
                    Some((_, held)) => !version_greater(held, &v),
                    None => true,
                };
                if replace {
                    best = Some((i, v));
                }
            },
            Err(_) => {},
        }
        i = i + 1;
    }
    match best {
        Some((b, v)) => {
            assert(dv[b as int] == tags@[b as int]@);
            Ok((tags[b].clone(), v))
        },
        None => Err(UpdateError::new(String::from_str("No semantic-version tags found on GitHub"))),
    }
}

} // verus!

verus! {

/// The result of a finished background update job.
#[derive(Debug)]
pub enum UpdateOutcome {
    /// The running version is the latest; it carries the running version.
    UpToDate(ParsedVersion),
    /// A newer Windows release, named by its tag, that is downloaded and
    /// installed only once the user confirms the update.
    Available { tag: String, version: ParsedVersion },
    /// A newer Windows release was downloaded and will install on exit.
    InstallReady(ParsedVersion),
    /// A newer release exists and must be installed by hand.
    ManualUpdate(ParsedVersion),
}

/// The message when the running version's own text does not parse.
pub open spec fn invalid_current_message(error: Seq<char>) -> Seq<char> {
    "Invalid current version: "@ + error
}

/// Decides an update check once the latest release is known: `latest_tag`
/// names it and `latest` is its version; `current_version` is the running
/// version's text. The running version is up to date unless `latest` is
/// greater; a newer release is offered for installation on Windows and left
/// to the user elsewhere. A check never downloads or installs anything.
pub fn check_for_update(
    latest_tag: String,
    latest: ParsedVersion,
    current_version: &str,
    platform: crate::platform::Platform,
) -> (r: Result<UpdateOutcome, UpdateError>)
    ensures
        r is Err <==> semver_parse_error(current_version@) is Some,
        r matches Err(e) ==> e@ == invalid_current_message(
            semver_parse_error(current_version@)->Some_0,
        ),
        r matches Ok(outcome) ==> match outcome {
            UpdateOutcome::UpToDate(v) => !semver_greater(latest@, current_version@) && v@
                == current_version@,
            UpdateOutcome::ManualUpdate(v) => semver_greater(latest@, current_version@)
                && platform != crate::platform::Platform::Windows && v@ == latest@,
            UpdateOutcome::Available { tag, version } => semver_greater(
                latest@,
                current_version@,
            ) && platform == crate::platform::Platform::Windows && version@ == latest@ && tag@
                == latest_tag@,
            UpdateOutcome::InstallReady(_) => false,
        },
{
    let current = match parse_semver(current_version) {
        Ok(v) => v,
        Err(message) => {
            let mut text = String::from_str("Invalid current version: ");
            text.append(message.as_str());
            return Err(UpdateError::new(text));
        },
    };
    if !version_greater(&latest, &current) {
        return Ok(UpdateOutcome::UpToDate(current));
    }
    match platform {
        crate::platform::Platform::Windows => Ok(
            UpdateOutcome::Available { tag: latest_tag, version: latest },
        ),
        _ => Ok(UpdateOutcome::ManualUpdate(latest)),
    }
}

/// What polling the background check's channel found.
#[derive(Debug)]
pub enum Received {
    /// The check finished with this result.
    Message(Result<UpdateOutcome, UpdateError>),
    /// The check is still running.
    Empty,
    /// The check ended without sending a result.
    Disconnected,
}

/// What the application learns from one poll of the update checker.
#[derive(Debug)]
pub enum PollResult {
    /// No check is running.
    Idle,
    /// A check is running.
    Pending,
    /// A check finished with this result.
    Ready(Result<UpdateOutcome, UpdateError>),
}

/// The message when a check ends without a result.
pub open spec fn incomplete_check_message() -> Seq<char> {
    "Update check did not complete"@
}

/// Tracks whether a background update check is running. The channel itself
/// is held by the caller, who polls it only while a check runs.
#[derive(Debug)]
pub struct UpdateChecker {
    running: bool,
}

impl UpdateChecker {
    /// Whether a check is running.
    pub closed spec fn is_running(&self) -> bool {
        self.running
    }

    /// A checker with no check running.
    pub fn new() -> (r: Self)
        ensures
            !r.is_running(),
    {
        UpdateChecker { running: false }
    }

    /// Whether a check is running.
    pub fn running(&self) -> (r: bool)
        ensures
            r == self.is_running(),
    {
        self.running
    }

    /// Starts a check unless one is running; answers whether the caller
    /// must launch it.
    pub fn start(&mut self) -> (launch: bool)
        ensures
            launch == !old(self).is_running(),
            final(self).is_running(),
    {
        if self.running {
            return false;
        }
        self.running = true;
        true
    }

    /// Folds one poll of the channel into the checker: a result or a closed
    /// channel ends the check; nothing is reported while no check runs.
    pub fn poll(&mut self, received: Received) -> (r: PollResult)
        ensures
            !old(self).is_running() ==> r is Idle && !final(self).is_running(),
            old(self).is_running() ==> match received {
                Received::Empty => r is Pending && final(self).is_running(),
                Received::Message(result) => r == PollResult::Ready(result)
                    && !final(self).is_running(),
                Received::Disconnected => !final(self).is_running() && match r {
                    PollResult::Ready(Err(e)) => e@ == incomplete_check_message(),
                    _ => false,
                },
            },
    {
        if !self.running {
            return PollResult::Idle;
        }
        match received {
            Received::Message(result) => {
                self.running = false;
                PollResult::Ready(result)
            },
            Received::Empty => PollResult::Pending,
            Received::Disconnected => {
                self.running = false;
                PollResult::Ready(
                    Err(UpdateError::new(String::from_str("Update check did not complete"))),
                )
            },
        }
    }
}

} // verus!

verus! {

/// The PowerShell script that installs a downloaded update once process
/// `parent_id` has exited (see `windows::update_script`).
pub fn windows_update_script(
    parent_id: u32,
    installer: &str,
    current: &str,
    ready: &str,
    log: &str,
    script: &str,
) -> (r: String)
    ensures
        r@ == windows::update_script_text(parent_id, installer@, current@, ready@, log@, script@),
{
    windows::update_script(parent_id, installer, current, ready, log, script)
}

} // verus!

verus! {

/// The chosen token never has surrounding whitespace and is never blank.
pub proof fn chosen_token_is_trimmed(github_token: Option<Seq<char>>, gh_token: Option<Seq<char>>)
    ensures
        token_choice(github_token, gh_token) matches Some(t) ==> trimmed(t) == t && t.len() > 0,
{
    let raw = if github_token is Some {
        github_token
    } else {
        gh_token
    };
    match raw {
        Some(v) => crate::text::trimmed_is_idempotent(v),
        None => {},
    }
}

/// A set `GITHUB_TOKEN` is used whatever `GH_TOKEN` holds, even when it is
/// blank (then no token is sent); `GH_TOKEN` is read only when `GITHUB_TOKEN`
/// is unset.
pub proof fn github_token_takes_precedence(github_token: Seq<char>, gh_token: Option<Seq<char>>)
    ensures
        token_choice(Some(github_token), gh_token) == token_choice(Some(github_token), None),
        token_choice(None, gh_token) == token_choice(gh_token, None),
{
}

} // verus!
