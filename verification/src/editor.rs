//! The editor's workflow around unsaved changes, closing and updates: which
//! effect each user request has, given whether the document is dirty.

use vstd::prelude::*;

use crate::text::{chars_of, is_white_space, is_whitespace};
use crate::update::{ParsedVersion, PollResult, UpdateChecker, UpdateOutcome};

verus! {

#[verifier::external_type_specification]
#[verifier::external_body]
pub struct ExPathBuf(std::path::PathBuf);

/// An action that may discard unsaved changes, held while the user decides.
#[derive(Debug)]
pub enum PendingAction {
    /// Show the file picker and open the chosen document.
    OpenDialog,
    /// Open the document at this path.
    OpenPath(std::path::PathBuf),
    /// Close the window.
    Close,
    /// Close the window so that the staged update installs.
    Restart,
}

/// The question asked before carrying out `action` over unsaved changes.
pub open spec fn confirmation_message(action: PendingAction) -> Seq<char> {
    match action {
        PendingAction::OpenDialog | PendingAction::OpenPath(_) => "Save your changes before opening another document?"@,
        PendingAction::Close => "Save your changes before closing PinkDown?"@,
        PendingAction::Restart => "Save your changes before restarting to install the update?"@,
    }
}

impl PendingAction {
    /// The question asked before carrying out this action over unsaved
    /// changes.
    pub fn confirmation_text(&self) -> (r: &'static str)
        ensures
            r@ == confirmation_message(*self),
    {
        match self {
            PendingAction::OpenDialog | PendingAction::OpenPath(_) => {
                "Save your changes before opening another document?"
            },
            PendingAction::Close => "Save your changes before closing PinkDown?",
            PendingAction::Restart => "Save your changes before restarting to install the update?",
        }
    }
}

/// The user's answer to the unsaved-changes question.
#[derive(Clone, Copy, Debug, PartialEq, Eq, Structural)]
pub enum Confirmation {
    Save,
    Discard,
    Cancel,
}

/// What the window must do as a result of a decision.
#[derive(Debug)]
pub enum Effect {
    Nothing,
    /// Veto a close the windowing system requested.
    CancelClose,
    /// Show the file picker and open the chosen document.
    PickFile,
    /// Open the document at this path.
    Open(std::path::PathBuf),
    /// Close the window.
    Close,
}

/// The editor's decision state.
#[derive(Debug)]
pub struct Workflow {
    /// The action waiting for the user's answer, if any.
    pub pending: Option<PendingAction>,
    /// Whether the window may close without asking.
    pub allow_close: bool,
    /// Whether a downloaded update waits to install on exit.
    pub update_staged: bool,
    /// A newer release, by tag and version, offered for installation and
    /// waiting for the user to confirm the update.
    pub update_offer: Option<(String, ParsedVersion)>,
}

/// The effect of carrying out `action`.
pub open spec fn execution_effect(action: PendingAction) -> Effect {
    match action {
        PendingAction::OpenDialog => Effect::PickFile,
        PendingAction::OpenPath(p) => Effect::Open(p),
        PendingAction::Close | PendingAction::Restart => Effect::Close,
    }
}

/// The state after carrying out `action`: closing actions allow the close.
pub open spec fn executed(w: Workflow, action: PendingAction) -> Workflow {
    Workflow {
        pending: w.pending,
        allow_close: w.allow_close || action is Close || action is Restart,
        update_staged: w.update_staged,
        update_offer: w.update_offer,
    }
}

/// The state and effect of requesting `action`: over unsaved changes the
/// action waits for an answer and a pending close is vetoed; otherwise it
/// is carried out.
pub open spec fn requested(w: Workflow, action: PendingAction, dirty: bool) -> (Workflow, Effect) {
    if dirty {
        (
            Workflow {
                pending: Some(action),
                allow_close: w.allow_close,
                update_staged: w.update_staged,
                update_offer: w.update_offer,
            },
            Effect::CancelClose,
        )
    } else {
        (executed(w, action), execution_effect(action))
    }
}

/// The state and effect of the user's answer `choice`; `saved` tells whether
/// the save that a Save answer triggers succeeded. Save (when it succeeded)
/// and Discard carry out the pending action; Cancel drops it.
pub open spec fn answered(w: Workflow, choice: Option<Confirmation>, saved: bool) -> (
    Workflow,
    Effect,
) {
    let proceed = (choice == Some(Confirmation::Save) && saved) || choice == Some(
        Confirmation::Discard,
    );
    if proceed {
        match w.pending {
            Some(action) => {
                let taken = Workflow {
                    pending: None,
                    allow_close: w.allow_close,
                    update_staged: w.update_staged,
                    update_offer: w.update_offer,
                };
                (executed(taken, action), execution_effect(action))
            },
            None => (w, Effect::Nothing),
        }
    } else if choice == Some(Confirmation::Cancel) {
        (
            Workflow {
                pending: None,
                allow_close: w.allow_close,
                update_staged: w.update_staged,
                update_offer: w.update_offer,
            },
            Effect::Nothing,
        )
    } else {
        (w, Effect::Nothing)
    }
}

impl Workflow {
    /// The state at start-up: nothing pending, closing asks first, no
    /// update staged or offered.
    pub fn new() -> (r: Self)
        ensures
            r.pending is None,
            !r.allow_close,
            !r.update_staged,
            r.update_offer is None,
    {
        Workflow { pending: None, allow_close: false, update_staged: false, update_offer: None }
    }

    /// Carries out `action`.
    pub fn execute_action(&mut self, action: PendingAction) -> (e: Effect)
        ensures
            *final(self) == executed(*old(self), action),
            e == execution_effect(action),
    {
        match action {
            PendingAction::OpenDialog => Effect::PickFile,
            PendingAction::OpenPath(path) => Effect::Open(path),
            PendingAction::Close | PendingAction::Restart => {
                self.allow_close = true;
                Effect::Close
            },
        }
    }

    /// Requests `action`; `dirty` tells whether the document has unsaved
    /// changes.
    pub fn request_action(&mut self, action: PendingAction, dirty: bool) -> (e: Effect)
        ensures
            (*final(self), e) == requested(*old(self), action, dirty),
    {
        if dirty {
            self.pending = Some(action);
            Effect::CancelClose
        } else {
            self.execute_action(action)
        }
    }

    /// Handles a frame in which the windowing system may have asked to
    /// close: unless closing is allowed the close is vetoed, and a close is
    /// requested unless an action is already waiting.
    pub fn check_close_request(&mut self, close_requested: bool, dirty: bool) -> (effects: Vec<Effect>)
        ensures
            !close_requested || old(self).allow_close ==> *final(self) == *old(self)
                && effects@.len() == 0,
            close_requested && !old(self).allow_close && old(self).pending is Some ==> *final(self)
                == *old(self) && effects@ == seq![Effect::CancelClose],
            close_requested && !old(self).allow_close && old(self).pending is None ==> ({
                let (w, e) = requested(*old(self), PendingAction::Close, dirty);
                *final(self) == w && effects@ == seq![Effect::CancelClose, e]
            }),
    {
        let mut effects: Vec<Effect> = Vec::new();
        if close_requested && !self.allow_close {
            effects.push(Effect::CancelClose);
            if self.pending.is_none() {
                let e = self.request_action(PendingAction::Close, dirty);
                effects.push(e);
            }
        }
        effects
    }

    /// Applies the user's answer `choice` to the waiting action; `saved`
    /// tells whether the save that a Save answer triggered succeeded.
    pub fn confirm(&mut self, choice: Option<Confirmation>, saved: bool) -> (e: Effect)
        ensures
            (*final(self), e) == answered(*old(self), choice, saved),
    {
        let proceed = match choice {
            Some(Confirmation::Save) => saved,
            Some(Confirmation::Discard) => true,
            _ => false,
        };
        if proceed {
            match self.pending.take() {
                Some(action) => self.execute_action(action),
                None => Effect::Nothing,
            }
        } else {
            match choice {
                Some(Confirmation::Cancel) => {
                    self.pending = None;
                },
                _ => {},
            }
            Effect::Nothing
        }
    }
}

} // verus!

verus! {

/// What the editor does with one poll of the update checker.
#[derive(Debug)]
pub struct UpdateReaction {
    /// The new status-bar text, if it changes.
    pub status: Option<String>,
    /// What the window must do.
    pub effect: Effect,
    /// Whether to redraw soon to poll again.
    pub repaint_soon: bool,
}

/// An update the user confirmed: the release to download and install, and
/// the status text to show meanwhile.
#[derive(Debug)]
pub struct UpdateInstall {
    pub tag: String,
    pub version: ParsedVersion,
    pub status: String,
}

/// The status text while the installer of `version` downloads.
pub open spec fn downloading_message(version: Seq<char>) -> Seq<char> {
    "Downloading PinkDown v"@ + version + "\u{2026}"@
}

/// `w` with `offer` as the offered release.
pub open spec fn with_offer(w: Workflow, offer: Option<(String, ParsedVersion)>) -> Workflow {
    Workflow {
        pending: w.pending,
        allow_close: w.allow_close,
        update_staged: w.update_staged,
        update_offer: offer,
    }
}

/// The status text for the outcome of an update job.
pub open spec fn outcome_status(outcome: UpdateOutcome) -> Seq<char> {
    match outcome {
        UpdateOutcome::UpToDate(v) => "PinkDown v"@ + v@ + " is up to date"@,
        UpdateOutcome::Available { tag: _, version } => "PinkDown v"@ + version@
            + " is available; choose Update to download and install it"@,
        UpdateOutcome::InstallReady(v) => "PinkDown v"@ + v@
            + " is staged and will install when PinkDown closes"@,
        UpdateOutcome::ManualUpdate(v) => "PinkDown v"@ + v@ + " is available from GitHub Releases"@,
    }
}

fn version_status(v: &ParsedVersion, suffix: &str) -> (r: String)
    ensures
        r@ == "PinkDown v"@ + v@ + suffix@,
{
    let mut text = String::from_str("PinkDown v");
    let shown = v.to_display_string();
    text.append(shown.as_str());
    text.append(suffix);
    text
}

/// The status text while checking for updates.
pub open spec fn checking_message() -> Seq<char> {
    "Checking for updates\u{2026}"@
}

/// The status text when an update is already staged.
pub open spec fn staged_message() -> Seq<char> {
    "The staged update will install when PinkDown closes"@
}

impl Workflow {
    /// Reacts to one poll of the update checker; `dirty` tells whether the
    /// document has unsaved changes. An available release is offered and
    /// nothing is downloaded; a staged install marks the update staged and
    /// requests a restart.
    pub fn update_polled(&mut self, poll: PollResult, dirty: bool) -> (r: UpdateReaction)
        ensures
            match poll {
                PollResult::Idle => *final(self) == *old(self) && r.status is None
                    && r.effect is Nothing && !r.repaint_soon,
                PollResult::Pending => *final(self) == *old(self) && r.status is None
                    && r.effect is Nothing && r.repaint_soon,
                PollResult::Ready(Err(e)) => *final(self) == *old(self) && r.effect is Nothing
                    && !r.repaint_soon && (r.status matches Some(s) && s@ == "Update failed: "@
                    + e@),
                PollResult::Ready(Ok(outcome)) => r.status matches Some(s) && s@ == outcome_status(
                    outcome,
                ) && !r.repaint_soon && match outcome {
                    UpdateOutcome::InstallReady(_) => ({
                        let staged = Workflow {
                            pending: old(self).pending,
                            allow_close: old(self).allow_close,
                            update_staged: true,
                            update_offer: old(self).update_offer,
                        };
                        (*final(self), r.effect) == requested(staged, PendingAction::Restart, dirty)
                    }),
                    UpdateOutcome::Available { tag, version } => r.effect is Nothing
                        && *final(self) == with_offer(*old(self), Some((tag, version))),
                    _ => *final(self) == *old(self) && r.effect is Nothing,
                },
            },
    {
        match poll {
            PollResult::Idle => UpdateReaction { status: None, effect: Effect::Nothing, repaint_soon: false },
            PollResult::Pending => UpdateReaction {
                status: None,
                effect: Effect::Nothing,
                repaint_soon: true,
            },
            PollResult::Ready(Err(error)) => {
                let mut text = String::from_str("Update failed: ");
                text.append(error.message());
                UpdateReaction { status: Some(text), effect: Effect::Nothing, repaint_soon: false }
            },
            PollResult::Ready(Ok(outcome)) => match outcome {
                UpdateOutcome::UpToDate(v) => UpdateReaction {
                    status: Some(version_status(&v, " is up to date")),
                    effect: Effect::Nothing,
                    repaint_soon: false,
                },
                UpdateOutcome::InstallReady(v) => {
                    self.update_staged = true;
                    let text = version_status(
                        &v,
                        " is staged and will install when PinkDown closes",
                    );
                    let effect = self.request_action(PendingAction::Restart, dirty);
                    UpdateReaction { status: Some(text), effect, repaint_soon: false }
                },
                UpdateOutcome::ManualUpdate(v) => UpdateReaction {
                    status: Some(version_status(&v, " is available from GitHub Releases")),
                    effect: Effect::Nothing,
                    repaint_soon: false,
                },
                UpdateOutcome::Available { tag, version } => {
                    let text = version_status(
                        &version,
                        " is available; choose Update to download and install it",
                    );
                    self.update_offer = Some((tag, version));
                    UpdateReaction { status: Some(text), effect: Effect::Nothing, repaint_soon: false }
                },
            },
        }
    }

    /// Handles the user's confirmation of an offered update: when a release
    /// is offered and no update job runs, the offer is taken and handed back
    /// as the release whose installer the caller must now download and
    /// schedule, with the new status text. Nothing else ever asks for a
    /// download.
    pub fn confirm_update(&mut self, checker: &mut UpdateChecker) -> (r: Option<UpdateInstall>)
        ensures
            old(self).update_offer is None || old(checker).is_running() ==> r is None
                && *final(self) == *old(self),
            old(self).update_offer is None || old(checker).is_running() ==> final(checker).is_running()
                == old(checker).is_running(),
            old(self).update_offer is Some && !old(checker).is_running() ==> (r matches Some(job)
                && Some((job.tag, job.version)) == old(self).update_offer && job.status@
                == downloading_message(job.version@)),
            old(self).update_offer is Some && !old(checker).is_running() ==> final(checker).is_running()
                && *final(self) == with_offer(*old(self), None),
    {
        if self.update_offer.is_none() || checker.running() {
            return None;
        }
        checker.start();
        match self.update_offer.take() {
            Some((tag, version)) => {
                let mut status = String::from_str("Downloading PinkDown v");
                let shown = version.to_display_string();
                status.append(shown.as_str());
                status.append("\u{2026}");
                Some(UpdateInstall { tag, version, status })
            },
            None => None,
        }
    }

    /// Handles the "Check updates" button: a staged update is reported;
    /// otherwise a check starts unless one runs. Answers the new status text
    /// and whether the caller must launch the check.
    pub fn check_updates(&self, checker: &mut UpdateChecker) -> (r: (Option<String>, bool))
        ensures
            self.update_staged ==> !r.1 && final(checker).is_running()
                == old(checker).is_running() && (r.0 matches Some(s) && s@ == staged_message()),
            !self.update_staged ==> r.1 == !old(checker).is_running()
                && final(checker).is_running(),
            !self.update_staged && r.1 ==> (r.0 matches Some(s) && s@ == checking_message()),
            !self.update_staged && !r.1 ==> r.0 is None,
    {
        if self.update_staged {
            return (Some(String::from_str("The staged update will install when PinkDown closes")), false);
        }
        if checker.start() {
            (Some(String::from_str("Checking for updates\u{2026}")), true)
        } else {
            (None, false)
        }
    }
}

/// The status text after opening the document `name` decoded as `encoding`.
pub fn opened_status(name: &str, encoding: &str) -> (r: String)
    ensures
        r@ == "Opened "@ + name@ + " \u{b7} "@ + encoding@,
{
    let mut text = String::from_str("Opened ");
    text.append(name);
    text.append(" \u{b7} ");
    text.append(encoding);
    text
}

/// The status text after saving the document `name`.
pub fn saved_status(name: &str) -> (r: String)
    ensures
        r@ == "Saved "@ + name@,
{
    let mut text = String::from_str("Saved ");
    text.append(name);
    text
}

/// The number of words in `s`: maximal runs of non-whitespace characters
/// (`split_whitespace().count()`).
pub open spec fn word_count_of(s: Seq<char>) -> nat
    decreases s.len(),
{
    if s.len() == 0 {
        0
    } else {
        let starts_word = !is_white_space(s.last()) && (s.len() == 1 || is_white_space(
            s[s.len() - 2],
        ));
        word_count_of(s.drop_last()) + if starts_word {
            1nat
        } else {
            0nat
        }
    }
}

/// The number of lines in `s` (`lines().count()`): every line feed ends a
/// line, and text after the last one is one more line.
pub open spec fn line_count_of(s: Seq<char>) -> nat
    decreases s.len(),
{
    if s.len() == 0 {
        0
    } else if s.len() == 1 {
        1
    } else {
        line_count_of(s.drop_last()) + if s[s.len() - 2] == '\n' {
            1nat
        } else {
            0nat
        }
    }
}

/// The number of words in `text`, for the status bar.
pub fn word_count(text: &str) -> (r: usize)
    ensures
        r == word_count_of(text@),
{
    let cs = chars_of(text);
    let mut count: usize = 0;
    let mut i: usize = 0;
    let mut previous_white = true;
    while i < cs.len()
        invariant
            i <= cs@.len(),
            count == word_count_of(cs@.take(i as int)),
            count <= i,
            previous_white == (i == 0 || is_white_space(cs@[i - 1])),
        decreases cs@.len() - i,
    {
        let white = is_whitespace(cs[i]);
        proof {
            assert(cs@.take(i + 1).drop_last() =~= cs@.take(i as int));
            if i > 0 {
                assert(cs@.take(i + 1)[i - 1] == cs@[i - 1]);
            }
        }
        if !white && previous_white {
            count = count + 1;
        }
        previous_white = white;
        i = i + 1;
    }
    assert(cs@.take(i as int) =~= cs@);
    count
}

/// A text without whitespace is one word, however its characters look.
pub proof fn unbroken_text_is_one_word(s: Seq<char>)
    requires
        s.len() > 0,
        forall|k: int| 0 <= k < s.len() ==> !is_white_space(#[trigger] s[k]),
    ensures
        word_count_of(s) == 1,
    decreases s.len(),
{
    if s.len() > 1 {
        let t = s.drop_last();
        assert forall|k: int| 0 <= k < t.len() implies !is_white_space(#[trigger] t[k]) by {
            assert(t[k] == s[k]);
        }
        unbroken_text_is_one_word(t);
        assert(!is_white_space(s[s.len() - 2]));
    } else {
        assert(word_count_of(s.drop_last()) == 0);
    }
    assert(!is_white_space(s[s.len() - 1]));
}

/// A text of whitespace alone has no word.
pub proof fn blank_text_has_no_word(s: Seq<char>)
    requires
        forall|k: int| 0 <= k < s.len() ==> is_white_space(#[trigger] s[k]),
    ensures
        word_count_of(s) == 0,
    decreases s.len(),
{
    if s.len() > 0 {
        let t = s.drop_last();
        assert forall|k: int| 0 <= k < t.len() implies is_white_space(#[trigger] t[k]) by {
            assert(t[k] == s[k]);
        }
        blank_text_has_no_word(t);
        assert(is_white_space(s[s.len() - 1]));
    }
}

/// Joining two texts with a whitespace character between them adds their
/// word counts: whitespace separates words, and nothing else does.
pub proof fn whitespace_separates_words(a: Seq<char>, space: char, b: Seq<char>)
    requires
        is_white_space(space),
    ensures
        word_count_of(a.push(space) + b) == word_count_of(a) + word_count_of(b),
    decreases b.len(),
{
    let joined = a.push(space) + b;
    if b.len() == 0 {
        assert(joined =~= a.push(space));
        assert(a.push(space).drop_last() =~= a);
    } else {
        let c = b.last();
        let rest = b.drop_last();
        whitespace_separates_words(a, space, rest);
        assert(joined.drop_last() =~= a.push(space) + rest);
        assert(joined.last() == c);
        if rest.len() == 0 {
            assert(joined[joined.len() - 2] == space);
        } else {
            assert(joined[joined.len() - 2] == rest.last());
            assert(b[b.len() - 2] == rest.last());
        }
    }
}

/// A non-empty text without a line feed is one line.
pub proof fn unbroken_text_is_one_line(s: Seq<char>)
    requires
        s.len() > 0,
        forall|k: int| 0 <= k < s.len() ==> #[trigger] s[k] != '\n',
    ensures
        line_count_of(s) == 1,
    decreases s.len(),
{
    if s.len() > 1 {
        let t = s.drop_last();
        assert forall|k: int| 0 <= k < t.len() implies #[trigger] t[k] != '\n' by {
            assert(t[k] == s[k]);
        }
        unbroken_text_is_one_line(t);
        assert(s[s.len() - 2] != '\n');
    }
}

/// Every line feed ends a line: the lines of a text cut after a line feed
/// are the lines before the cut and the lines after it.
pub proof fn line_feed_ends_a_line(a: Seq<char>, b: Seq<char>)
    ensures
        line_count_of(a.push('\n') + b) == line_count_of(a.push('\n')) + line_count_of(b),
    decreases b.len(),
{
    let joined = a.push('\n') + b;
    if b.len() == 0 {
        assert(joined =~= a.push('\n'));
    } else {
        let rest = b.drop_last();
        line_feed_ends_a_line(a, rest);
        assert(joined.drop_last() =~= a.push('\n') + rest);
        if rest.len() == 0 {
            assert(joined[joined.len() - 2] == '\n');
            assert(line_count_of(b) == 1);
        } else {
            assert(joined[joined.len() - 2] == rest.last());
            assert(b[b.len() - 2] == rest.last());
        }
    }
}

/// The number of lines in `text`, for the status bar.
pub fn line_count(text: &str) -> (r: usize)
    ensures
        r == line_count_of(text@),
{
    let cs = chars_of(text);
    if cs.len() == 0 {
        return 0;
    }
    let mut count: usize = 1;
    let mut i: usize = 1;
    while i < cs.len()
        invariant
            1 <= i <= cs@.len(),
            count == line_count_of(cs@.take(i as int)),
            count <= i,
        decreases cs@.len() - i,
    {
        proof {
            assert(cs@.take(i + 1).drop_last() =~= cs@.take(i as int));
            assert(cs@.take(i + 1)[i - 1] == cs@[i - 1]);
        }
        if cs[i - 1] == '\n' {
            count = count + 1;
        }
        i = i + 1;
    }
    assert(cs@.take(i as int) =~= cs@);
    count
}

} // verus!

verus! {

/// Requesting an action over unsaved changes never carries it out: the
/// action waits for an answer, closing stays as allowed as it was, and a
/// pending close of the window is vetoed.
pub proof fn dirty_request_waits_for_an_answer(w: Workflow, action: PendingAction)
    ensures
        requested(w, action, true).0.pending == Some(action),
        requested(w, action, true).0.allow_close == w.allow_close,
        requested(w, action, true).1 is CancelClose,
{
}

/// Closing a window whose document has unsaved changes, while closing is not
/// yet allowed, never closes it: the request is vetoed and closing stays
/// disallowed until the user answers.
pub proof fn close_of_dirty_document_is_vetoed(w: Workflow)
    requires
        !w.allow_close,
    ensures
        !requested(w, PendingAction::Close, true).0.allow_close,
        !(requested(w, PendingAction::Close, true).1 is Close),
{
}

/// Discarding after a request over unsaved changes does what the request
/// does on a saved document, when nothing else was waiting.
pub proof fn discard_carries_out_the_request(w: Workflow, action: PendingAction, saved: bool)
    requires
        w.pending is None,
    ensures
        answered(requested(w, action, true).0, Some(Confirmation::Discard), saved) == requested(
            w,
            action,
            false,
        ),
{
}

/// Saving successfully after a request over unsaved changes does what the
/// request does on a saved document, when nothing else was waiting.
pub proof fn successful_save_carries_out_the_request(w: Workflow, action: PendingAction)
    requires
        w.pending is None,
    ensures
        answered(requested(w, action, true).0, Some(Confirmation::Save), true) == requested(
            w,
            action,
            false,
        ),
{
}

/// A failed save keeps the action waiting and changes nothing.
pub proof fn failed_save_keeps_the_question_open(w: Workflow)
    ensures
        answered(w, Some(Confirmation::Save), false) == (w, Effect::Nothing),
{
}

/// Restarting to install a staged update closes the window just as closing
/// does: on a document without unsaved changes the request closes the window
/// at once and allows the close, and after the user saves or discards a
/// waiting restart the window closes too.
pub proof fn restart_closes_the_window(w: Workflow, saved: bool)
    ensures
        requested(w, PendingAction::Restart, false).1 is Close,
        requested(w, PendingAction::Restart, false).0.allow_close,
        requested(w, PendingAction::Restart, false).0.pending == w.pending,
        requested(w, PendingAction::Restart, false) == requested(w, PendingAction::Close, false),
        w.pending == Some(PendingAction::Restart) ==> answered(w, Some(Confirmation::Discard), saved).1 is Close
            && answered(w, Some(Confirmation::Discard), saved).0.allow_close,
        w.pending == Some(PendingAction::Restart) ==> answered(w, Some(Confirmation::Save), true).1 is Close
            && answered(w, Some(Confirmation::Save), true).0.allow_close,
{
}

/// Opening never closes the window: on a document without unsaved changes
/// a request to open a path opens exactly that path, a request for the open
/// dialog shows the picker, and neither allows a close that was not allowed.
pub proof fn opening_never_closes(w: Workflow, path: std::path::PathBuf)
    ensures
        requested(w, PendingAction::OpenPath(path), false).1 == Effect::Open(path),
        requested(w, PendingAction::OpenPath(path), false).0 == w,
        requested(w, PendingAction::OpenDialog, false).1 is PickFile,
        requested(w, PendingAction::OpenDialog, false).0 == w,
{
}

/// Cancelling after a request over unsaved changes drops the request and
/// returns to the state before it, with nothing waiting.
pub proof fn cancel_undoes_the_request(w: Workflow, action: PendingAction, saved: bool)
    requires
        w.pending is None,
    ensures
        answered(requested(w, action, true).0, Some(Confirmation::Cancel), saved) == (
            w,
            Effect::Nothing,
        ),
{
}

} // verus!

verus! {

/// A keyboard shortcut of the editor.
#[derive(Clone, Copy, Debug, PartialEq, Eq, Structural)]
pub enum Shortcut {
    /// Command+O: open a document.
    Open,
    /// Command+S: save the document.
    Save,
    /// Command+Shift+S: save the document under a new name.
    SaveAs,
}

/// The shortcuts one frame of keyboard input triggers, in the order they
/// run: with the command modifier held, O opens, S saves, and Shift+S saves
/// under a new name. Without the command modifier nothing is triggered.
pub open spec fn shortcuts_of(command: bool, shift: bool, key_o: bool, key_s: bool) -> Seq<Shortcut> {
    let open = if command && key_o {
        seq![Shortcut::Open]
    } else {
        Seq::empty()
    };
    let save = if command && key_s {
        seq![
            if shift {
                Shortcut::SaveAs
            } else {
                Shortcut::Save
            },
        ]
    } else {
        Seq::empty()
    };
    open + save
}

/// The shortcuts one frame of keyboard input triggers; `command` and `shift`
/// tell whether those modifiers are held, `key_o` and `key_s` whether O and
/// S were pressed.
pub fn shortcuts(command: bool, shift: bool, key_o: bool, key_s: bool) -> (r: Vec<Shortcut>)
    ensures
        r@ == shortcuts_of(command, shift, key_o, key_s),
{
    let mut r: Vec<Shortcut> = Vec::new();
    if command && key_o {
        r.push(Shortcut::Open);
    }
    if command && key_s {
        if shift {
            r.push(Shortcut::SaveAs);
        } else {
            r.push(Shortcut::Save);
        }
    }
    assert(r@ =~= shortcuts_of(command, shift, key_o, key_s));
    r
}

} // verus!
