//! Locating a Chromium-based browser and driving its headless print to PDF:
//! the places searched, the command line, and the decisions taken while the
//! browser runs and the PDF appears.

use vstd::prelude::*;

use crate::platform::{paths_view, strs_view, JoinedPath, Platform};
use crate::text::{chars_of, push_signed_decimal, signed_decimal, trim_chars, trimmed};

verus! {

/// The installation roots searched on Windows: the values of
/// `ProgramFiles`, `ProgramFiles(x86)` and `LOCALAPPDATA` that are set, then
/// the two standard program directories.
pub open spec fn windows_roots(
    program_files: Option<Seq<char>>,
    program_files_x86: Option<Seq<char>>,
    local_app_data: Option<Seq<char>>,
) -> Seq<Seq<char>> {
    let set = |v: Option<Seq<char>>|
        match v {
            Some(s) => seq![s],
            None => Seq::<Seq<char>>::empty(),
        };
    set(program_files) + set(program_files_x86) + set(local_app_data) + seq![
        "C:\\Program Files"@,
        "C:\\Program Files (x86)"@,
    ]
}

/// Where a browser lives below a Windows installation root, in the order
/// searched: Edge, Chrome, Chromium.
pub open spec fn windows_browser_dirs() -> Seq<Seq<char>> {
    seq![
        "Microsoft\\Edge\\Application\\msedge.exe"@,
        "Google\\Chrome\\Application\\chrome.exe"@,
        "Chromium\\Application\\chrome.exe"@,
    ]
}

/// The fixed browser locations searched on macOS.
pub open spec fn mac_browser_paths() -> Seq<Seq<char>> {
    seq![
        "/Applications/Google Chrome.app/Contents/MacOS/Google Chrome"@,
        "/Applications/Microsoft Edge.app/Contents/MacOS/Microsoft Edge"@,
        "/Applications/Chromium.app/Contents/MacOS/Chromium"@,
        "/Applications/Google Chrome Canary.app/Contents/MacOS/Google Chrome Canary"@,
    ]
}

/// The fixed browser locations searched on the other Unix systems.
pub open spec fn unix_browser_paths() -> Seq<Seq<char>> {
    seq![
        "/usr/bin/google-chrome-stable"@,
        "/usr/bin/google-chrome"@,
        "/usr/bin/chromium"@,
        "/usr/bin/chromium-browser"@,
        "/usr/bin/microsoft-edge"@,
        "/usr/bin/microsoft-edge-stable"@,
        "/snap/bin/chromium"@,
    ]
}

/// Each root joined with each browser directory, root by root.
pub open spec fn windows_candidates(roots: Seq<Seq<char>>) -> Seq<(Seq<char>, Seq<Seq<char>>)>
    decreases roots.len(),
{
    if roots.len() == 0 {
        Seq::empty()
    } else {
        let root = roots.last();
        windows_candidates(roots.drop_last()) + seq![
            (root, seq![windows_browser_dirs()[0]]),
            (root, seq![windows_browser_dirs()[1]]),
            (root, seq![windows_browser_dirs()[2]]),
        ]
    }
}

/// A path that is its base alone.
pub open spec fn plain_path(p: Seq<char>) -> (Seq<char>, Seq<Seq<char>>) {
    (p, Seq::empty())
}

/// The browser executables to look for, in order, on `platform`.
pub open spec fn browser_candidate_paths(
    platform: Platform,
    program_files: Option<Seq<char>>,
    program_files_x86: Option<Seq<char>>,
    local_app_data: Option<Seq<char>>,
) -> Seq<(Seq<char>, Seq<Seq<char>>)> {
    match platform {
        Platform::Windows => windows_candidates(
            windows_roots(program_files, program_files_x86, local_app_data),
        ),
        Platform::MacOs => mac_browser_paths().map_values(|p: Seq<char>| plain_path(p)),
        Platform::Linux | Platform::OtherUnix => unix_browser_paths().map_values(
            |p: Seq<char>| plain_path(p),
        ),
        Platform::Other => Seq::empty(),
    }
}

fn plain(p: &str) -> (r: JoinedPath)
    ensures
        r@ == plain_path(p@),
{
    let r = JoinedPath { base: String::from_str(p), tail: Vec::new() };
    assert(r.tail.deep_view() =~= Seq::<Seq<char>>::empty());
    r
}

fn push_plain_paths(out: &mut Vec<JoinedPath>, items: &[&str])
    ensures
        paths_view(final(out)@) == paths_view(old(out)@) + strs_view(items@).map_values(
            |p: Seq<char>| plain_path(p),
        ),
{
    let ghost start = paths_view(out@);
    let ghost want = strs_view(items@).map_values(|p: Seq<char>| plain_path(p));
    let mut i: usize = 0;
    while i < items.len()
        invariant
            i <= items@.len(),
            want == strs_view(items@).map_values(|p: Seq<char>| plain_path(p)),
            paths_view(out@) == start + want.take(i as int),
        decreases items@.len() - i,
    {
        let p = plain(items[i]);
        assert(p@ == want[i as int]);
        let ghost prev = out@;
        out.push(p);
        assert(paths_view(out@) =~= paths_view(prev).push(want[i as int]));
        assert(want.take(i + 1) =~= want.take(i as int).push(want[i as int]));
        i = i + 1;
        assert(paths_view(out@) =~= start + want.take(i as int));
    }
    assert(want.take(i as int) =~= want);
}

fn below_root(root: &str, dir: &str) -> (r: JoinedPath)
    ensures
        r@ == (root@, seq![dir@]),
{
    let mut tail: Vec<String> = Vec::new();
    tail.push(String::from_str(dir));
    let r = JoinedPath { base: String::from_str(root), tail };
    assert(r.tail.deep_view() =~= seq![dir@]);
    r
}

/// The browser executables to look for, in order, on `platform`, given the
/// values of `ProgramFiles`, `ProgramFiles(x86)` and `LOCALAPPDATA`.
pub fn browser_candidates(
    platform: Platform,
    program_files: Option<String>,
    program_files_x86: Option<String>,
    local_app_data: Option<String>,
) -> (r: Vec<JoinedPath>)
    ensures
        paths_view(r@) == browser_candidate_paths(
            platform,
            crate::text::opt_view(program_files),
            crate::text::opt_view(program_files_x86),
            crate::text::opt_view(local_app_data),
        ),
{
    let mut paths: Vec<JoinedPath> = Vec::new();
    match platform {
        Platform::Windows => {
            let ghost roots = windows_roots(
                crate::text::opt_view(program_files),
                crate::text::opt_view(program_files_x86),
                crate::text::opt_view(local_app_data),
            );
            let mut root_list: Vec<String> = Vec::new();
            match program_files {
                Some(v) => root_list.push(v),
                None => {},
            }
            match program_files_x86 {
                Some(v) => root_list.push(v),
                None => {},
            }
            match local_app_data {
                Some(v) => root_list.push(v),
                None => {},
            }
            root_list.push(String::from_str("C:\\Program Files"));
            root_list.push(String::from_str("C:\\Program Files (x86)"));
            assert(root_list.deep_view() =~= roots);
            let mut i: usize = 0;
            while i < root_list.len()
                invariant
                    i <= root_list@.len(),
                    root_list.deep_view() == roots,
                    paths_view(paths@) == windows_candidates(roots.take(i as int)),
                decreases root_list@.len() - i,
            {
                let root = root_list[i].as_str();
                assert(root@ == roots[i as int]);
                let ghost before = paths_view(paths@);
                paths.push(below_root(root, "Microsoft\\Edge\\Application\\msedge.exe"));
                paths.push(below_root(root, "Google\\Chrome\\Application\\chrome.exe"));
                paths.push(below_root(root, "Chromium\\Application\\chrome.exe"));
                proof {
                    assert(roots.take(i + 1).drop_last() =~= roots.take(i as int));
                    assert(roots.take(i + 1).last() == roots[i as int]);
                }
                i = i + 1;
                assert(paths_view(paths@) =~= windows_candidates(roots.take(i as int)));
            }
            assert(roots.take(i as int) =~= roots);
        },
        Platform::MacOs => {
            let items: [&str; 4] = [
                "/Applications/Google Chrome.app/Contents/MacOS/Google Chrome",
                "/Applications/Microsoft Edge.app/Contents/MacOS/Microsoft Edge",
                "/Applications/Chromium.app/Contents/MacOS/Chromium",
                "/Applications/Google Chrome Canary.app/Contents/MacOS/Google Chrome Canary",
            ];
            assert(strs_view(items@) =~= mac_browser_paths());
            push_plain_paths(&mut paths, &items);
            assert(paths_view(paths@) =~= mac_browser_paths().map_values(
                |p: Seq<char>| plain_path(p),
            ));
        },
        Platform::Linux | Platform::OtherUnix => {
            let items: [&str; 7] = [
                "/usr/bin/google-chrome-stable",
                "/usr/bin/google-chrome",
                "/usr/bin/chromium",
                "/usr/bin/chromium-browser",
                "/usr/bin/microsoft-edge",
                "/usr/bin/microsoft-edge-stable",
                "/snap/bin/chromium",
            ];
            assert(strs_view(items@) =~= unix_browser_paths());
            push_plain_paths(&mut paths, &items);
            assert(paths_view(paths@) =~= unix_browser_paths().map_values(
                |p: Seq<char>| plain_path(p),
            ));
        },
        Platform::Other => {
            assert(paths_view(paths@) =~= Seq::empty());
        },
    }
    paths
}

} // verus!

verus! {

/// Whether an environment value is set, as a count.
pub open spec fn set_count(v: Option<Seq<char>>) -> int {
    if v is Some {
        1
    } else {
        0
    }
}

proof fn lemma_windows_candidates_at(roots: Seq<Seq<char>>)
    ensures
        windows_candidates(roots).len() == 3 * roots.len(),
        forall|i: int|
            0 <= i < 3 * roots.len() ==> #[trigger] windows_candidates(roots)[i] == (
                roots[i / 3],
                seq![windows_browser_dirs()[i % 3]],
            ),
    decreases roots.len(),
{
    if roots.len() > 0 {
        let rest = roots.drop_last();
        lemma_windows_candidates_at(rest);
        let c = windows_candidates(roots);
        let n = rest.len();
        assert forall|i: int| 0 <= i < 3 * roots.len() implies #[trigger] c[i] == (
            roots[i / 3],
            seq![windows_browser_dirs()[i % 3]],
        ) by {
            if i < 3 * n {
                assert(c[i] == windows_candidates(rest)[i]);
                assert(i / 3 < n);
                assert(rest[i / 3] == roots[i / 3]);
            } else {
                assert(i / 3 == n);
                assert(i - 3 * n == i % 3);
            }
        }
    }
}

/// On Windows the search covers, in order, each installation root whose
/// environment variable is set (`ProgramFiles`, then `ProgramFiles(x86)`,
/// then `LOCALAPPDATA`) and then the two standard program directories; below
/// each root it looks for Edge, Chrome and Chromium, in that order. So there
/// are three candidates for each set variable and six more.
pub proof fn windows_search_covers_every_root(
    program_files: Option<Seq<char>>,
    program_files_x86: Option<Seq<char>>,
    local_app_data: Option<Seq<char>>,
    candidates: Seq<(Seq<char>, Seq<Seq<char>>)>,
)
    requires
        candidates == browser_candidate_paths(
            Platform::Windows,
            program_files,
            program_files_x86,
            local_app_data,
        ),
    ensures
        candidates.len() == 3 * (set_count(program_files) + set_count(program_files_x86)
            + set_count(local_app_data) + 2),
        forall|d: int|
            0 <= d < 3 ==> (program_files matches Some(root) ==> candidates[d] == (
                root,
                seq![#[trigger] windows_browser_dirs()[d]],
            )),
        forall|d: int|
            0 <= d < 3 ==> (program_files_x86 matches Some(root) ==> candidates[3 * set_count(
                program_files,
            ) + d] == (root, seq![#[trigger] windows_browser_dirs()[d]])),
        forall|d: int|
            0 <= d < 3 ==> (local_app_data matches Some(root) ==> candidates[3 * (set_count(
                program_files,
            ) + set_count(program_files_x86)) + d] == (
                root,
                seq![#[trigger] windows_browser_dirs()[d]],
            )),
        forall|d: int|
            0 <= d < 3 ==> candidates[3 * (set_count(program_files) + set_count(program_files_x86)
                + set_count(local_app_data)) + d] == (
                "C:\\Program Files"@,
                seq![#[trigger] windows_browser_dirs()[d]],
            ),
        forall|d: int|
            0 <= d < 3 ==> candidates[3 * (set_count(program_files) + set_count(program_files_x86)
                + set_count(local_app_data)) + 3 + d] == (
                "C:\\Program Files (x86)"@,
                seq![#[trigger] windows_browser_dirs()[d]],
            ),
{
    let roots = windows_roots(program_files, program_files_x86, local_app_data);
    lemma_windows_candidates_at(roots);
    let a = set_count(program_files);
    let b = set_count(program_files_x86);
    let l = set_count(local_app_data);
    assert(roots.len() == a + b + l + 2);
    assert(program_files matches Some(root) ==> roots[0] == root);
    assert(program_files_x86 matches Some(root) ==> roots[a] == root);
    assert(local_app_data matches Some(root) ==> roots[a + b] == root);
    assert(roots[a + b + l] == "C:\\Program Files"@);
    assert(roots[a + b + l + 1] == "C:\\Program Files (x86)"@);
    assert forall|k: int, d: int| 0 <= k < roots.len() && 0 <= d < 3 implies #[trigger] candidates[3
        * k + d] == (roots[k], seq![#[trigger] windows_browser_dirs()[d]]) by {
        assert((3 * k + d) / 3 == k);
        assert((3 * k + d) % 3 == d);
        assert(candidates[3 * k + d] == windows_candidates(roots)[3 * k + d]);
    }
}

/// The command names looked up on `PATH`, in order, on `platform`.
pub open spec fn browser_command_names(platform: Platform) -> Seq<Seq<char>> {
    match platform {
        Platform::Windows => seq!["msedge"@, "chrome"@, "chromium"@],
        Platform::MacOs => seq!["google-chrome"@, "chromium"@, "microsoft-edge"@],
        Platform::Linux | Platform::OtherUnix => seq![
            "google-chrome-stable"@,
            "google-chrome"@,
            "chromium"@,
            "chromium-browser"@,
            "microsoft-edge"@,
            "microsoft-edge-stable"@,
        ],
        Platform::Other => Seq::empty(),
    }
}

/// The browser command names to look up on `PATH` on `platform`.
pub fn browser_names_on_path(platform: Platform) -> (r: Vec<&'static str>)
    ensures
        strs_view(r@) == browser_command_names(platform),
{
    let r: Vec<&'static str> = match platform {
        Platform::Windows => vec!["msedge", "chrome", "chromium"],
        Platform::MacOs => vec!["google-chrome", "chromium", "microsoft-edge"],
        Platform::Linux | Platform::OtherUnix => vec![
            "google-chrome-stable",
            "google-chrome",
            "chromium",
            "chromium-browser",
            "microsoft-edge",
            "microsoft-edge-stable",
        ],
        Platform::Other => Vec::new(),
    };
    assert(strs_view(r@) =~= browser_command_names(platform));
    r
}

/// Where the browser for printing was found.
#[derive(Clone, Copy, Debug, PartialEq, Eq, Structural)]
pub enum BrowserChoice {
    /// The candidate location with this index exists as a file.
    Candidate(usize),
    /// The command name with this index resolved on `PATH`.
    OnPath(usize),
}

fn first_true(flags: &Vec<bool>) -> (r: Option<usize>)
    ensures
        match r {
            Some(k) => k < flags@.len() && flags@[k as int] && forall|m: int|
                0 <= m < k ==> !flags@[m],
            None => forall|m: int| 0 <= m < flags@.len() ==> !flags@[m],
        },
{
    let mut i: usize = 0;
    while i < flags.len()
        invariant
            i <= flags@.len(),
            forall|m: int| 0 <= m < i ==> !flags@[m],
        decreases flags@.len() - i,
    {
        if flags[i] {
            return Some(i);
        }
        i = i + 1;
    }
    None
}

/// Picks the browser for printing: the first candidate location that is a
/// file, else the first command name that resolves on `PATH`.
pub fn find_chromium_browser(candidate_is_file: &Vec<bool>, found_on_path: &Vec<bool>) -> (r: Option<
    BrowserChoice,
>)
    ensures
        match r {
            Some(BrowserChoice::Candidate(k)) => k < candidate_is_file@.len()
                && candidate_is_file@[k as int] && forall|m: int|
                0 <= m < k ==> !candidate_is_file@[m],
            Some(BrowserChoice::OnPath(k)) => (forall|m: int|
                0 <= m < candidate_is_file@.len() ==> !candidate_is_file@[m]) && k
                < found_on_path@.len() && found_on_path@[k as int] && forall|m: int|
                0 <= m < k ==> !found_on_path@[m],
            None => (forall|m: int| 0 <= m < candidate_is_file@.len() ==> !candidate_is_file@[m])
                && forall|m: int| 0 <= m < found_on_path@.len() ==> !found_on_path@[m],
        },
{
    match first_true(candidate_is_file) {
        Some(k) => Some(BrowserChoice::Candidate(k)),
        None => match first_true(found_on_path) {
            Some(k) => Some(BrowserChoice::OnPath(k)),
            None => None,
        },
    }
}

/// The characters of `s` before its first line feed.
pub open spec fn first_line(s: Seq<char>) -> Seq<char>
    decreases s.len(),
{
    if s.len() == 0 || s[0] == '\n' {
        Seq::empty()
    } else {
        seq![s[0]] + first_line(s.drop_first())
    }
}

proof fn lemma_first_line_at(s: Seq<char>, j: int)
    requires
        0 <= j <= s.len(),
        forall|k: int| 0 <= k < j ==> #[trigger] s[k] != '\n',
        j == s.len() || s[j] == '\n',
    ensures
        first_line(s) == s.subrange(0, j),
    decreases j,
{
    if j == 0 {
        assert(s.subrange(0, 0) =~= Seq::<char>::empty());
    } else {
        let t = s.drop_first();
        assert forall|k: int| 0 <= k < j - 1 implies #[trigger] t[k] != '\n' by {
            assert(t[k] == s[k + 1]);
        }
        assert(s[0] != '\n');
        lemma_first_line_at(t, j - 1);
        assert(seq![s[0]] + t.subrange(0, j - 1) =~= s.subrange(0, j));
    }
}

/// The path a `which` or `where.exe` lookup printed: its first output line,
/// trimmed; none when that line is blank.
pub fn which_output_path(stdout: &str) -> (r: Option<String>)
    ensures
        match r {
            Some(p) => p@ == trimmed(first_line(stdout@)) && p@.len() > 0,
            None => trimmed(first_line(stdout@)).len() == 0,
        },
{
    let cs = chars_of(stdout);
    let mut j: usize = 0;
    while j < cs.len() && cs[j] != '\n'
        invariant
            j <= cs@.len(),
            forall|k: int| 0 <= k < j ==> #[trigger] cs@[k] != '\n',
        decreases cs@.len() - j,
    {
        j = j + 1;
    }
    proof {
        lemma_first_line_at(cs@, j as int);
    }
    let line = cs_prefix(&cs, j);
    let t = trim_chars(&line);
    if t.len() == 0 {
        None
    } else {
        Some(crate::text::string_from_chars(&t))
    }
}

fn cs_prefix(cs: &Vec<char>, j: usize) -> (r: Vec<char>)
    requires
        j <= cs@.len(),
    ensures
        r@ == cs@.subrange(0, j as int),
{
    let mut out: Vec<char> = Vec::new();
    let mut k: usize = 0;
    while k < j
        invariant
            k <= j <= cs@.len(),
            out@ == cs@.subrange(0, k as int),
        decreases j - k,
    {
        out.push(cs[k]);
        k = k + 1;
        assert(out@ =~= cs@.subrange(0, k as int));
    }
    out
}

/// The message when the exported file does not start like a PDF.
pub open spec fn invalid_pdf_message() -> Seq<char> {
    "Could not export PDF: browser wrote an invalid PDF."@
}

/// Checks the first bytes read from an exported file (up to five): at least
/// four were read and they are `%PDF`.
pub fn check_pdf_header(header: &[u8]) -> (r: Result<(), String>)
    ensures
        r is Ok <==> header@.len() >= 4 && header@.take(4) == seq![37u8, 80u8, 68u8, 70u8],
        r matches Err(e) ==> e@ == invalid_pdf_message(),
{
    if header.len() >= 4 && header[0] == 37 && header[1] == 80 && header[2] == 68 && header[3]
        == 70 {
        assert(header@.take(4) =~= seq![37u8, 80u8, 68u8, 70u8]);
        Ok(())
    } else {
        proof {
            if header@.len() >= 4 {
                assert(header@.take(4)[0] == header@[0]);
                assert(header@.take(4)[1] == header@[1]);
                assert(header@.take(4)[2] == header@[2]);
                assert(header@.take(4)[3] == header@[3]);
            }
        }
        Err(String::from_str("Could not export PDF: browser wrote an invalid PDF."))
    }
}

/// One look at the exported file while waiting for it to settle: `len` is
/// its size (zero while it is missing). Answers the size to remember and
/// whether the header should be checked now, which is when a non-empty size
/// was seen twice in a row.
pub fn pdf_size_step(last_len: Option<u64>, len: u64) -> (r: (Option<u64>, bool))
    ensures
        len == 0 ==> r == (last_len, false),
        len > 0 && last_len == Some(len) ==> r == (last_len, true),
        len > 0 && last_len != Some(len) ==> r == (Some(len), false),
{
    if len > 0 {
        match last_len {
            Some(prev) => {
                if prev == len {
                    return (last_len, true);
                }
            },
            None => {},
        }
        (Some(len), false)
    } else {
        (last_len, false)
    }
}

/// The message when the browser produced no PDF before the deadline.
pub fn no_pdf_message() -> (r: String)
    ensures
        r@ == "Could not export PDF: browser did not produce a PDF file."@,
{
    String::from_str("Could not export PDF: browser did not produce a PDF file.")
}

/// The message when no Chromium-based browser can be found.
pub fn no_browser_message() -> (r: String)
    ensures
        r@
            == "Could not export PDF: no Chromium-based browser found (install Microsoft Edge or Google Chrome, or export as HTML and print to PDF from the browser)."@,
{
    String::from_str(
        "Could not export PDF: no Chromium-based browser found (install Microsoft Edge or Google Chrome, or export as HTML and print to PDF from the browser).",
    )
}

/// What one poll of the printing browser process found.
#[derive(Debug)]
pub enum ChildPoll {
    /// The process exited, successfully or not, with its exit code if any.
    Exited { success: bool, code: Option<i32> },
    /// The process is still running.
    Running,
    /// Its state could not be read; the error's description.
    Failed(String),
}

/// What to do after polling the printing browser.
#[derive(Debug)]
pub enum WaitStep {
    /// Waiting is over with this result.
    Finished(Result<(), String>),
    /// The timeout passed: kill the process, reap it, and fail with this.
    Kill(String),
    /// Poll again after a short sleep.
    Sleep,
}

/// Decides the next step of waiting for the browser from one poll;
/// `timed_out` tells whether the timeout has passed.
pub fn wait_step(poll: ChildPoll, timed_out: bool) -> (r: WaitStep)
    ensures
        match poll {
            ChildPoll::Exited { success, code } => if success {
                r == WaitStep::Finished(Ok(()))
            } else {
                r matches WaitStep::Finished(Err(e)) && e@ == "exit code "@ + signed_decimal(
                    match code {
                        Some(c) => c as int,
                        None => -1,
                    },
                )
            },
            ChildPoll::Running => if timed_out {
                r matches WaitStep::Kill(e) && e@ == "timed out"@
            } else {
                r is Sleep
            },
            ChildPoll::Failed(detail) => r == WaitStep::Finished(Err(detail)),
        },
{
    match poll {
        ChildPoll::Exited { success, code } => {
            if success {
                WaitStep::Finished(Ok(()))
            } else {
                let c: i32 = match code {
                    Some(c) => c,
                    None => -1,
                };
                let mut message = String::from_str("exit code ");
                push_signed_decimal(&mut message, c as i64);
                WaitStep::Finished(Err(message))
            }
        },
        ChildPoll::Running => {
            if timed_out {
                WaitStep::Kill(String::from_str("timed out"))
            } else {
                WaitStep::Sleep
            }
        },
        ChildPoll::Failed(detail) => WaitStep::Finished(Err(detail)),
    }
}

/// The command-line arguments for printing `html_url` to `pdf_path` with a
/// throwaway browser profile in `profile_dir`.
pub fn browser_arguments(profile_dir: &str, pdf_path: &str, html_url: &str) -> (r: Vec<String>)
    ensures
        r.deep_view() == seq![
            "--headless=new"@,
            "--user-data-dir="@ + profile_dir@,
            "--disable-gpu"@,
            "--disable-extensions"@,
            "--no-first-run"@,
            "--no-default-browser-check"@,
            "--no-pdf-header-footer"@,
            "--allow-file-access-from-files"@,
            "--print-to-pdf="@ + pdf_path@,
            html_url@,
        ],
{
    let mut user_data = String::from_str("--user-data-dir=");
    user_data.append(profile_dir);
    let mut print_flag = String::from_str("--print-to-pdf=");
    print_flag.append(pdf_path);
    let mut args: Vec<String> = Vec::new();
    args.push(String::from_str("--headless=new"));
    args.push(user_data);
    args.push(String::from_str("--disable-gpu"));
    args.push(String::from_str("--disable-extensions"));
    args.push(String::from_str("--no-first-run"));
    args.push(String::from_str("--no-default-browser-check"));
    args.push(String::from_str("--no-pdf-header-footer"));
    args.push(String::from_str("--allow-file-access-from-files"));
    args.push(print_flag);
    args.push(String::from_str(html_url));
    assert(args.deep_view() =~= seq![
        "--headless=new"@,
        "--user-data-dir="@ + profile_dir@,
        "--disable-gpu"@,
        "--disable-extensions"@,
        "--no-first-run"@,
        "--no-default-browser-check"@,
        "--no-pdf-header-footer"@,
        "--allow-file-access-from-files"@,
        "--print-to-pdf="@ + pdf_path@,
        html_url@,
    ]);
    args
}

/// The result of a print run from the PDF check `pdf` and the browser's own
/// result `browser`: a valid PDF wins; otherwise a browser failure is
/// reported with a hint, and a browser success with the PDF problem.
pub fn print_outcome(pdf: Result<(), String>, browser: Result<(), String>) -> (r: Result<(), String>)
    ensures
        match pdf {
            Ok(()) => r is Ok,
            Err(pdf_error) => match browser {
                Ok(()) => r == Err::<(), String>(pdf_error),
                Err(browser_error) => r matches Err(e) && e@
                    == "Could not export PDF: browser print failed ("@ + browser_error@
                    + "). Try exporting HTML instead."@,
            },
        },
{
    match pdf {
        Ok(()) => Ok(()),
        Err(pdf_error) => match browser {
            Ok(()) => Err(pdf_error),
            Err(browser_error) => {
                let mut message = String::from_str("Could not export PDF: browser print failed (");
                message.append(browser_error.as_str());
                message.append("). Try exporting HTML instead.");
                Err(message)
            },
        },
    }
}

} // verus!
