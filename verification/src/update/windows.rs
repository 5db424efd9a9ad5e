//! The Windows hand-off to the installer: the PowerShell script that waits
//! for PinkDown to exit and runs setup, its file names, and the decisions
//! taken while waiting for the script to acknowledge the hand-off.

use vstd::prelude::*;

use crate::text::{decimal, push_char, push_decimal};
use crate::update::UpdateError;

verus! {

/// `p` with each apostrophe doubled, as PowerShell's single quotes need.
pub open spec fn double_apostrophes(p: Seq<char>) -> Seq<char>
    decreases p.len(),
{
    if p.len() == 0 {
        Seq::empty()
    } else {
        double_apostrophes(p.drop_last()) + if p.last() == '\'' {
            seq!['\'', '\'']
        } else {
            seq![p.last()]
        }
    }
}

/// `p` as a PowerShell single-quoted string literal.
pub open spec fn ps_quoted(p: Seq<char>) -> Seq<char> {
    seq!['\''] + double_apostrophes(p) + seq!['\'']
}

/// The lines of the script after its variable assignments.
pub open spec fn script_body() -> Seq<char> {
    "try {\n    Set-Content -LiteralPath $ready -Value 'ready' -Encoding ascii\n    $parent = Get-Process -Id $parentId -ErrorAction SilentlyContinue\n    if ($parent) { Wait-Process -Id $parentId }\n    $installArgs = @('/VERYSILENT', '/SUPPRESSMSGBOXES', '/NORESTART', ('/DIR=\"' + $installDir + '\"'))\n    $setup = Start-Process -FilePath $installer -ArgumentList $installArgs -Wait -PassThru\n    if ($setup.ExitCode -ne 0) { throw \"Installer exited with code $($setup.ExitCode)\" }\n    if (!(Test-Path -LiteralPath $current)) { throw 'Installed application was not found' }\n    Start-Process -FilePath $current\n    Remove-Item -LiteralPath $installer -Force\n    if (Test-Path -LiteralPath $log) { Remove-Item -LiteralPath $log -Force }\n} catch {\n    ($_ | Out-String) | Set-Content -LiteralPath $log\n    if (Test-Path -LiteralPath $current) { Start-Process -FilePath $current }\n} finally {\n    if (Test-Path -LiteralPath $ready) { Remove-Item -LiteralPath $ready -Force }\n    Remove-Item -LiteralPath $script -Force\n}"@
}

/// The updater script: it records the paths it works with, signals that it
/// is ready, waits for process `parent_id` to exit, runs the installer
/// silently into the running application's directory, restarts the
/// application, and logs any failure.
pub open spec fn update_script_text(
    parent_id: u32,
    installer: Seq<char>,
    current: Seq<char>,
    ready: Seq<char>,
    log: Seq<char>,
    script: Seq<char>,
) -> Seq<char> {
    "$ErrorActionPreference = 'Stop'\n$parentId = "@ + decimal(parent_id as nat) + "\n$installer = "@
        + ps_quoted(installer) + "\n$current = "@ + ps_quoted(current)
        + "\n$installDir = Split-Path -Parent $current\n$ready = "@ + ps_quoted(ready) + "\n$log = "@
        + ps_quoted(log) + "\n$script = "@ + ps_quoted(script) + "\n"@ + script_body()
}

/// Appends `p` to `out` as a PowerShell single-quoted literal.
fn push_quoted(out: &mut String, p: &str)
    ensures
        final(out)@ == old(out)@ + ps_quoted(p@),
{
    let cs = crate::text::chars_of(p);
    push_char(out, '\'');
    let ghost start = out@;
    let mut i: usize = 0;
    while i < cs.len()
        invariant
            i <= cs@.len(),
            cs@ == p@,
            out@ == start + double_apostrophes(cs@.take(i as int)),
        decreases cs@.len() - i,
    {
        let c = cs[i];
        proof {
            assert(cs@.take(i + 1).drop_last() =~= cs@.take(i as int));
        }
        if c == '\'' {
            push_char(out, '\'');
            push_char(out, '\'');
        } else {
            push_char(out, c);
        }
        i = i + 1;
        assert(out@ =~= start + double_apostrophes(cs@.take(i as int)));
    }
    assert(cs@.take(i as int) =~= p@);
    push_char(out, '\'');
    assert(final(out)@ =~= old(out)@ + ps_quoted(p@));
}

/// The PowerShell script that installs a downloaded update once process
/// `parent_id` has exited. The paths are the installer, the running
/// executable, the ready marker, the error log and the script itself.
pub fn update_script(
    parent_id: u32,
    installer: &str,
    current: &str,
    ready: &str,
    log: &str,
    script: &str,
) -> (r: String)
    ensures
        r@ == update_script_text(parent_id, installer@, current@, ready@, log@, script@),
{
    let mut out = String::from_str("$ErrorActionPreference = 'Stop'\n$parentId = ");
    push_decimal(&mut out, parent_id as u64);
    out.append("\n$installer = ");
    push_quoted(&mut out, installer);
    out.append("\n$current = ");
    push_quoted(&mut out, current);
    out.append("\n$installDir = Split-Path -Parent $current\n$ready = ");
    push_quoted(&mut out, ready);
    out.append("\n$log = ");
    push_quoted(&mut out, log);
    out.append("\n$script = ");
    push_quoted(&mut out, script);
    out.append("\n");
    out.append(
        "try {\n    Set-Content -LiteralPath $ready -Value 'ready' -Encoding ascii\n    $parent = Get-Process -Id $parentId -ErrorAction SilentlyContinue\n    if ($parent) { Wait-Process -Id $parentId }\n    $installArgs = @('/VERYSILENT', '/SUPPRESSMSGBOXES', '/NORESTART', ('/DIR=\"' + $installDir + '\"'))\n    $setup = Start-Process -FilePath $installer -ArgumentList $installArgs -Wait -PassThru\n    if ($setup.ExitCode -ne 0) { throw \"Installer exited with code $($setup.ExitCode)\" }\n    if (!(Test-Path -LiteralPath $current)) { throw 'Installed application was not found' }\n    Start-Process -FilePath $current\n    Remove-Item -LiteralPath $installer -Force\n    if (Test-Path -LiteralPath $log) { Remove-Item -LiteralPath $log -Force }\n} catch {\n    ($_ | Out-String) | Set-Content -LiteralPath $log\n    if (Test-Path -LiteralPath $current) { Start-Process -FilePath $current }\n} finally {\n    if (Test-Path -LiteralPath $ready) { Remove-Item -LiteralPath $ready -Force }\n    Remove-Item -LiteralPath $script -Force\n}",
    );
    assert(out@ =~= update_script_text(parent_id, installer@, current@, ready@, log@, script@));
    out
}

} // verus!

verus! {

/// The names, in the temporary directory, of the updater's script, ready
/// marker and error log for process `process_id`.
pub open spec fn updater_file_names_text(process_id: u32) -> (Seq<char>, Seq<char>, Seq<char>) {
    (
        "pinkdown-update-"@ + decimal(process_id as nat) + ".ps1"@,
        "pinkdown-update-"@ + decimal(process_id as nat) + ".ready"@,
        "pinkdown-update-"@ + decimal(process_id as nat) + ".log"@,
    )
}

fn updater_file_name(process_id: u32, extension: &str) -> (r: String)
    ensures
        r@ == "pinkdown-update-"@ + decimal(process_id as nat) + "."@ + extension@,
{
    let mut name = String::from_str("pinkdown-update-");
    push_decimal(&mut name, process_id as u64);
    name.append(".");
    name.append(extension);
    name
}

/// The file names of the updater's script, ready marker and error log.
pub fn updater_file_names(process_id: u32) -> (r: (String, String, String))
    ensures
        (r.0@, r.1@, r.2@) == updater_file_names_text(process_id),
{
    let script = updater_file_name(process_id, "ps1");
    let ready = updater_file_name(process_id, "ready");
    let log = updater_file_name(process_id, "log");
    proof {
        reveal_strlit(".");
        reveal_strlit("ps1");
        reveal_strlit("ready");
        reveal_strlit("log");
        reveal_strlit(".ps1");
        reveal_strlit(".ready");
        reveal_strlit(".log");
        assert(script@ =~= updater_file_names_text(process_id).0);
        assert(ready@ =~= updater_file_names_text(process_id).1);
        assert(log@ =~= updater_file_names_text(process_id).2);
    }
    (script, ready, log)
}

/// What one look at the started updater found, while the hand-off deadline
/// has not passed.
#[derive(Debug)]
pub enum HandoffProbe {
    /// The ready marker exists.
    Ready,
    /// The marker is missing and the updater process has exited.
    Exited,
    /// The marker is missing and the updater is still running.
    Running,
    /// The marker is missing and the updater's state could not be read.
    InspectFailed(String),
}

/// What to do after a look at the updater.
#[derive(Debug)]
pub enum Handoff {
    /// The updater took over.
    Acknowledged,
    /// Look again after a short sleep.
    Wait,
    /// The hand-off failed.
    Failed(UpdateError),
    /// The deadline passed: stop the updater, delete its script, and fail.
    TimedOut(UpdateError),
}

/// Decides the next step of the hand-off from one look at the updater;
/// `probe` is none once the deadline has passed, and `log` is the error
/// log's path.
pub fn handoff_decision(probe: Option<HandoffProbe>, log: &str) -> (r: Handoff)
    ensures
        match probe {
            None => r matches Handoff::TimedOut(e) && e@
                == "Updater did not acknowledge the handoff"@,
            Some(HandoffProbe::Ready) => r is Acknowledged,
            Some(HandoffProbe::Running) => r is Wait,
            Some(HandoffProbe::Exited) => r matches Handoff::Failed(e) && e@
                == "Updater exited before handoff; see "@ + log@,
            Some(HandoffProbe::InspectFailed(detail)) => r matches Handoff::Failed(e) && e@
                == "Could not inspect updater: "@ + detail@,
        },
{
    match probe {
        None => Handoff::TimedOut(
            UpdateError::new(String::from_str("Updater did not acknowledge the handoff")),
        ),
        Some(HandoffProbe::Ready) => Handoff::Acknowledged,
        Some(HandoffProbe::Running) => Handoff::Wait,
        Some(HandoffProbe::Exited) => {
            let mut message = String::from_str("Updater exited before handoff; see ");
            message.append(log);
            Handoff::Failed(UpdateError::new(message))
        },
        Some(HandoffProbe::InspectFailed(detail)) => {
            let mut message = String::from_str("Could not inspect updater: ");
            message.append(detail.as_str());
            Handoff::Failed(UpdateError::new(message))
        },
    }
}

} // verus!

verus! {

/// How PowerShell reads the body of a single-quoted literal: each doubled
/// apostrophe stands for one.
pub open spec fn undouble_apostrophes(s: Seq<char>) -> Seq<char>
    decreases s.len(),
{
    if s.len() == 0 {
        Seq::empty()
    } else if s.len() >= 2 && s.last() == '\'' && s[s.len() - 2] == '\'' {
        undouble_apostrophes(s.subrange(0, s.len() - 2)).push('\'')
    } else {
        undouble_apostrophes(s.drop_last()).push(s.last())
    }
}

/// The script names every path exactly: PowerShell reads each quoted path
/// back as the path it was given.
pub proof fn quoted_paths_read_back(p: Seq<char>)
    ensures
        ps_quoted(p)[0] == '\'',
        ps_quoted(p).last() == '\'',
        undouble_apostrophes(ps_quoted(p).subrange(1, ps_quoted(p).len() - 1)) == p,
    decreases p.len(),
{
    let q = ps_quoted(p);
    assert(q.subrange(1, q.len() - 1) =~= double_apostrophes(p));
    if p.len() > 0 {
        quoted_paths_read_back(p.drop_last());
        let inner = double_apostrophes(p.drop_last());
        assert(ps_quoted(p.drop_last()).subrange(1, ps_quoted(p.drop_last()).len() - 1)
            =~= inner);
        let d = double_apostrophes(p);
        if p.last() == '\'' {
            assert(d.subrange(0, d.len() - 2) =~= inner);
        } else {
            assert(d.drop_last() =~= inner);
        }
        assert(p.drop_last().push(p.last()) =~= p);
    }
}

} // verus!

verus! {

/// Whether `part` stands in `s` starting at index `i`.
pub open spec fn occurs_at(s: Seq<char>, part: Seq<char>, i: int) -> bool {
    0 <= i && i + part.len() <= s.len() && s.subrange(i, i + part.len()) == part
}

/// Whether `part` stands somewhere in `s`.
pub open spec fn occurs_in(s: Seq<char>, part: Seq<char>) -> bool {
    exists|i: int| #[trigger] occurs_at(s, part, i)
}

/// The script line that binds PowerShell variable `name` to `value`.
pub open spec fn binding_line(name: Seq<char>, value: Seq<char>) -> Seq<char> {
    "\n$"@ + name + " = "@ + value + "\n"@
}

proof fn lemma_occurs_between(p: Seq<char>, part: Seq<char>, s: Seq<char>)
    ensures
        occurs_in(p + part + s, part),
{
    assert((p + part + s).subrange(p.len() as int, (p.len() + part.len()) as int) =~= part);
    assert(occurs_at(p + part + s, part, p.len() as int));
}

proof fn lemma_occurs_extend(p: Seq<char>, s: Seq<char>, t: Seq<char>, part: Seq<char>)
    requires
        occurs_in(s, part),
    ensures
        occurs_in(p + s, part),
        occurs_in(s + t, part),
{
    let i = choose|i: int| occurs_at(s, part, i);
    assert((p + s).subrange(p.len() + i, p.len() + i + part.len()) =~= s.subrange(
        i,
        i + part.len(),
    ));
    assert(occurs_at(p + s, part, p.len() + i));
    assert((s + t).subrange(i, i + part.len()) =~= s.subrange(i, i + part.len()));
    assert(occurs_at(s + t, part, i));
}

/// A binding line stands in `a + value + b` when `a` ends with the line's
/// start and `b` starts with a line feed.
proof fn lemma_binding_between(
    a: Seq<char>,
    value: Seq<char>,
    b: Seq<char>,
    before: Seq<char>,
    name: Seq<char>,
    after: Seq<char>,
)
    requires
        a == before + "\n$"@ + name + " = "@,
        b == "\n"@ + after,
    ensures
        occurs_in(a + value + b, binding_line(name, value)),
{
    assert(a + value + b =~= before + binding_line(name, value) + after);
    lemma_occurs_between(before, binding_line(name, value), after);
}

proof fn lemma_regroup(p: Seq<char>, a: Seq<char>, q: Seq<char>, b: Seq<char>)
    ensures
        p + a + q + b == p + (a + q + b),
{
    assert(p + a + q + b =~= p + (a + q + b));
}

/// Each variable of the updater script is bound, on a line of its own, to
/// the value passed for it: `$parentId` to the process id in decimal, and
/// `$installer`, `$current`, `$ready`, `$log` and `$script` to their own
/// paths, quoted. So the script writes its ready marker to the `ready`
/// path, logs to the `log` path and removes the `script` path.
pub proof fn script_binds_each_path(
    parent_id: u32,
    installer: Seq<char>,
    current: Seq<char>,
    ready: Seq<char>,
    log: Seq<char>,
    script: Seq<char>,
)
    ensures
        occurs_in(
            update_script_text(parent_id, installer, current, ready, log, script),
            binding_line("parentId"@, decimal(parent_id as nat)),
        ),
        occurs_in(
            update_script_text(parent_id, installer, current, ready, log, script),
            binding_line("installer"@, ps_quoted(installer)),
        ),
        occurs_in(
            update_script_text(parent_id, installer, current, ready, log, script),
            binding_line("current"@, ps_quoted(current)),
        ),
        occurs_in(
            update_script_text(parent_id, installer, current, ready, log, script),
            binding_line("ready"@, ps_quoted(ready)),
        ),
        occurs_in(
            update_script_text(parent_id, installer, current, ready, log, script),
            binding_line("log"@, ps_quoted(log)),
        ),
        occurs_in(
            update_script_text(parent_id, installer, current, ready, log, script),
            binding_line("script"@, ps_quoted(script)),
        ),
{
    let d = decimal(parent_id as nat);
    let q1 = ps_quoted(installer);
    let q2 = ps_quoted(current);
    let q3 = ps_quoted(ready);
    let q4 = ps_quoted(log);
    let q5 = ps_quoted(script);
    let body = script_body();
    let l0 = "$ErrorActionPreference = 'Stop'\n$parentId = "@;
    let a1 = "\n$installer = "@;
    let a2 = "\n$current = "@;
    let a3 = "\n$installDir = Split-Path -Parent $current\n$ready = "@;
    let a4 = "\n$log = "@;
    let a5 = "\n$script = "@;
    let nl = "\n"@;
    lemma_script_pieces();
    // parentId: within l0 + d + a1.
    lemma_binding_between(
        l0,
        d,
        a1,
        "$ErrorActionPreference = 'Stop'"@,
        "parentId"@,
        "$installer = "@,
    );
    let line = binding_line("parentId"@, d);
    let w = l0 + d + a1;
    lemma_occurs_extend(Seq::empty(), w, q1, line);
    lemma_occurs_extend(Seq::empty(), w + q1, a2, line);
    lemma_occurs_extend(Seq::empty(), w + q1 + a2, q2, line);
    lemma_occurs_extend(Seq::empty(), w + q1 + a2 + q2, a3, line);
    lemma_occurs_extend(Seq::empty(), w + q1 + a2 + q2 + a3, q3, line);
    lemma_occurs_extend(Seq::empty(), w + q1 + a2 + q2 + a3 + q3, a4, line);
    lemma_occurs_extend(Seq::empty(), w + q1 + a2 + q2 + a3 + q3 + a4, q4, line);
    lemma_occurs_extend(Seq::empty(), w + q1 + a2 + q2 + a3 + q3 + a4 + q4, a5, line);
    lemma_occurs_extend(Seq::empty(), w + q1 + a2 + q2 + a3 + q3 + a4 + q4 + a5, q5, line);
    lemma_occurs_extend(Seq::empty(), w + q1 + a2 + q2 + a3 + q3 + a4 + q4 + a5 + q5, nl, line);
    lemma_occurs_extend(
        Seq::empty(),
        w + q1 + a2 + q2 + a3 + q3 + a4 + q4 + a5 + q5 + nl,
        body,
        line,
    );
    // installer: within a1 + q1 + a2.
    lemma_binding_between(a1, q1, a2, Seq::empty(), "installer"@, "$current = "@);
    let line = binding_line("installer"@, q1);
    let pre = l0 + d;
    lemma_occurs_extend(pre, a1 + q1 + a2, Seq::empty(), line);
    lemma_regroup(pre, a1, q1, a2);
    let w = pre + a1 + q1 + a2;
    lemma_occurs_extend(Seq::empty(), w, q2, line);
    lemma_occurs_extend(Seq::empty(), w + q2, a3, line);
    lemma_occurs_extend(Seq::empty(), w + q2 + a3, q3, line);
    lemma_occurs_extend(Seq::empty(), w + q2 + a3 + q3, a4, line);
    lemma_occurs_extend(Seq::empty(), w + q2 + a3 + q3 + a4, q4, line);
    lemma_occurs_extend(Seq::empty(), w + q2 + a3 + q3 + a4 + q4, a5, line);
    lemma_occurs_extend(Seq::empty(), w + q2 + a3 + q3 + a4 + q4 + a5, q5, line);
    lemma_occurs_extend(Seq::empty(), w + q2 + a3 + q3 + a4 + q4 + a5 + q5, nl, line);
    lemma_occurs_extend(Seq::empty(), w + q2 + a3 + q3 + a4 + q4 + a5 + q5 + nl, body, line);
    // current: within a2 + q2 + a3.
    lemma_binding_between(
        a2,
        q2,
        a3,
        Seq::empty(),
        "current"@,
        "$installDir = Split-Path -Parent $current\n$ready = "@,
    );
    let line = binding_line("current"@, q2);
    let pre = l0 + d + a1 + q1;
    lemma_occurs_extend(pre, a2 + q2 + a3, Seq::empty(), line);
    lemma_regroup(pre, a2, q2, a3);
    let w = pre + a2 + q2 + a3;
    lemma_occurs_extend(Seq::empty(), w, q3, line);
    lemma_occurs_extend(Seq::empty(), w + q3, a4, line);
    lemma_occurs_extend(Seq::empty(), w + q3 + a4, q4, line);
    lemma_occurs_extend(Seq::empty(), w + q3 + a4 + q4, a5, line);
    lemma_occurs_extend(Seq::empty(), w + q3 + a4 + q4 + a5, q5, line);
    lemma_occurs_extend(Seq::empty(), w + q3 + a4 + q4 + a5 + q5, nl, line);
    lemma_occurs_extend(Seq::empty(), w + q3 + a4 + q4 + a5 + q5 + nl, body, line);
    // ready: within a3 + q3 + a4.
    lemma_binding_between(
        a3,
        q3,
        a4,
        "\n$installDir = Split-Path -Parent $current"@,
        "ready"@,
        "$log = "@,
    );
    let line = binding_line("ready"@, q3);
    let pre = l0 + d + a1 + q1 + a2 + q2;
    lemma_occurs_extend(pre, a3 + q3 + a4, Seq::empty(), line);
    lemma_regroup(pre, a3, q3, a4);
    let w = pre + a3 + q3 + a4;
    lemma_occurs_extend(Seq::empty(), w, q4, line);
    lemma_occurs_extend(Seq::empty(), w + q4, a5, line);
    lemma_occurs_extend(Seq::empty(), w + q4 + a5, q5, line);
    lemma_occurs_extend(Seq::empty(), w + q4 + a5 + q5, nl, line);
    lemma_occurs_extend(Seq::empty(), w + q4 + a5 + q5 + nl, body, line);
    // log: within a4 + q4 + a5.
    lemma_binding_between(a4, q4, a5, Seq::empty(), "log"@, "$script = "@);
    let line = binding_line("log"@, q4);
    let pre = l0 + d + a1 + q1 + a2 + q2 + a3 + q3;
    lemma_occurs_extend(pre, a4 + q4 + a5, Seq::empty(), line);
    lemma_regroup(pre, a4, q4, a5);
    let w = pre + a4 + q4 + a5;
    lemma_occurs_extend(Seq::empty(), w, q5, line);
    lemma_occurs_extend(Seq::empty(), w + q5, nl, line);
    lemma_occurs_extend(Seq::empty(), w + q5 + nl, body, line);
    // script: within a5 + q5 + nl.
    lemma_binding_between(a5, q5, nl + body, Seq::empty(), "script"@, body);
    let line = binding_line("script"@, q5);
    let pre = l0 + d + a1 + q1 + a2 + q2 + a3 + q3 + a4 + q4;
    lemma_occurs_extend(pre, a5 + q5 + (nl + body), Seq::empty(), line);
    assert(pre + a5 + q5 + nl + body =~= pre + (a5 + q5 + (nl + body)));
}

/// The literal pieces of the updater script, split where its binding lines
/// begin and end.
proof fn lemma_script_pieces()
    ensures
        "$ErrorActionPreference = 'Stop'\n$parentId = "@ == "$ErrorActionPreference = 'Stop'"@
            + "\n$"@ + "parentId"@ + " = "@,
        "\n$installer = "@ == Seq::<char>::empty() + "\n$"@ + "installer"@ + " = "@,
        "\n$installer = "@ == "\n"@ + "$installer = "@,
        "\n$current = "@ == Seq::<char>::empty() + "\n$"@ + "current"@ + " = "@,
        "\n$current = "@ == "\n"@ + "$current = "@,
        "\n$installDir = Split-Path -Parent $current\n$ready = "@
            == "\n$installDir = Split-Path -Parent $current"@ + "\n$"@ + "ready"@ + " = "@,
        "\n$installDir = Split-Path -Parent $current\n$ready = "@ == "\n"@
            + "$installDir = Split-Path -Parent $current\n$ready = "@,
        "\n$log = "@ == Seq::<char>::empty() + "\n$"@ + "log"@ + " = "@,
        "\n$log = "@ == "\n"@ + "$log = "@,
        "\n$script = "@ == Seq::<char>::empty() + "\n$"@ + "script"@ + " = "@,
        "\n$script = "@ == "\n"@ + "$script = "@,
{
    reveal_strlit("$ErrorActionPreference = 'Stop'\n$parentId = ");
    reveal_strlit("$ErrorActionPreference = 'Stop'");
    reveal_strlit("\n$installer = ");
    reveal_strlit("\n$current = ");
    reveal_strlit("\n$installDir = Split-Path -Parent $current\n$ready = ");
    reveal_strlit("\n$installDir = Split-Path -Parent $current");
    reveal_strlit("$installDir = Split-Path -Parent $current\n$ready = ");
    reveal_strlit("\n$log = ");
    reveal_strlit("\n$script = ");
    reveal_strlit("$installer = ");
    reveal_strlit("$current = ");
    reveal_strlit("$log = ");
    reveal_strlit("$script = ");
    reveal_strlit("\n");
    reveal_strlit("\n$");
    reveal_strlit(" = ");
    reveal_strlit("parentId");
    reveal_strlit("installer");
    reveal_strlit("current");
    reveal_strlit("ready");
    reveal_strlit("log");
    reveal_strlit("script");
    assert("$ErrorActionPreference = 'Stop'\n$parentId = "@ =~= "$ErrorActionPreference = 'Stop'"@
        + "\n$"@ + "parentId"@ + " = "@);
    assert("\n$installer = "@ =~= Seq::<char>::empty() + "\n$"@ + "installer"@ + " = "@);
    assert("\n$installer = "@ =~= "\n"@ + "$installer = "@);
    assert("\n$current = "@ =~= Seq::<char>::empty() + "\n$"@ + "current"@ + " = "@);
    assert("\n$current = "@ =~= "\n"@ + "$current = "@);
    assert("\n$installDir = Split-Path -Parent $current\n$ready = "@
        =~= "\n$installDir = Split-Path -Parent $current"@ + "\n$"@ + "ready"@ + " = "@);
    assert("\n$installDir = Split-Path -Parent $current\n$ready = "@ =~= "\n"@
        + "$installDir = Split-Path -Parent $current\n$ready = "@);
    assert("\n$log = "@ =~= Seq::<char>::empty() + "\n$"@ + "log"@ + " = "@);
    assert("\n$log = "@ =~= "\n"@ + "$log = "@);
    assert("\n$script = "@ =~= Seq::<char>::empty() + "\n$"@ + "script"@ + " = "@);
    assert("\n$script = "@ =~= "\n"@ + "$script = "@);
}

} // verus!

verus! {

/// What the updater script does with the paths it binds: it writes `ready`
/// to the `$ready` marker, waits for process `$parentId` to exit, runs the
/// `$installer` silently into `$installDir` and waits for it, restarts
/// `$current`, and writes any failure to `$log`.
pub proof fn script_steps_use_their_paths()
    ensures
        occurs_at(script_body(), "Set-Content -LiteralPath $ready -Value 'ready'"@, 10),
        occurs_at(script_body(), "Wait-Process -Id $parentId"@, 162),
        occurs_at(script_body(), "'/VERYSILENT'"@, 212),
        occurs_at(script_body(), "('/DIR=\"' + $installDir + '\"')"@, 262),
        occurs_at(script_body(), "Start-Process -FilePath $installer -ArgumentList $installArgs -Wait"@, 307),
        occurs_at(script_body(), "Start-Process -FilePath $current"@, 570),
        occurs_at(script_body(), "Set-Content -LiteralPath $log"@, 762),
{
    reveal_strlit("try {\n    Set-Content -LiteralPath $ready -Value 'ready' -Encoding ascii\n    $parent = Get-Process -Id $parentId -ErrorAction SilentlyContinue\n    if ($parent) { Wait-Process -Id $parentId }\n    $installArgs = @('/VERYSILENT', '/SUPPRESSMSGBOXES', '/NORESTART', ('/DIR=\"' + $installDir + '\"'))\n    $setup = Start-Process -FilePath $installer -ArgumentList $installArgs -Wait -PassThru\n    if ($setup.ExitCode -ne 0) { throw \"Installer exited with code $($setup.ExitCode)\" }\n    if (!(Test-Path -LiteralPath $current)) { throw 'Installed application was not found' }\n    Start-Process -FilePath $current\n    Remove-Item -LiteralPath $installer -Force\n    if (Test-Path -LiteralPath $log) { Remove-Item -LiteralPath $log -Force }\n} catch {\n    ($_ | Out-String) | Set-Content -LiteralPath $log\n    if (Test-Path -LiteralPath $current) { Start-Process -FilePath $current }\n} finally {\n    if (Test-Path -LiteralPath $ready) { Remove-Item -LiteralPath $ready -Force }\n    Remove-Item -LiteralPath $script -Force\n}");
    reveal_strlit("Set-Content -LiteralPath $ready -Value 'ready'");
    reveal_strlit("Wait-Process -Id $parentId");
    reveal_strlit("'/VERYSILENT'");
    reveal_strlit("('/DIR=\"' + $installDir + '\"')");
    reveal_strlit("Start-Process -FilePath $installer -ArgumentList $installArgs -Wait");
    reveal_strlit("Start-Process -FilePath $current");
    reveal_strlit("Set-Content -LiteralPath $log");
    assert(script_body().subrange(10, 10 + "Set-Content -LiteralPath $ready -Value 'ready'"@.len() as int) =~= "Set-Content -LiteralPath $ready -Value 'ready'"@);
    assert(script_body().subrange(162, 162 + "Wait-Process -Id $parentId"@.len() as int) =~= "Wait-Process -Id $parentId"@);
    assert(script_body().subrange(212, 212 + "'/VERYSILENT'"@.len() as int) =~= "'/VERYSILENT'"@);
    assert(script_body().subrange(262, 262 + "('/DIR=\"' + $installDir + '\"')"@.len() as int) =~= "('/DIR=\"' + $installDir + '\"')"@);
    assert(script_body().subrange(307, 307 + "Start-Process -FilePath $installer -ArgumentList $installArgs -Wait"@.len() as int) =~= "Start-Process -FilePath $installer -ArgumentList $installArgs -Wait"@);
    assert(script_body().subrange(570, 570 + "Start-Process -FilePath $current"@.len() as int) =~= "Start-Process -FilePath $current"@);
    assert(script_body().subrange(762, 762 + "Set-Content -LiteralPath $log"@.len() as int) =~= "Set-Content -LiteralPath $log"@);
}

} // verus!
