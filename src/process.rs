//! Which processes belong to the target application, and how stopping them
//! is reported.
use vstd::prelude::*;
use crate::account::AgentError;
use crate::paths::TargetOs;
use crate::snapshot::{count_text, decimal_text};
use crate::text::{contains_text, join_list, joined_list, text_contains, text_equals};

verus! {

/// A rule that picks out a process of the target application.
#[derive(Clone, Copy, Debug)]
pub enum ProcessPattern {
    /// The process name is exactly this.
    ExactName(&'static str),
    /// The command line holds this text.
    CmdContains(&'static str),
}

pub open spec fn pattern_matches(p: ProcessPattern, name: Seq<char>, cmd: Seq<char>) -> bool {
    match p {
        ProcessPattern::ExactName(n) => name == n@,
        ProcessPattern::CmdContains(t) => contains_text(cmd, t@),
    }
}

/// The rules of each platform.
pub open spec fn patterns_spec(os: TargetOs) -> Seq<ProcessPattern> {
    match os {
        TargetOs::MacOs => seq![
            ProcessPattern::CmdContains("/Applications/Antigravity.app/Contents/MacOS/Electron"),
            ProcessPattern::CmdContains("Antigravity.app/Contents/Frameworks/Antigravity Helper"),
        ],
        TargetOs::Windows => seq![
            ProcessPattern::ExactName("Antigravity.exe"),
            ProcessPattern::ExactName("Antigravity"),
        ],
        TargetOs::Linux => seq![
            ProcessPattern::ExactName("antigravity"),
            ProcessPattern::CmdContains("Antigravity.AppImage"),
        ],
        TargetOs::Other => seq![ProcessPattern::ExactName("Antigravity")],
    }
}

/// The rules that pick out the target application's processes on `os`: the
/// main process and its helpers by command line on macOS, by name on Windows,
/// by name or by the AppImage on Linux.
pub fn get_antigravity_process_patterns(os: TargetOs) -> (r: Vec<ProcessPattern>)
    ensures
        r@ == patterns_spec(os),
{
    let r = match os {
        TargetOs::MacOs => vec![
            ProcessPattern::CmdContains("/Applications/Antigravity.app/Contents/MacOS/Electron"),
            ProcessPattern::CmdContains("Antigravity.app/Contents/Frameworks/Antigravity Helper"),
        ],
        TargetOs::Windows => vec![
            ProcessPattern::ExactName("Antigravity.exe"),
            ProcessPattern::ExactName("Antigravity"),
        ],
        TargetOs::Linux => vec![
            ProcessPattern::ExactName("antigravity"),
            ProcessPattern::CmdContains("Antigravity.AppImage"),
        ],
        TargetOs::Other => vec![ProcessPattern::ExactName("Antigravity")],
    };
    assert(r@ =~= patterns_spec(os));
    r
}

/// Whether a process with this name and command line matches one of the rules.
pub fn matches_antigravity_process(
    process_name: &str,
    process_cmd: &str,
    patterns: &[ProcessPattern],
) -> (r: bool)
    ensures
        r == exists|i: int|
            0 <= i < patterns@.len() && pattern_matches(
                #[trigger] patterns@[i],
                process_name@,
                process_cmd@,
            ),
{
    let mut matched = false;
    let mut i: usize = 0;
    while i < patterns.len()
        invariant
            i <= patterns@.len(),
            matched == exists|j: int|
                0 <= j < i && pattern_matches(#[trigger] patterns@[j], process_name@, process_cmd@),
        decreases patterns@.len() - i,
    {
        let hit = match patterns[i] {
            ProcessPattern::ExactName(n) => text_equals(process_name, n),
            ProcessPattern::CmdContains(t) => text_contains(process_cmd, t),
        };
        proof {
            if hit {
                assert(pattern_matches(patterns@[i as int], process_name@, process_cmd@));
            }
        }
        matched = matched || hit;
        i = i + 1;
    }
    matched
}

/// How a stopped process is listed: `"<name> (PID: <pid>)"`, with `" - forced"`
/// after the number where a second attempt was needed.
pub open spec fn killed_text(name: Seq<char>, pid: u32, forced: bool) -> Seq<char> {
    name + " (PID: "@ + decimal_text(pid as nat) + if forced {
        " - forced)"@
    } else {
        ")"@
    }
}

pub fn killed_label(name: &str, pid: u32, forced: bool) -> (r: String)
    ensures
        r@ == killed_text(name@, pid, forced),
{
    let mut r = String::from_str(name);
    r.append(" (PID: ");
    let n = count_text(pid as usize);
    r.append(n.as_str());
    if forced {
        r.append(" - forced)");
    } else {
        r.append(")");
    }
    r
}

/// The report of stopping the target application, given how many processes
/// matched and the labels of those stopped: the list of those stopped where
/// there is one; else `NotFound` where none matched, and a
/// `ProcessControlFailure` where some matched but none could be stopped.
pub fn kill_outcome(matched: usize, killed: &Vec<String>) -> (r: Result<String, AgentError>)
    ensures
        killed@.len() > 0 ==> r is Ok && r->Ok_0@ == "Successfully closed Antigravity processes: "@
            + joined_list(killed@.map_values(|s: String| s@), ", "@),
        killed@.len() == 0 && matched == 0 ==> r is Err && r->Err_0 is NotFound,
        killed@.len() == 0 && matched > 0 ==> r is Err && r->Err_0 is ProcessControlFailure,
{
    if killed.len() == 0 {
        if matched == 0 {
            return Err(AgentError::NotFound(String::from_str("Antigravity process not found")));
        }
        return Err(
            AgentError::ProcessControlFailure(
                String::from_str("Could not stop the matching Antigravity processes"),
            ),
        );
    }
    let list = join_list(killed, ", ");
    Ok(String::from_str("Successfully closed Antigravity processes: ").concat(list.as_str()))
}

} // verus!
