//! What the engine decides about the install directory: which of its
//! entries is the platform directory that takes the boot configuration, and
//! what to say about a launch.

use vstd::prelude::*;

verus! {

/// The number of a character, with upper-case ASCII letters counted as their
/// lower-case ones.
pub open spec fn folded(c: char) -> u32 {
    if 'A' <= c <= 'Z' {
        (c as u32 + 32) as u32
    } else {
        c as u32
    }
}

/// Whether two texts are the same but for the case of ASCII letters.
pub open spec fn eq_ignore_ascii_case(a: Seq<char>, b: Seq<char>) -> bool {
    a.len() == b.len() && forall|i: int| 0 <= i < a.len() ==> folded(a[i]) == folded(b[i])
}

/// Whether a directory entry is called like a platform directory.
pub open spec fn is_platform_name(name: Seq<char>) -> bool {
    eq_ignore_ascii_case(name, "linux"@) || eq_ignore_ascii_case(name, "win64"@)
        || eq_ignore_ascii_case(name, "osx"@)
}

fn fold(c: char) -> (n: u32)
    ensures
        n == folded(c),
{
    if 'A' <= c && c <= 'Z' {
        c as u32 + 32
    } else {
        c as u32
    }
}

fn same_ignoring_case(a: &str, b: &str) -> (same: bool)
    ensures
        same == eq_ignore_ascii_case(a@, b@),
{
    let n = a.unicode_len();
    if n != b.unicode_len() {
        return false;
    }
    let mut i: usize = 0;
    while i < n
        invariant
            i <= n,
            n == a@.len(),
            n == b@.len(),
            forall|k: int| 0 <= k < i ==> folded(a@[k]) == folded(b@[k]),
        decreases n - i,
    {
        if fold(a.get_char(i)) != fold(b.get_char(i)) {
            return false;
        }
        i += 1;
    }
    true
}

/// Whether a directory entry is called like a platform directory: `linux`,
/// `win64` or `osx`, in any case of letters.
pub fn is_platform_dir(name: &str) -> (is: bool)
    ensures
        is == is_platform_name(name@),
{
    same_ignoring_case(name, "linux") || same_ignoring_case(name, "win64") || same_ignoring_case(
        name,
        "osx",
    )
}

/// The first entry of the install directory that is a platform directory,
/// or the line that says that there is none.
pub fn find_platform_dir(names: &Vec<String>) -> (found: Result<usize, String>)
    ensures
        match found {
            Ok(i) => i < names@.len() && is_platform_name(names@[i as int]@) && forall|k: int|
                0 <= k < i ==> !is_platform_name(#[trigger] names@[k]@),
            Err(line) => line@
                == "There is an error: No linux or windows subdirectory found in selected folder!"@
                && forall|k: int| 0 <= k < names@.len() ==> !is_platform_name(#[trigger] names@[k]@),
        },
{
    let mut i: usize = 0;
    while i < names.len()
        invariant
            i <= names.len(),
            forall|k: int| 0 <= k < i ==> !is_platform_name(#[trigger] names@[k]@),
        decreases names.len() - i,
    {
        if is_platform_dir(names[i].as_str()) {
            return Ok(i);
        }
        i += 1;
    }
    Err("There is an error: No linux or windows subdirectory found in selected folder!".to_owned())
}

/// How a launch of the game ended.
#[derive(Clone, Copy, Debug, PartialEq, Eq, Structural)]
pub enum LaunchOutcome {
    /// The game could not be started.
    NotStarted,
    /// The game ran and ended with success.
    ExitedOk,
    /// The game ran and ended with a failure.
    ExitedAbnormally,
    /// The game ran, and how it ended could not be learned.
    ExitUnknown,
}

/// The line that reports how a launch ended.
pub open spec fn launch_text(outcome: LaunchOutcome) -> Seq<char> {
    match outcome {
        LaunchOutcome::NotStarted => "Error starting starbound!"@,
        LaunchOutcome::ExitedOk => "Starbound exited OK"@,
        LaunchOutcome::ExitedAbnormally => "Starbound exited abnormally!"@,
        LaunchOutcome::ExitUnknown => "Error getting starbound exit code!"@,
    }
}

/// The line that reports how a launch ended.
pub fn launch_message(outcome: LaunchOutcome) -> (line: String)
    ensures
        line@ == launch_text(outcome),
{
    match outcome {
        LaunchOutcome::NotStarted => "Error starting starbound!".to_owned(),
        LaunchOutcome::ExitedOk => "Starbound exited OK".to_owned(),
        LaunchOutcome::ExitedAbnormally => "Starbound exited abnormally!".to_owned(),
        LaunchOutcome::ExitUnknown => "Error getting starbound exit code!".to_owned(),
    }
}

} // verus!
