//! The process runner's decisions: where the user command lives once
//! the root change has happened, and how the child's outcome becomes
//! this program's own exit behaviour.

use vstd::prelude::*;

verus! {

/// How a child process ended: with a numeric exit code, or killed by
/// a signal (no code available).
#[derive(Clone, Copy, PartialEq, Eq, Structural, Debug)]
pub enum ExitOutcome {
    Code(i32),
    Signalled,
}

/// What this program does once the child has ended: report success,
/// or terminate at once with the child's own nonzero code.
#[derive(Clone, Copy, PartialEq, Eq, Structural, Debug)]
pub enum RunDisposition {
    Success,
    MirrorExit(i32),
}

/// The exit-mirroring policy: code 0 and death by signal are success;
/// a nonzero code is mirrored exactly.
pub open spec fn spec_dispose(o: ExitOutcome) -> RunDisposition {
    match o {
        ExitOutcome::Code(n) => if n == 0 {
            RunDisposition::Success
        } else {
            RunDisposition::MirrorExit(n)
        },
        ExitOutcome::Signalled => RunDisposition::Success,
    }
}

/// Map a child's outcome to this program's disposition: a child that
/// exited 0 or was killed by a signal means success; a child that
/// exited with nonzero code `n` means terminating with exactly `n`.
pub fn dispose_exit(o: ExitOutcome) -> (r: RunDisposition)
    ensures
        r == spec_dispose(o),
{
    match o {
        ExitOutcome::Code(n) => if n == 0 {
            RunDisposition::Success
        } else {
            RunDisposition::MirrorExit(n)
        },
        ExitOutcome::Signalled => RunDisposition::Success,
    }
}

/// `r` is `command` rooted at `/`: unchanged when already absolute,
/// prefixed with `/` otherwise.
pub open spec fn is_rooted_path(command: Seq<char>, r: Seq<char>) -> bool {
    if command.len() > 0 && command[0] == '/' {
        r == command
    } else {
        r == seq!['/'] + command
    }
}

/// The absolute path of the user command as seen after confinement:
/// the path is kept as given, rooted at `/`, on the premise that the
/// pulled filesystem holds the executable at that very path.
pub fn resolve_exec_path(command: &str) -> (r: String)
    ensures
        is_rooted_path(command@, r@),
{
    let n = command.unicode_len();
    if n > 0 && command.get_char(0) == '/' {
        command.to_owned()
    } else {
        let mut s = "/".to_owned();
        s.append(command);
        proof {
            reveal_strlit("/");
            assert(s@ =~= seq!['/'] + command@);
        }
        s
    }
}

} // verus!
