//! Running a command through the shell of the platform.

use vstd::prelude::*;
use vstd::string::*;

verus! {

/// Why a command could not be run.
#[derive(Debug)]
pub enum ExecutorError {
    CommandError(std::io::Error),
}

/// What a command wrote, as one text: its standard output, then its standard
/// error on a line of its own.  A part that is empty is left out, and so is
/// the line break next to it.
pub open spec fn merged(stdout: Seq<char>, stderr: Seq<char>) -> Seq<char> {
    if stdout.len() == 0 {
        stderr
    } else if stderr.len() == 0 {
        stdout
    } else {
        stdout + seq!['\n'] + stderr
    }
}

/// Joins what a command wrote to its two streams.
pub fn merge_output(stdout: &str, stderr: &str) -> (r: String)
    ensures
        r@ == merged(stdout@, stderr@),
{
    if stdout.is_empty() {
        String::from_str(stderr)
    } else if stderr.is_empty() {
        String::from_str(stdout)
    } else {
        proof {
            reveal_strlit("\n");
            assert("\n"@ =~= seq!['\n']);
        }
        String::from_str(stdout).concat("\n").concat(stderr)
    }
}

} // verus!
