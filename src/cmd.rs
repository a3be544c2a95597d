use vstd::prelude::*;
use vstd::string::*;

use crate::error::PullError;

verus! {

/// The program's name, as shell completions know it.
pub open spec fn program_name() -> Seq<char> {
    "estunnel"@
}

/// The user name sent when none is given.
pub open spec fn default_user() -> Seq<char> {
    "estunnel"@
}

/// The shells for which completions can be generated.
#[derive(PartialEq, Eq, Structural, Clone, Copy, Debug)]
pub enum Shell {
    Bash,
    Fish,
    Zsh,
    PowerShell,
    Elvish,
}

/// Options of the `completion` command: the shell and the directory the
/// completion script goes to.
pub struct CompletionOpt {
    pub shell: Shell,
    pub output: String,
}

/// A completion script to generate: for which program, for which shell,
/// into which directory.
pub struct CompletionJob {
    pub program: String,
    pub shell: Shell,
    pub directory: String,
}

/// The completion script that the `completion` command asks for.
pub fn completion(opt: CompletionOpt) -> (r: CompletionJob)
    ensures
        r.program@ == program_name(),
        r.shell == opt.shell,
        r.directory == opt.output,
{
    CompletionJob { program: String::from_str("estunnel"), shell: opt.shell, directory: opt.output }
}

/// The user to authenticate as: the one given, or the default.
pub fn effective_user(user: Option<String>) -> (r: String)
    ensures
        user matches Some(u) ==> r == u,
        user is None ==> r@ == default_user(),
{
    match user {
        Some(u) => u,
        None => String::from_str("estunnel"),
    }
}

/// The outcome of a whole pull: the first failure of a slice, if one
/// failed, else what writing the output came to.
pub fn run_result(first_failure: Option<PullError>, written: Result<(), PullError>) -> (r: Result<(), PullError>)
    ensures
        first_failure matches Some(e) ==> r == Err::<(), PullError>(e),
        first_failure is None ==> r == written,
{
    match first_failure {
        Some(e) => Err(e),
        None => written,
    }
}

} // verus!
