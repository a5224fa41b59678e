use vstd::prelude::*;

verus! {

/// Name of the external agent executable, resolved through the execution
/// environment's standard search path.
pub open spec fn spec_program_name() -> Seq<char> {
    "opencode"@
}

/// The argument vector handed to the child process: the fixed subcommand,
/// the model-selection flag with the model, then the prompt as a final
/// positional argument. Each entry is a discrete argv element; nothing is
/// ever concatenated into a shell string.
pub open spec fn spec_command_args(model: Seq<char>, prompt: Seq<char>) -> Seq<Seq<char>> {
    seq!["run"@, "-m"@, model, prompt]
}

/// Returns the executable name the runner launches.
pub fn program_name() -> (name: String)
    ensures
        name@ == spec_program_name(),
{
    String::from_str("opencode")
}

/// Builds the child's argument vector for one invocation.
///
/// The model and prompt are passed verbatim as separate argv entries, so
/// neither is subject to shell interpretation.
pub fn command_args(model: &str, prompt: &str) -> (args: Vec<String>)
    ensures
        args@.len() == 4,
        args@[0]@ == spec_command_args(model@, prompt@)[0],
        args@[1]@ == spec_command_args(model@, prompt@)[1],
        args@[2]@ == model@,
        args@[3]@ == prompt@,
{
    let mut args: Vec<String> = Vec::new();
    args.push(String::from_str("run"));
    args.push(String::from_str("-m"));
    args.push(String::from_str(model));
    args.push(String::from_str(prompt));
    args
}

} // verus!
