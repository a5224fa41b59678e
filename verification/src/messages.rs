use vstd::prelude::*;

verus! {

/// Text of the event and call result reported when the executable could not
/// be started: a fixed prefix followed by the operating system's description
/// of the failure.
pub open spec fn spec_launch_error_message(detail: Seq<char>) -> Seq<char> {
    "Failed to execute command: "@ + detail
}

/// Text of the call result reported when waiting for the child's exit fails
/// after its streams have been drained.
pub open spec fn spec_wait_error_message(detail: Seq<char>) -> Seq<char> {
    "Failed to wait for process: "@ + detail
}

/// Builds the launch-failure message around the system's error description.
pub fn launch_error_message(detail: &str) -> (msg: String)
    ensures
        msg@ == spec_launch_error_message(detail@),
{
    let mut msg = String::from_str("Failed to execute command: ");
    msg.append(detail);
    msg
}

/// Builds the wait-failure message around the system's error description.
pub fn wait_error_message(detail: &str) -> (msg: String)
    ensures
        msg@ == spec_wait_error_message(detail@),
{
    let mut msg = String::from_str("Failed to wait for process: ");
    msg.append(detail);
    msg
}

} // verus!
