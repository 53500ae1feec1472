use vstd::prelude::*;

verus! {

// Exit codes follow the shell conventions.

/// Normal termination.
pub const EXIT_SUCCESS: i32 = 0;

/// General error: a resource is not available, permission denied, etc.
pub const EXIT_FAILURE: i32 = 1;

/// Invalid usage, e.g. a missing required option.
pub const EXIT_USAGE: i32 = 2;

/// The command could not be executed.
pub const EXIT_COMMAND_FAILED: i32 = 126;

/// The command was killed by a signal: the exit code is this value plus the
/// signal number.
pub const EXIT_COMMAND_SIGNALED: i32 = 128;

} // verus!
