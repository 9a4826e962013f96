//! The launch command handed to the host once a binary path is resolved: the
//! path itself, an always-empty argument list, and an always-empty
//! environment.

use vstd::prelude::*;

verus! {

/// A command line for starting the language server.
pub struct Command {
    pub command: String,
    pub args: Vec<String>,
    pub env: Vec<(String, String)>,
}

/// Builds the launch command for a resolved binary path: no arguments, no
/// environment variables.
pub fn command_for(binary_path: String) -> (c: Command)
    ensures
        c.command == binary_path,
        c.args@ == Seq::<String>::empty(),
        c.env@ == Seq::<(String, String)>::empty(),
{
    Command { command: binary_path, args: Vec::new(), env: Vec::new() }
}

} // verus!
