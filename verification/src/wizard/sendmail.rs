//! Setup of the command-based sending backend: the configuration built
//! from the answered prompt.

use vstd::prelude::*;

use crate::config::SendmailConfig;

verus! {

/// Build the command-based sending configuration from the shell command
/// the user gave.
pub fn start(cmd: String) -> (r: SendmailConfig)
    ensures
        r.cmd == cmd,
{
    SendmailConfig { cmd }
}

} // verus!
