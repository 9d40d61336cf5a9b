//! The home screen of the desktop client.

use vstd::prelude::*;

verus! {

/// What the home screen tells the client.
#[derive(Clone, Copy, Debug, PartialEq, Eq, Structural)]
pub enum MessageHome {
    /// The user asked for a new file.
    CreateFile,
    /// The work that a message started is done.
    TaskCompleted,
}

/// The state of the home screen. It has none yet.
#[derive(Clone, Copy, Debug, PartialEq, Eq, Structural)]
pub struct StateHome {}

impl Default for StateHome {
    fn default() -> Self {
        StateHome {  }
    }
}

/// The work that a message asks the client to do.
#[derive(Clone, Copy, Debug, PartialEq, Eq, Structural)]
pub enum Command {
    /// Nothing to do.
    Idle,
    /// Set up the user's folder with its configuration file, then report
    /// [`MessageHome::TaskCompleted`].
    InitializeFolders,
}

/// The work that a message of the home screen asks for.
pub open spec fn home_command(message: MessageHome) -> Command {
    match message {
        MessageHome::CreateFile => Command::InitializeFolders,
        MessageHome::TaskCompleted => Command::Idle,
    }
}

/// Decides what a message of the home screen asks the client to do.
pub fn handle_message(message: MessageHome) -> (r: Command)
    ensures
        r == home_command(message),
{
    match message {
        MessageHome::CreateFile => Command::InitializeFolders,
        MessageHome::TaskCompleted => Command::Idle,
    }
}

} // verus!
