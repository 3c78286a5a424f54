//! The commands of the migration protocol.
use vstd::prelude::*;

verus! {

/// What the sender asks of the receiver.
#[derive(Clone, Copy, Debug, PartialEq, Eq, Structural)]
pub enum Command {
    Invalid,
    Start,
    Config,
    State,
    Memory,
    Complete,
    Abandon,
    MemoryFd,
}

/// How far a migration has come.
#[derive(Clone, Copy, Debug, PartialEq, Eq, Structural)]
pub enum Stage {
    /// The connection is established and no command has come yet.
    Established,
    /// The start command has come.
    Started,
    /// Descriptors for memory have come.
    MemoryFdsReceived,
    /// The configuration has come. From this point on, memory may come.
    Configured,
    /// Memory is populated and the state has come. The VM is ready to go.
    StateReceived,
    /// The migration is successful.
    Completed,
    /// The migration could not complete, due to an error or because the sender
    /// gave up.
    Aborted,
}

impl Stage {
    /// Whether nothing more comes.
    pub open spec fn is_finished(self) -> bool {
        self == Stage::Completed || self == Stage::Aborted
    }

    /// The stage after a command, if the command may come at this stage.
    pub open spec fn after(self, command: Command) -> Option<Stage> {
        if self.is_finished() {
            None
        } else if command == Command::Abandon {
            Some(Stage::Aborted)
        } else {
            match (self, command) {
                (Stage::Established, Command::Start) => Some(Stage::Started),
                (Stage::Started, Command::MemoryFd) => Some(Stage::MemoryFdsReceived),
                (Stage::MemoryFdsReceived, Command::MemoryFd) => Some(Stage::MemoryFdsReceived),
                (Stage::Started, Command::Config) => Some(Stage::Configured),
                (Stage::MemoryFdsReceived, Command::Config) => Some(Stage::Configured),
                (Stage::Configured, Command::Memory) => Some(Stage::Configured),
                (Stage::Configured, Command::State) => Some(Stage::StateReceived),
                (Stage::StateReceived, Command::Complete) => Some(Stage::Completed),
                _ => None,
            }
        }
    }

    /// The stage after commands, if each of them may come when it does.
    pub open spec fn after_all(self, commands: Seq<Command>) -> Option<Stage>
        decreases commands.len(),
    {
        if commands.len() == 0 {
            Some(self)
        } else {
            match self.after_all(commands.drop_last()) {
                Some(stage) => stage.after(commands.last()),
                None => None,
            }
        }
    }
}

} // verus!
