//! The subcommands of the control program, and the word each one sends.

use crate::socket::{lemma_decode_vocabulary, Command};
use vstd::prelude::*;

verus! {

/// The arguments of the control program.
pub struct Cli {
    pub command: Commands,
}

/// The subcommands of the control program.
#[derive(Debug, Clone, Copy, PartialEq, Eq, Structural)]
pub enum Commands {
    /// Toggle the timer between running and paused
    Toggle,
    /// Start the timer
    Start,
    /// Stop/pause the timer
    Stop,
    /// Reset the timer to the beginning
    Reset,
    /// Skip to the next phase
    Skip,
}

impl Commands {
    /// The command that this subcommand asks for.
    pub open spec fn command(self) -> Command {
        match self {
            Commands::Toggle => Command::Toggle,
            Commands::Start => Command::Start,
            Commands::Stop => Command::Stop,
            Commands::Reset => Command::Reset,
            Commands::Skip => Command::Skip,
        }
    }

    /// The payload to send: the word of the command asked for.
    pub fn as_str(&self) -> (word: &'static str)
        ensures
            word@ == self.command().word(),
    {
        match self {
            Commands::Toggle => "toggle",
            Commands::Start => "start",
            Commands::Stop => "stop",
            Commands::Reset => "reset",
            Commands::Skip => "skip",
        }
    }
}

/// What the control program sends for a subcommand, the listener decodes to
/// the command that the subcommand asks for.
pub proof fn lemma_sent_word_is_understood(subcommand: Commands)
    ensures
        Command::decode(subcommand.command().word()) == Some(subcommand.command()),
{
    lemma_decode_vocabulary(subcommand.command().word(), subcommand.command());
}

} // verus!
