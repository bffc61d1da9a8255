//! The command line: what each command asks the program to do.
use vstd::prelude::*;

use crate::StreamhookMessage;

verus! {

/// The subcommands of `streamer`.
pub enum StreamerCommands {
    /// Add a streamer's Twitch handle.
    Add { streamer: String },
    /// Remove a streamer's Twitch handle.
    Remove { streamer: String },
    /// List the streamers.
    List,
}

/// The commands of the program.
pub enum Commands {
    /// Manage the streamers.
    Streamer { command: StreamerCommands },
    /// Start the bot.
    Start,
}

/// The parsed command line.
pub struct Cli {
    command: Commands,
}

impl Cli {
    pub closed spec fn spec_command(&self) -> Commands {
        self.command
    }

    /// A command line that asks for `command`.
    pub fn new(command: Commands) -> (cli: Cli)
        ensures
            cli.spec_command() == command,
    {
        Cli { command }
    }

    /// The command asked for.
    pub fn command(&self) -> (command: &Commands)
        ensures
            *command == self.spec_command(),
    {
        &self.command
    }
}

/// The message a command asks for.
pub open spec fn message_of(command: Commands) -> StreamhookMessage {
    match command {
        Commands::Streamer { .. } => StreamhookMessage::Streamer,
        Commands::Start => StreamhookMessage::Start,
    }
}

/// The line a `streamer` subcommand prints: the handle it names, or `List`.
pub open spec fn streamer_line(command: StreamerCommands) -> Seq<char> {
    match command {
        StreamerCommands::Add { streamer } => streamer@,
        StreamerCommands::Remove { streamer } => streamer@,
        StreamerCommands::List => "List"@,
    }
}

/// What the command line asks the program to do.
pub fn streamhook_parse_args(cli: Cli) -> (message: StreamhookMessage)
    ensures
        message == message_of(cli.spec_command()),
        cli.spec_command() is Streamer ==> message == StreamhookMessage::Streamer,
        cli.spec_command() is Start ==> message == StreamhookMessage::Start,
{
    match cli.command {
        Commands::Streamer { .. } => StreamhookMessage::Streamer,
        Commands::Start => StreamhookMessage::Start,
    }
}

/// The line to print for a `streamer` subcommand.
pub fn parse_streamer_args(command: &StreamerCommands) -> (line: String)
    ensures
        line@ == streamer_line(*command),
        command matches StreamerCommands::Add { streamer } ==> line@ == streamer@,
        command matches StreamerCommands::Remove { streamer } ==> line@ == streamer@,
        command is List ==> line@ == "List"@,
{
    match command {
        StreamerCommands::Add { streamer } => streamer.clone(),
        StreamerCommands::Remove { streamer } => streamer.clone(),
        StreamerCommands::List => String::from_str("List"),
    }
}

/// Every `streamer` subcommand manages the streamers and leaves the bot
/// stopped; only `start` starts it.
pub proof fn lemma_only_start_starts(command: StreamerCommands)
    ensures
        message_of(Commands::Streamer { command }) == StreamhookMessage::Streamer,
        message_of(Commands::Start) == StreamhookMessage::Start,
{
}

/// The line printed for `add` or `remove` is the whole handle, as given; for
/// `list` it is `List`.
pub proof fn lemma_streamer_line_is_the_handle(handle: String)
    ensures
        streamer_line(StreamerCommands::Add { streamer: handle }) == handle@,
        streamer_line(StreamerCommands::Remove { streamer: handle }) == handle@,
        streamer_line(StreamerCommands::List) == "List"@,
{
}

} // verus!
