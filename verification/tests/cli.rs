use sq_streamhook::cli::{parse_streamer_args, streamhook_parse_args, Cli, Commands, StreamerCommands};
use sq_streamhook::StreamhookMessage;

#[test]
fn start_command_starts() {
    assert_eq!(streamhook_parse_args(Cli::new(Commands::Start)), StreamhookMessage::Start);
}

#[test]
fn streamer_command_manages_streamers() {
    let cli = Cli::new(Commands::Streamer { command: StreamerCommands::List });
    assert_eq!(streamhook_parse_args(cli), StreamhookMessage::Streamer);
}

#[test]
fn streamer_lines() {
    assert_eq!(parse_streamer_args(&StreamerCommands::Add { streamer: "x".to_string() }), "x");
    assert_eq!(parse_streamer_args(&StreamerCommands::Remove { streamer: "y".to_string() }), "y");
    assert_eq!(parse_streamer_args(&StreamerCommands::List), "List");
}
