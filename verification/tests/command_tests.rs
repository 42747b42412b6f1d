use gossip::base::Commands;
use gossip::client::Client;

#[test]
fn parse_subscribe() {
    let cmd = Client::parse_command("/subscribe weather");
    assert_eq!(cmd, Commands::Subscribe("weather".to_string()));
}

#[test]
fn parse_unsubscribe() {
    let cmd = Client::parse_command("/unsubscribe weather");
    assert_eq!(cmd, Commands::Unsubscribe("weather".to_string()));
}

#[test]
fn parse_send_splits_topic_and_body() {
    let cmd = Client::parse_command("/send global hello world");
    assert_eq!(
        cmd,
        Commands::SendMessage(("global".to_string(), "hello world".to_string()))
    );
}

#[test]
fn parse_send_without_body_is_invalid() {
    let cmd = Client::parse_command("/send global");
    assert_eq!(cmd, Commands::InvalidCommand);
}

#[test]
fn parse_subscribe_without_topic_is_invalid() {
    assert_eq!(Client::parse_command("/subscribe"), Commands::InvalidCommand);
    assert_eq!(Client::parse_command("/subscribe "), Commands::InvalidCommand);
}

#[test]
fn parse_unsubscribe_without_topic_is_invalid() {
    assert_eq!(Client::parse_command("/unsubscribe"), Commands::InvalidCommand);
}

#[test]
fn parse_bare_directives() {
    assert_eq!(Client::parse_command("/help"), Commands::<String>::Help);
    assert_eq!(Client::parse_command("/known"), Commands::<String>::PrintKnownNodes);
    assert_eq!(Client::parse_command("/info"), Commands::<String>::PrintInfo);
}

#[test]
fn parse_unknown_command_is_invalid() {
    let cmd = Client::parse_command("/unknowncmd");
    assert_eq!(cmd, Commands::InvalidCommand);
    assert_eq!(
        Client::invalid_command_hint(),
        "Invalid Command format, type /help to see manual".to_string()
    );
}

#[test]
fn parse_empty_line_is_invalid() {
    assert_eq!(Client::parse_command(""), Commands::InvalidCommand);
}

#[test]
fn return_cmd_type_matches_parse() {
    let cmd = Client::return_cmd_type("/subscribe", "news");
    assert_eq!(cmd, Commands::Subscribe("news".to_string()));
    let cmd = Client::return_cmd_type("subscribe", "news");
    assert_eq!(cmd, Commands::InvalidCommand);
}
