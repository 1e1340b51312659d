use grepbot::command::Docs;
use grepbot::config::Config;
use grepbot::handler::{Handler, Route};
use grepbot::model::{Message, User};
use grepbot::store::GrepSet;

fn texts() -> Docs {
    Docs { usage: "usage".to_string(), help: "help".to_string(), syntax: "syntax".to_string() }
}

fn person(id: u64) -> User {
    User { id, name: "someone".to_string(), discriminator: 1, bot: false }
}

fn the_bot() -> User {
    User { id: 5, name: "TestApp".to_string(), discriminator: 9866, bot: true }
}

fn plain(text: &str, author: u64, channel: u64) -> Message {
    Message { content: text.to_string(), author: person(author), channel_id: channel, mentions: Vec::new() }
}

fn to_bot(text: &str, author: u64) -> Message {
    Message {
        content: text.to_string(),
        author: person(author),
        channel_id: 1,
        mentions: vec![person(77), the_bot()],
    }
}

#[test]
fn config_holds_three_settings() {
    let config = Config::new("token".to_string(), "greps.json".to_string(), "bot.log".to_string());
    assert_eq!(config.discord_bot_token, "token");
    assert_eq!(config.storage_file, "greps.json");
    assert_eq!(config.log_file, "bot.log");
}

#[test]
fn is_self_goes_by_name_and_discriminator() {
    assert!(Handler::is_self(&the_bot()));
    assert!(!Handler::is_self(&person(5)));
    assert!(!Handler::is_self(&User { id: 5, name: "TestApp".to_string(), discriminator: 9865, bot: true }));
    assert!(!Handler::is_self(&User { id: 5, name: "testapp".to_string(), discriminator: 9866, bot: true }));
}

#[test]
fn handler_starts_with_the_given_subscriptions() {
    let mut greps = GrepSet::new();
    greps.insert(7, "warn").unwrap();
    let handler = Handler::new(greps);
    assert_eq!(handler.greps().to_pairs(), vec![("warn".to_string(), 7)]);
}

#[test]
fn a_bots_message_is_passed_over() {
    let mut greps = GrepSet::new();
    greps.insert(7, "warn").unwrap();
    let mut handler = Handler::new(greps);
    let mut message = plain("warn", 99, 1);
    message.author.bot = true;
    assert_eq!(handler.message(&message, &texts(), 1000), None);
    let mut command = to_bot("<@5> add x", 99);
    command.author.bot = true;
    assert_eq!(handler.message(&command, &texts(), 1000), None);
    assert_eq!(handler.greps().len(), 1);
    assert_eq!(
        handler.message(&plain("warn", 99, 1), &texts(), 1000),
        Some("Hey! <@7>".to_string())
    );
}

#[test]
fn a_message_that_mentions_the_bot_is_a_command() {
    let mut handler = Handler::new(GrepSet::new());
    assert_eq!(
        handler.message(&to_bot("<@5> add warn", 7), &texts(), 1000),
        Some("Regex added".to_string())
    );
    assert_eq!(handler.greps().to_pairs(), vec![("warn".to_string(), 7)]);
    assert_eq!(handler.message(&to_bot("<@5> list", 7), &texts(), 1000), Some("\nwarn".to_string()));
    assert_eq!(handler.message(&to_bot("warn", 8), &texts(), 1000), Some("usage".to_string()));
    assert_eq!(
        handler.message(&plain("<@5> add x", 8, 1), &texts(), 1000),
        None
    );
    assert_eq!(handler.greps().len(), 1);
}

#[test]
fn other_messages_are_matched_and_throttled() {
    let mut handler = Handler::new(GrepSet::new());
    assert_eq!(handler.handle_command(&to_bot("<@5> add warn", 7), &texts()), Some("Regex added".to_string()));
    assert_eq!(handler.handle_message(&plain("a warn", 8, 1), 1000), Some("Hey! <@7>".to_string()));
    assert_eq!(handler.handle_message(&plain("a warn", 8, 1), 1300), None);
    assert_eq!(handler.handle_message(&plain("a warn", 8, 2), 1300), Some("Hey! <@7>".to_string()));
    assert_eq!(handler.handle_message(&plain("a warn", 8, 1), 1301), Some("Hey! <@7>".to_string()));
    assert_eq!(handler.handle_message(&plain("a warn", 7, 3), 1301), None);
}

#[test]
fn route_tells_bots_commands_and_the_rest_apart() {
    assert_eq!(Handler::route(&plain("hello", 1, 1)), Route::Notify);
    assert_eq!(Handler::route(&to_bot("hello", 1)), Route::Command);
    let mut from_bot = to_bot("<@5> list", 1);
    from_bot.author.bot = true;
    assert_eq!(Handler::route(&from_bot), Route::Ignore);
    let mut others = plain("<@5> list", 1, 1);
    others.mentions = vec![person(5), person(6)];
    assert_eq!(Handler::route(&others), Route::Notify);
}

#[test]
fn a_command_leaves_the_cooldown_record_alone() {
    let mut handler = Handler::new(GrepSet::new());
    handler.message(&to_bot("<@5> add warn", 7), &texts(), 10);
    assert_eq!(handler.message(&plain("warn", 8, 1), &texts(), 1000), Some("Hey! <@7>".to_string()));
    assert_eq!(handler.message(&to_bot("<@5> add warn", 7), &texts(), 1001), Some("Regex already exists".to_string()));
    assert_eq!(handler.message(&to_bot("<@5> remove warn", 7), &texts(), 1002), Some("Regex warn removed".to_string()));
    assert_eq!(handler.message(&to_bot("<@5> add warn", 7), &texts(), 1003), Some("Regex added".to_string()));
    assert_eq!(handler.message(&plain("warn", 8, 1), &texts(), 1004), None);
    assert_eq!(handler.message(&plain("warn", 8, 1), &texts(), 1301), Some("Hey! <@7>".to_string()));
}
