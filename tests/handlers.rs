use librebot::config::{ConfigError, ConfigKey, Configuration, ParseError};
use librebot::console::console_step;
use librebot::handlers::{
    about, avatar, help, invoke, ping, ping_ack, server_info, GuildInfo, GuildLookup,
    HandlerInput, PremiumTier, Reply, VerificationLevel, GREEN, RED,
};
use librebot::text::{decimal, same_text};

fn guild(owner: Option<&str>) -> GuildInfo {
    GuildInfo {
        name: "Guild".to_string(),
        id: 1234567890123,
        owner: owner.map(|s| s.to_string()),
        member_count: 42,
        channel_count: 7,
        role_count: 3,
        boosts: None,
        tier: PremiumTier::Tier2,
        created_at: "2020-01-01T00:00:00Z".to_string(),
        verification: VerificationLevel::Medium,
        emoji_count: 0,
        icon_url: None,
    }
}

fn text_of(r: &Reply) -> &str {
    match r {
        Reply::Text(s) => s,
        Reply::Embed(_) => panic!("expected a plain reply"),
    }
}

#[test]
fn ping_gives_two_replies() {
    let r = ping(1_500_000);
    assert_eq!(r.len(), 2);
    assert_eq!(text_of(&r[0]), "Pong!");
    assert_eq!(text_of(&r[1]), "Latency: 1.50ms");
    assert_eq!(ping_ack(), "Pong!");
}

#[test]
fn ping_zero_latency() {
    let r = ping(0);
    assert_eq!(text_of(&r[1]), "Latency: 0.00ns");
}

#[test]
fn help_lists_every_command() {
    match help() {
        Reply::Embed(e) => {
            assert_eq!(e.title, "Commands");
            assert_eq!(e.color, GREEN);
            for c in ["/help", "/ping", "/about", "/avatar", "/server_info"] {
                assert!(e.description.contains(c));
            }
        }
        Reply::Text(_) => panic!("help is an embed"),
    }
}

#[test]
fn about_renders_configuration() {
    let c = Configuration {
        name: "librebot".to_string(),
        developer: "dev".to_string(),
        description: "desc".to_string(),
        token: "SECRET-REDACTED".to_string(),
        commands: vec![],
    };
    match about(&Ok(c)) {
        Reply::Embed(e) => {
            assert_eq!(e.title, "About");
            assert_eq!(e.color, GREEN);
            assert!(e.description.starts_with("Name: librebot\nDeveloper: dev\nDescription: desc\n\n"));
            assert!(!e.description.contains("SECRET-REDACTED"));
        }
        Reply::Text(_) => panic!("about is an embed"),
    }
}

#[test]
fn about_renders_error() {
    let err = ConfigError::Parse(ParseError::Missing(ConfigKey::Token));
    match about(&Err(err)) {
        Reply::Embed(e) => {
            assert_eq!(e.title, "Error");
            assert_eq!(e.color, RED);
            assert_eq!(
                e.description,
                "An error occurred in reading the bot.toml file: missing field `token`"
            );
        }
        Reply::Text(_) => panic!("about is an embed"),
    }
}

#[test]
fn avatar_falls_back_to_default() {
    match avatar("<@1>", &None, "default.png") {
        Reply::Embed(e) => {
            assert_eq!(e.title, "<@1>'s Avatar");
            assert_eq!(e.image, Some("default.png".to_string()));
        }
        Reply::Text(_) => panic!("avatar is an embed"),
    }
    match avatar("<@1>", &Some("mine.png".to_string()), "default.png") {
        Reply::Embed(e) => assert_eq!(e.image, Some("mine.png".to_string())),
        Reply::Text(_) => panic!("avatar is an embed"),
    }
}

#[test]
fn server_info_outside_guild() {
    assert_eq!(
        server_info(&GuildLookup::NotInGuild),
        Reply::Text("This command can only be used in a guild!".to_string())
    );
    assert_eq!(
        server_info(&GuildLookup::Unavailable),
        Reply::Text("Could not fetch the guild data.".to_string())
    );
}

#[test]
fn server_info_unknown_owner() {
    match server_info(&GuildLookup::Found(guild(None))) {
        Reply::Embed(e) => {
            assert_eq!(e.title, "Guild");
            assert_eq!(
                e.description,
                "Name: Guild\nID: 1234567890123\nOwner: Unknown\nMember Count: 42\nChannel Count: 7\nRole Count: 3\nBoosts: 0 (level 2)\nCreated at: 2020-01-01T00:00:00Z\nVerification Level: Medium\nEmoji count: 0"
            );
            assert_eq!(e.image, None);
        }
        Reply::Text(_) => panic!("a found guild gives an embed"),
    }
}

#[test]
fn server_info_known_owner_and_labels() {
    let mut g = guild(Some("<@9>"));
    g.boosts = Some(15);
    g.tier = PremiumTier::Other;
    g.verification = VerificationLevel::Unset;
    g.icon_url = Some("icon.png".to_string());
    match server_info(&GuildLookup::Found(g)) {
        Reply::Embed(e) => {
            assert!(e.description.contains("\nOwner: <@9>\n"));
            assert!(e.description.contains("\nBoosts: 15 (level 0)\n"));
            assert!(e.description.contains("\nVerification Level: None\n"));
            assert_eq!(e.image, Some("icon.png".to_string()));
        }
        Reply::Text(_) => panic!("a found guild gives an embed"),
    }
    assert_eq!(VerificationLevel::Other.label(), "Unknown");
    assert_eq!(VerificationLevel::Higher.label(), "Higher");
    assert_eq!(PremiumTier::Tier3.label(), "3");
}

#[test]
fn debug_flag_only_adds_diagnostics() {
    let on = console_step(false, "b", "debug on").debug;
    let off = console_step(on, "b", "debug off").debug;
    let inputs = vec![
        HandlerInput::Ping { latency_nanos: 2_000 },
        HandlerInput::Help,
        HandlerInput::Avatar { mention: "<@1>".to_string(), avatar_url: None, default_url: "d".to_string() },
        HandlerInput::ServerInfo { guild: GuildLookup::NotInGuild },
    ];
    for input in &inputs {
        let a = invoke(on, "alice", input);
        let b = invoke(off, "alice", input);
        assert_eq!(a.replies, b.replies);
        assert_eq!(a.diagnostics.len(), 1);
        assert!(b.diagnostics.is_empty());
    }
    let a = invoke(true, "alice", &HandlerInput::Ping { latency_nanos: 2_000 });
    assert_eq!(a.diagnostics[0], "ping command executed by alice, latency 2.00µs.");
    let h = invoke(true, "alice", &HandlerInput::ServerInfo { guild: GuildLookup::Unavailable });
    assert_eq!(h.diagnostics[0], "server_info command executed by alice.");
}

#[test]
fn about_error_adds_second_diagnostic() {
    let input = HandlerInput::About { config: Err(ConfigError::Io("gone".to_string())) };
    let a = invoke(true, "alice", &input);
    assert_eq!(a.diagnostics.len(), 2);
    assert_eq!(a.diagnostics[0], "about command executed by alice.");
    assert_eq!(a.diagnostics[1], "Error reading config file in about command executed by alice: gone");
    assert_eq!(a.replies.len(), 1);
}

#[test]
fn decimal_writes_numbers() {
    assert_eq!(decimal(0), "0");
    assert_eq!(decimal(7), "7");
    assert_eq!(decimal(10), "10");
    assert_eq!(decimal(1234567890), "1234567890");
    assert_eq!(decimal(u64::MAX), u64::MAX.to_string());
}

#[test]
fn same_text_compares_characters() {
    assert!(same_text("abc", "abc"));
    assert!(!same_text("abc", "abd"));
    assert!(!same_text("abc", "ab"));
    assert!(same_text("", ""));
    assert!(same_text("héllo", "héllo"));
}
