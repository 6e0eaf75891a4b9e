use vstd::prelude::*;
use vstd::string::*;

use crate::console::debug_after;
use crate::config::{config_error_text, ConfigError, Configuration};
use crate::registry::{name_of, CommandKind};
use crate::text::{decimal, decimal_text};

verus! {

/// The colour of an ordinary embed.
pub const GREEN: u32 = 0x00FF00;

/// The colour of an embed that reports an error.
pub const RED: u32 = 0xFF0000;

/// A rich reply: title, body, optional image and colour. The platform adds the
/// time stamp when it sends it.
#[derive(Clone, Debug, PartialEq)]
pub struct Embed {
    pub title: String,
    pub description: String,
    pub image: Option<String>,
    pub color: u32,
}

/// One reply sent back to the user who invoked a command.
#[derive(Clone, Debug, PartialEq)]
pub enum Reply {
    Text(String),
    Embed(Embed),
}

/// An embed as plain sequences.
pub struct EmbedView {
    pub title: Seq<char>,
    pub description: Seq<char>,
    pub image: Option<Seq<char>>,
    pub color: u32,
}

/// A reply as plain sequences.
pub enum ReplyView {
    Text(Seq<char>),
    Embed(EmbedView),
}

/// The view of an optional string.
pub open spec fn opt_view(o: Option<String>) -> Option<Seq<char>> {
    match o {
        Some(s) => Some(s@),
        None => None,
    }
}

impl View for Embed {
    type V = EmbedView;

    open spec fn view(&self) -> EmbedView {
        EmbedView {
            title: self.title@,
            description: self.description@,
            image: opt_view(self.image),
            color: self.color,
        }
    }
}

impl View for Reply {
    type V = ReplyView;

    open spec fn view(&self) -> ReplyView {
        match self {
            Reply::Text(s) => ReplyView::Text(s@),
            Reply::Embed(e) => ReplyView::Embed(e@),
        }
    }
}

/// A guild's boost tier.
#[derive(Clone, Copy, Debug, PartialEq, Eq, Structural)]
pub enum PremiumTier {
    Tier0,
    Tier1,
    Tier2,
    Tier3,
    Other,
}

/// A guild's verification level.
#[derive(Clone, Copy, Debug, PartialEq, Eq, Structural)]
pub enum VerificationLevel {
    Unset,
    Low,
    Medium,
    High,
    Higher,
    Other,
}

/// What the platform told about a guild.
#[derive(Clone, Debug, PartialEq)]
pub struct GuildInfo {
    pub name: String,
    pub id: u64,
    /// The owner's mention, or nothing where the owner could not be looked up.
    pub owner: Option<String>,
    pub member_count: u64,
    pub channel_count: u64,
    pub role_count: u64,
    pub boosts: Option<u64>,
    pub tier: PremiumTier,
    pub created_at: String,
    pub verification: VerificationLevel,
    pub emoji_count: u64,
    pub icon_url: Option<String>,
}

/// Where a server-information request was made, and what came of fetching the guild.
#[derive(Clone, Debug, PartialEq)]
pub enum GuildLookup {
    /// Outside any guild (a direct message).
    NotInGuild,
    /// In a guild whose data could not be fetched.
    Unavailable,
    Found(GuildInfo),
}

/// The formatted text of an elapsed time in nanoseconds, as the standard
/// library's `Debug` for `Duration` writes it with two decimals.
pub uninterp spec fn duration_text(nanos: u64) -> Seq<char>;

/// Relies on `<core::time::Duration as Debug>::fmt` with a precision of two:
/// it writes a duration, and what it writes depends on the duration alone.
#[verifier::external_body]
fn format_duration(nanos: u64) -> (r: String)
    ensures
        r@ == duration_text(nanos),
{
    format!("{:.2?}", core::time::Duration::from_nanos(nanos))
}

/// The acknowledgement of the ping command.
pub open spec fn pong_text() -> Seq<char> {
    "Pong!"@
}

/// The second reply of the ping command.
pub open spec fn latency_text(nanos: u64) -> Seq<char> {
    "Latency: "@ + duration_text(nanos)
}

/// The two replies of the ping command, the second giving the time it took to
/// send the first.
pub open spec fn ping_replies(nanos: u64) -> Seq<ReplyView> {
    seq![ReplyView::Text(pong_text()), ReplyView::Text(latency_text(nanos))]
}

/// The acknowledgement that the ping command sends first.
pub fn ping_ack() -> (r: String)
    ensures
        r@ == pong_text(),
{
    String::from_str("Pong!")
}

/// The replies of the ping command, given the time that the first one took.
pub fn ping(latency_nanos: u64) -> (r: Vec<Reply>)
    ensures
        r@.map_values(|x: Reply| x@) == ping_replies(latency_nanos),
{
    let mut second = String::from_str("Latency: ");
    let d = format_duration(latency_nanos);
    second.append(d.as_str());
    let r = vec![Reply::Text(ping_ack()), Reply::Text(second)];
    assert(r@.map_values(|x: Reply| x@) =~= ping_replies(latency_nanos));
    r
}

/// The body of the help embed.
pub open spec fn help_text() -> Seq<char> {
    "The following commands are available:\n**General Commands**\n```/help``` This command, returns a list of all commands\n```/ping``` Returns 'Pong!' and the latency of the message indicating that the server is online\n```/about``` Returns general information about the bot\n```/avatar``` Returns the user's avatar\n```/server_info``` Returns various pieces of information about the current guild"@
}

/// The reply of the help command: a fixed list of every command this bot has.
pub open spec fn help_reply() -> ReplyView {
    ReplyView::Embed(EmbedView { title: "Commands"@, description: help_text(), image: None, color: GREEN })
}

/// Lists the commands.
pub fn help() -> (r: Reply)
    ensures
        r@ == help_reply(),
{
    Reply::Embed(Embed {
        title: String::from_str("Commands"),
        description: String::from_str("The following commands are available:\n**General Commands**\n```/help``` This command, returns a list of all commands\n```/ping``` Returns 'Pong!' and the latency of the message indicating that the server is online\n```/about``` Returns general information about the bot\n```/avatar``` Returns the user's avatar\n```/server_info``` Returns various pieces of information about the current guild"),
        image: None,
        color: GREEN,
    })
}

/// The body of the about embed.
pub open spec fn about_text(c: Configuration) -> Seq<char> {
    "Name: "@ + c.name@ + "\nDeveloper: "@ + c.developer@ + "\nDescription: "@ + c.description@
        + "\n\nThis bot is a self-hosted librebot instance, an open-source bot that's easy to self-host and modify!"@
}

/// The body of the about embed where the configuration could not be read.
pub open spec fn about_error_text(e: ConfigError) -> Seq<char> {
    "An error occurred in reading the bot.toml file: "@ + config_error_text(e)
}

/// The reply of the about command: the configured name, developer and
/// description, or the reason the configuration could not be read.
pub open spec fn about_reply(config: Result<Configuration, ConfigError>) -> ReplyView {
    match config {
        Ok(c) => ReplyView::Embed(EmbedView { title: "About"@, description: about_text(c), image: None, color: GREEN }),
        Err(e) => ReplyView::Embed(EmbedView { title: "Error"@, description: about_error_text(e), image: None, color: RED }),
    }
}

/// Describes the bot from its configuration as just read.
pub fn about(config: &Result<Configuration, ConfigError>) -> (r: Reply)
    ensures
        r@ == about_reply(*config),
{
    match config {
        Ok(c) => {
            let mut d = String::from_str("Name: ");
            d.append(c.name.as_str());
            d.append("\nDeveloper: ");
            d.append(c.developer.as_str());
            d.append("\nDescription: ");
            d.append(c.description.as_str());
            d.append("\n\nThis bot is a self-hosted librebot instance, an open-source bot that's easy to self-host and modify!");
            assert(d@ =~= about_text(*c));
            Reply::Embed(Embed { title: String::from_str("About"), description: d, image: None, color: GREEN })
        },
        Err(e) => {
            let mut d = String::from_str("An error occurred in reading the bot.toml file: ");
            let m = e.message();
            d.append(m.as_str());
            Reply::Embed(Embed { title: String::from_str("Error"), description: d, image: None, color: RED })
        },
    }
}

/// The reply of the avatar command: the user's avatar, or the platform's default
/// avatar where the user has none.
pub open spec fn avatar_reply(mention: Seq<char>, avatar_url: Option<Seq<char>>, default_url: Seq<char>) -> ReplyView {
    ReplyView::Embed(EmbedView {
        title: mention + "'s Avatar"@,
        description: Seq::empty(),
        image: Some(
            match avatar_url {
                Some(u) => u,
                None => default_url,
            },
        ),
        color: GREEN,
    })
}

/// Shows the invoking user's avatar.
pub fn avatar(mention: &str, avatar_url: &Option<String>, default_url: &str) -> (r: Reply)
    ensures
        r@ == avatar_reply(mention@, opt_view(*avatar_url), default_url@),
{
    let mut title = String::from_str(mention);
    title.append("'s Avatar");
    let image = match avatar_url {
        Some(u) => u.clone(),
        None => String::from_str(default_url),
    };
    Reply::Embed(Embed { title, description: String::new(), image: Some(image), color: GREEN })
}

/// The boost level as shown to users.
pub open spec fn tier_label(t: PremiumTier) -> Seq<char> {
    match t {
        PremiumTier::Tier1 => "1"@,
        PremiumTier::Tier2 => "2"@,
        PremiumTier::Tier3 => "3"@,
        _ => "0"@,
    }
}

/// The verification level as shown to users.
pub open spec fn verification_label(v: VerificationLevel) -> Seq<char> {
    match v {
        VerificationLevel::Unset => "None"@,
        VerificationLevel::Low => "Low"@,
        VerificationLevel::Medium => "Medium"@,
        VerificationLevel::High => "High"@,
        VerificationLevel::Higher => "Higher"@,
        VerificationLevel::Other => "Unknown"@,
    }
}

impl PremiumTier {
    /// The boost level as shown to users.
    pub fn label(&self) -> (r: &'static str)
        ensures
            r@ == tier_label(*self),
    {
        match self {
            PremiumTier::Tier1 => "1",
            PremiumTier::Tier2 => "2",
            PremiumTier::Tier3 => "3",
            _ => "0",
        }
    }
}

impl VerificationLevel {
    /// The verification level as shown to users.
    pub fn label(&self) -> (r: &'static str)
        ensures
            r@ == verification_label(*self),
    {
        match self {
            VerificationLevel::Unset => "None",
            VerificationLevel::Low => "Low",
            VerificationLevel::Medium => "Medium",
            VerificationLevel::High => "High",
            VerificationLevel::Higher => "Higher",
            VerificationLevel::Other => "Unknown",
        }
    }
}

/// The owner as shown: the mention, or "Unknown" where the lookup failed.
pub open spec fn owner_text(g: GuildInfo) -> Seq<char> {
    match g.owner {
        Some(m) => m@,
        None => "Unknown"@,
    }
}

/// The number of boosts, zero where the platform gave none.
pub open spec fn boost_count(g: GuildInfo) -> nat {
    match g.boosts {
        Some(n) => n as nat,
        None => 0,
    }
}

/// The body of the server-information embed, with the owner shown as `owner`.
pub open spec fn guild_text(g: GuildInfo, owner: Seq<char>) -> Seq<char> {
    "Name: "@ + g.name@ + "\nID: "@ + decimal_text(g.id as nat) + "\nOwner: "@ + owner
        + "\nMember Count: "@ + decimal_text(g.member_count as nat) + "\nChannel Count: "@
        + decimal_text(g.channel_count as nat) + "\nRole Count: "@ + decimal_text(g.role_count as nat)
        + "\nBoosts: "@ + decimal_text(boost_count(g)) + " (level "@ + tier_label(g.tier) + ")"@
        + "\nCreated at: "@ + g.created_at@ + "\nVerification Level: "@ + verification_label(g.verification)
        + "\nEmoji count: "@ + decimal_text(g.emoji_count as nat)
}

/// The answer outside a guild.
pub open spec fn not_in_guild_text() -> Seq<char> {
    "This command can only be used in a guild!"@
}

/// The answer where the guild could not be fetched.
pub open spec fn unavailable_text() -> Seq<char> {
    "Could not fetch the guild data."@
}

/// The reply of the server-information command.
pub open spec fn server_info_reply(lookup: GuildLookup) -> ReplyView {
    match lookup {
        GuildLookup::NotInGuild => ReplyView::Text(not_in_guild_text()),
        GuildLookup::Unavailable => ReplyView::Text(unavailable_text()),
        GuildLookup::Found(g) => ReplyView::Embed(EmbedView {
            title: g.name@,
            description: guild_text(g, owner_text(g)),
            image: opt_view(g.icon_url),
            color: GREEN,
        }),
    }
}

fn push_field(s: &mut String, label: &str, value: &str)
    ensures
        final(s)@ == old(s)@ + label@ + value@,
{
    s.append(label);
    s.append(value);
}

fn guild_description(g: &GuildInfo) -> (r: String)
    ensures
        r@ == guild_text(*g, owner_text(*g)),
{
    let owner = match &g.owner {
        Some(m) => m.clone(),
        None => String::from_str("Unknown"),
    };
    let boosts: u64 = match g.boosts {
        Some(n) => n,
        None => 0,
    };
    let mut s = String::new();
    push_field(&mut s, "Name: ", g.name.as_str());
    push_field(&mut s, "\nID: ", decimal(g.id).as_str());
    push_field(&mut s, "\nOwner: ", owner.as_str());
    push_field(&mut s, "\nMember Count: ", decimal(g.member_count).as_str());
    push_field(&mut s, "\nChannel Count: ", decimal(g.channel_count).as_str());
    push_field(&mut s, "\nRole Count: ", decimal(g.role_count).as_str());
    push_field(&mut s, "\nBoosts: ", decimal(boosts).as_str());
    push_field(&mut s, " (level ", g.tier.label());
    s.append(")");
    push_field(&mut s, "\nCreated at: ", g.created_at.as_str());
    push_field(&mut s, "\nVerification Level: ", g.verification.label());
    push_field(&mut s, "\nEmoji count: ", decimal(g.emoji_count).as_str());
    assert(s@ =~= guild_text(*g, owner_text(*g)));
    s
}

/// Describes the guild in which the command was invoked. Outside a guild, or
/// where the guild could not be fetched, it answers with a plain message instead.
pub fn server_info(lookup: &GuildLookup) -> (r: Reply)
    ensures
        r@ == server_info_reply(*lookup),
{
    match lookup {
        GuildLookup::NotInGuild => Reply::Text(String::from_str("This command can only be used in a guild!")),
        GuildLookup::Unavailable => Reply::Text(String::from_str("Could not fetch the guild data.")),
        GuildLookup::Found(g) => Reply::Embed(Embed {
            title: g.name.clone(),
            description: guild_description(g),
            image: match &g.icon_url {
                Some(u) => Some(u.clone()),
                None => None,
            },
            color: GREEN,
        }),
    }
}

/// Outside a guild the command succeeds with its guidance message.
pub proof fn lemma_server_info_outside_guild()
    ensures
        server_info_reply(GuildLookup::NotInGuild) == ReplyView::Text(
            "This command can only be used in a guild!"@,
        ),
{
}

/// Where the owner lookup failed, the guild is still described in full, with
/// "Unknown" in the owner's place.
pub proof fn lemma_server_info_unknown_owner(g: GuildInfo)
    requires
        g.owner is None,
    ensures
        server_info_reply(GuildLookup::Found(g)) == ReplyView::Embed(EmbedView {
            title: g.name@,
            description: guild_text(g, "Unknown"@),
            image: opt_view(g.icon_url),
            color: GREEN,
        }),
{
}

/// A command invocation, with what the platform gave for it.
#[derive(Debug, PartialEq)]
pub enum HandlerInput {
    /// The time, in nanoseconds, that sending the acknowledgement took.
    Ping { latency_nanos: u64 },
    Help,
    /// The configuration as read for this invocation.
    About { config: Result<Configuration, ConfigError> },
    Avatar { mention: String, avatar_url: Option<String>, default_url: String },
    ServerInfo { guild: GuildLookup },
}

/// What handling an invocation yields: the replies to send, in order, and the
/// diagnostic lines to print.
#[derive(Clone, Debug, PartialEq)]
pub struct Outcome {
    pub replies: Vec<Reply>,
    pub diagnostics: Vec<String>,
}

/// The command that an invocation is for.
pub open spec fn input_kind(input: HandlerInput) -> CommandKind {
    match input {
        HandlerInput::Ping { .. } => CommandKind::Ping,
        HandlerInput::Help => CommandKind::Help,
        HandlerInput::About { .. } => CommandKind::About,
        HandlerInput::Avatar { .. } => CommandKind::Avatar,
        HandlerInput::ServerInfo { .. } => CommandKind::ServerInfo,
    }
}

/// The replies of an invocation; they do not depend on the debug flag.
pub open spec fn replies_of(input: HandlerInput) -> Seq<ReplyView> {
    match input {
        HandlerInput::Ping { latency_nanos } => ping_replies(latency_nanos),
        HandlerInput::Help => seq![help_reply()],
        HandlerInput::About { config } => seq![about_reply(config)],
        HandlerInput::Avatar { mention, avatar_url, default_url } => seq![
            avatar_reply(mention@, opt_view(avatar_url), default_url@),
        ],
        HandlerInput::ServerInfo { guild } => seq![server_info_reply(guild)],
    }
}

/// The diagnostic line naming the command and who invoked it; the ping
/// command adds the latency it measured.
pub open spec fn diagnostic_line(author: Seq<char>, input: HandlerInput) -> Seq<char> {
    match input {
        HandlerInput::Ping { latency_nanos } => "ping command executed by "@ + author + ", latency "@
            + duration_text(latency_nanos) + "."@,
        _ => name_of(input_kind(input)) + " command executed by "@ + author + "."@,
    }
}

/// The diagnostic lines of an invocation: none without the debug flag; with it,
/// the line of `diagnostic_line`, and for an about command whose configuration
/// could not be read, a second line with the reason.
pub open spec fn diagnostics_of(debug: bool, author: Seq<char>, input: HandlerInput) -> Seq<Seq<char>> {
    if !debug {
        Seq::empty()
    } else {
        match input {
            HandlerInput::About { config: Err(e) } => seq![
                diagnostic_line(author, input),
                "Error reading config file in about command executed by "@ + author + ": "@
                    + config_error_text(e),
            ],
            _ => seq![diagnostic_line(author, input)],
        }
    }
}

fn diagnostic(author: &str, input: &HandlerInput) -> (r: String)
    ensures
        r@ == diagnostic_line(author@, *input),
{
    match input {
        HandlerInput::Ping { latency_nanos } => {
            let mut s = String::from_str("ping command executed by ");
            s.append(author);
            s.append(", latency ");
            let d = format_duration(*latency_nanos);
            s.append(d.as_str());
            s.append(".");
            s
        },
        _ => {
            let kind = match input {
                HandlerInput::Help => CommandKind::Help,
                HandlerInput::About { .. } => CommandKind::About,
                HandlerInput::Avatar { .. } => CommandKind::Avatar,
                _ => CommandKind::ServerInfo,
            };
            let mut s = String::from_str(kind.name());
            s.append(" command executed by ");
            s.append(author);
            s.append(".");
            s
        },
    }
}

/// Handles one invocation: the replies that the command gives, and the
/// diagnostic lines that the debug flag asks for.
pub fn invoke(debug: bool, author: &str, input: &HandlerInput) -> (r: Outcome)
    ensures
        r.replies@.map_values(|x: Reply| x@) == replies_of(*input),
        r.diagnostics@.map_values(|s: String| s@) == diagnostics_of(debug, author@, *input),
{
    let replies = match input {
        HandlerInput::Ping { latency_nanos } => ping(*latency_nanos),
        HandlerInput::Help => vec![help()],
        HandlerInput::About { config } => vec![about(config)],
        HandlerInput::Avatar { mention, avatar_url, default_url } => vec![
            avatar(mention.as_str(), avatar_url, default_url.as_str()),
        ],
        HandlerInput::ServerInfo { guild } => vec![server_info(guild)],
    };
    let mut diagnostics: Vec<String> = Vec::new();
    if debug {
        diagnostics.push(diagnostic(author, input));
        match input {
            HandlerInput::About { config: Err(e) } => {
                let mut s = String::from_str("Error reading config file in about command executed by ");
                s.append(author);
                s.append(": ");
                let m = e.message();
                s.append(m.as_str());
                diagnostics.push(s);
            },
            _ => {},
        }
    }
    assert(replies@.map_values(|x: Reply| x@) =~= replies_of(*input));
    assert(diagnostics@.map_values(|s: String| s@) =~= diagnostics_of(debug, author@, *input));
    Outcome { replies, diagnostics }
}

/// The debug flag changes only what is printed: with it every invocation prints
/// its diagnostic line first, without it nothing; the replies are the same either way.
pub proof fn lemma_debug_only_diagnostics(author: Seq<char>, input: HandlerInput)
    ensures
        diagnostics_of(true, author, input).len() >= 1,
        diagnostics_of(true, author, input)[0] == diagnostic_line(author, input),
        diagnostics_of(false, author, input).len() == 0,
{
}

/// Typing `debug on` at the console makes every later invocation print a
/// diagnostic line; `debug off` makes them print none. The replies, which
/// `invoke` gives as `replies_of(input)` whatever the flag, stay the same.
pub proof fn lemma_console_debug_toggle(debug: bool, author: Seq<char>, input: HandlerInput)
    ensures
        debug_after(debug, "debug on"@),
        diagnostics_of(debug_after(debug, "debug on"@), author, input).len() >= 1,
        !debug_after(debug, "debug off"@),
        diagnostics_of(debug_after(debug, "debug off"@), author, input).len() == 0,
{
    reveal_strlit("stop");
    reveal_strlit("status");
    reveal_strlit("debug on");
    reveal_strlit("debug off");
    assert("debug on"@.len() != "stop"@.len());
    assert("debug on"@.len() != "status"@.len());
    assert("debug off"@.len() != "stop"@.len());
    assert("debug off"@.len() != "status"@.len());
    assert("debug off"@.len() != "debug on"@.len());
}

} // verus!
