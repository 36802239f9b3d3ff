//! Turning what the database stores into the values the API answers with:
//! defaults for missing columns, numbers decoded into enums, descriptions
//! and CSS rendered and sanitized.
use crate::converters::{invite_link, invite_link_text, sanitize_description, sanitized_description};
use crate::enums::{Flags, LongDescriptionType, PageStyle, State, Status, UserExperiments, UserFlags, UserState, WebhookType};
use crate::links::{entries_of_pairs, link_entries, links_from_pairs};
use crate::models::{
    ExperimentList, ImportSource, ImportSourceList, ImportSourceListItem, UserExperimentListItem, ActionLog, Bot, BotCommand, BotOwner, BotPack, FrostpawUserConnection, IndexBot, Profile, Server, Tag, User,
    Vanity, VotesPerMonth,
};
use crate::text::{has_prefix, i64_to_string, int_decimal, replace_all, replaced, starts_with};
use vstd::prelude::*;
use vstd::string::*;

verus! {

/// What the `bots` table holds of a bot.
#[derive(Clone, Debug, PartialEq, Eq, Default)]
pub struct StoredBot {
    pub bot_id: i64,
    pub created_at: i64,
    pub last_stats_post: i64,
    pub last_updated_at: i64,
    pub description: String,
    pub css: Option<String>,
    pub flags: Vec<i32>,
    pub banner_card: Option<String>,
    pub banner_page: Option<String>,
    pub guild_count: Option<i64>,
    pub shard_count: Option<i64>,
    pub shards: Option<Vec<i32>>,
    pub prefix: Option<String>,
    pub invite: String,
    pub invite_amount: Option<i32>,
    pub library: Option<String>,
    pub state: i32,
    pub user_count: Option<i64>,
    pub votes: Option<i64>,
    pub total_votes: Option<i64>,
    pub client_id: Option<i64>,
    pub uptime_checks_total: Option<i32>,
    pub uptime_checks_failed: Option<i32>,
    pub page_style: i32,
    pub long_description_type: i32,
    pub long_description: String,
    pub webhook_type: Option<i32>,
    /// The extra links as stored, each value's text when it is a string.
    pub extra_links: Vec<(String, Option<String>)>,
}

/// What other tables hold of a bot.
#[derive(Debug, Default)]
pub struct BotParts {
    pub user: User,
    pub tags: Vec<Tag>,
    pub commands: Vec<BotCommand>,
    pub owners: Vec<BotOwner>,
    pub vanity: Option<String>,
    pub action_logs: Vec<ActionLog>,
    pub votes_per_month: Vec<VotesPerMonth>,
}

/// The CSS as the owner wrote it: escaped newlines and tabs turned back into
/// newlines and tabs.
pub open spec fn raw_css(css: Option<String>) -> Seq<char> {
    let c = match css {
        Some(s) => s@,
        None => Seq::empty(),
    };
    replaced(replaced(c, "\\n"@, "\n"@), "\\t"@, "\t"@)
}

/// The CSS as served: the raw CSS in a `<style>` element, sanitized as HTML.
pub open spec fn served_css(raw: Seq<char>) -> Seq<char> {
    sanitized_description(LongDescriptionType::Html, "<style>"@ + raw + "</style>"@)
}

fn css_pair(css: &Option<String>) -> (r: (String, String))
    ensures
        r.0@ == raw_css(*css),
        r.1@ == served_css(r.0@),
{
    let c = match css {
        Some(s) => s.clone(),
        None => String::new(),
    };
    proof {
        reveal_strlit("\\n");
        reveal_strlit("\\t");
    }
    let a = replace_all(c.as_str(), "\\n", "\n");
    let raw = replace_all(a.as_str(), "\\t", "\t");
    let mut wrapped = String::from_str("<style>");
    wrapped.append(raw.as_str());
    wrapped.append("</style>");
    let served = sanitize_description(LongDescriptionType::Html, wrapped.as_str());
    (raw, served)
}

/// The value of an optional number, `0` when missing.
pub open spec fn or_zero(o: Option<i64>) -> i64 {
    match o {
        Some(v) => v,
        None => 0,
    }
}

/// The long description type a stored number stands for; markdown when none.
pub open spec fn stored_description_type(v: i32) -> LongDescriptionType {
    match LongDescriptionType::decode(v) {
        Some(t) => t,
        None => LongDescriptionType::MarkdownServerSide,
    }
}

/// The client id of a stored bot, its own id when none is stored.
pub open spec fn stored_client_id(row: StoredBot) -> i64 {
    match row.client_id {
        Some(c) => c,
        None => row.bot_id,
    }
}

/// The bot that `get_bot` answers with, out of its stored row and the other
/// tables: missing numbers are zero, unknown numbers decode to the default
/// variant, the description and CSS are sanitized, the invite link is made
/// from the stored invite, and the webhook settings and token are left out.
pub fn bot_from_stored(row: StoredBot, parts: BotParts) -> (r: Bot)
    ensures
        r.client_id@ == int_decimal(stored_client_id(row) as int),
        r.css_raw@ == raw_css(row.css),
        r.css@ == served_css(r.css_raw@),
        r.long_description_type == stored_description_type(row.long_description_type),
        r.long_description@ == sanitized_description(r.long_description_type, row.long_description@),
        r.long_description_raw == row.long_description,
        r.invite_link@ == invite_link_text(r.client_id@, row.invite@),
        r.invite == (if row.invite@.len() == 0 { None } else { Some(row.invite) }),
        link_entries(r.extra_links) == entries_of_pairs(row.extra_links@),
        r.guild_count == or_zero(row.guild_count),
        r.shard_count == or_zero(row.shard_count),
        r.user_count == or_zero(row.user_count),
        r.votes == or_zero(row.votes),
        r.total_votes == or_zero(row.total_votes),
        r.invite_amount == (match row.invite_amount { Some(v) => v, None => 0 }),
        r.shards@ == (match row.shards { Some(s) => s@, None => Seq::<i32>::empty() }),
        r.library@ == (match row.library { Some(l) => l@, None => Seq::<char>::empty() }),
        r.state == (match State::decode(row.state) { Some(s) => s, None => State::Approved }),
        r.page_style == (match PageStyle::decode(row.page_style) { Some(p) => p, None => PageStyle::Tabs }),
        r.webhook_type == Some(match row.webhook_type {
            Some(t) => match WebhookType::decode(t) { Some(w) => w, None => WebhookType::Vote },
            None => WebhookType::Vote,
        }),
        r.vanity@ == (match parts.vanity { Some(v) => v@, None => "unknown"@ }),
        r.webhook is None && r.webhook_secret is None && r.api_token is None && r.webhook_hmac_only is None,
        r.features@.len() == 0,
        r.vpm matches Some(v) && v@ == parts.votes_per_month@,
        r.user == parts.user,
        r.tags == parts.tags,
        r.owners == parts.owners,
        r.commands == parts.commands,
        r.action_logs == parts.action_logs,
        r.description == row.description,
        r.prefix == row.prefix,
        r.flags == row.flags,
        r.banner_card == row.banner_card,
        r.banner_page == row.banner_page,
        r.created_at == row.created_at,
        r.last_stats_post == row.last_stats_post,
        r.last_updated_at == row.last_updated_at,
        r.uptime_checks_total == row.uptime_checks_total,
        r.uptime_checks_failed == row.uptime_checks_failed,
{
    let client = match row.client_id {
        Some(c) => c,
        None => row.bot_id,
    };
    let client_id = i64_to_string(client);
    let long_description_type = match LongDescriptionType::from_value(row.long_description_type) {
        Some(t) => t,
        None => LongDescriptionType::MarkdownServerSide,
    };
    let (css_raw, css) = css_pair(&row.css);
    let long_description = sanitize_description(long_description_type, row.long_description.as_str());
    let link = invite_link(client_id.as_str(), row.invite.as_str());
    let invite = if row.invite.unicode_len() == 0 {
        None
    } else {
        Some(row.invite)
    };
    let extra_links = links_from_pairs(row.extra_links);
    let vanity = match parts.vanity {
        Some(v) => v,
        None => String::from_str("unknown"),
    };
    let webhook_type = match row.webhook_type {
        Some(t) => match WebhookType::from_value(t) {
            Some(w) => w,
            None => WebhookType::Vote,
        },
        None => WebhookType::Vote,
    };
    Bot {
        extra_links,
        created_at: row.created_at,
        vpm: Some(parts.votes_per_month),
        last_stats_post: row.last_stats_post,
        last_updated_at: row.last_updated_at,
        description: row.description,
        css,
        css_raw,
        flags: row.flags,
        banner_card: row.banner_card,
        banner_page: row.banner_page,
        guild_count: match row.guild_count {
            Some(v) => v,
            None => 0,
        },
        shard_count: match row.shard_count {
            Some(v) => v,
            None => 0,
        },
        shards: match row.shards {
            Some(s) => s,
            None => Vec::new(),
        },
        prefix: row.prefix,
        invite,
        invite_link: link,
        invite_amount: match row.invite_amount {
            Some(v) => v,
            None => 0,
        },
        features: Vec::new(),
        library: match row.library {
            Some(l) => l,
            None => String::new(),
        },
        state: match State::from_value(row.state) {
            Some(s) => s,
            None => State::Approved,
        },
        user_count: match row.user_count {
            Some(v) => v,
            None => 0,
        },
        votes: match row.votes {
            Some(v) => v,
            None => 0,
        },
        total_votes: match row.total_votes {
            Some(v) => v,
            None => 0,
        },
        client_id,
        tags: parts.tags,
        commands: parts.commands,
        long_description_type,
        long_description,
        long_description_raw: row.long_description,
        owners: parts.owners,
        vanity,
        uptime_checks_total: row.uptime_checks_total,
        uptime_checks_failed: row.uptime_checks_failed,
        page_style: match PageStyle::from_value(row.page_style) {
            Some(p) => p,
            None => PageStyle::Tabs,
        },
        user: parts.user,
        webhook: None,
        webhook_secret: None,
        api_token: None,
        webhook_hmac_only: None,
        webhook_type: Some(webhook_type),
        action_logs: parts.action_logs,
    }
}

/// What the `servers` table holds of a server.
#[derive(Clone, Debug, PartialEq, Eq, Default)]
pub struct StoredServer {
    pub description: String,
    pub long_description: String,
    pub long_description_type: Option<i32>,
    pub flags: Vec<i32>,
    pub banner_card: Option<String>,
    pub banner_page: Option<String>,
    pub guild_count: Option<i64>,
    pub invite_amount: Option<i32>,
    pub css: Option<String>,
    pub state: i32,
    pub total_votes: Option<i64>,
    pub votes: Option<i64>,
    pub created_at: i64,
    /// The extra links as stored, each value's text when it is a string.
    pub extra_links: Vec<(String, Option<String>)>,
}

/// What other tables hold of a server.
#[derive(Debug, Default)]
pub struct ServerParts {
    pub user: User,
    pub owner: User,
    pub tags: Vec<Tag>,
    pub vanity: Option<String>,
}

/// The server that `get_server` answers with: missing numbers are zero,
/// unknown numbers decode to the default variant, the description and CSS
/// are sanitized, and no invite link is set.
pub fn server_from_stored(row: StoredServer, parts: ServerParts) -> (r: Server)
    ensures
        r.long_description_type == stored_description_type(match row.long_description_type {
            Some(v) => v,
            None => LongDescriptionType::MarkdownServerSide.code(),
        }),
        r.long_description@ == sanitized_description(r.long_description_type, row.long_description@),
        r.long_description_raw == row.long_description,
        r.css_raw@ == raw_css(row.css),
        r.css@ == served_css(r.css_raw@),
        link_entries(r.extra_links) == entries_of_pairs(row.extra_links@),
        r.guild_count == or_zero(row.guild_count),
        r.votes == or_zero(row.votes),
        r.total_votes == or_zero(row.total_votes),
        r.invite_amount == (match row.invite_amount { Some(v) => v, None => 0 }),
        r.state == (match State::decode(row.state) { Some(s) => s, None => State::Approved }),
        r.invite_link is None,
        r.user == parts.user,
        r.owner == parts.owner,
        r.tags == parts.tags,
        r.vanity == parts.vanity,
        r.description == row.description,
        r.flags == row.flags,
        r.banner_card == row.banner_card,
        r.banner_page == row.banner_page,
        r.created_at == row.created_at,
{
    let ldt_code = match row.long_description_type {
        Some(v) => v,
        None => LongDescriptionType::MarkdownServerSide.value(),
    };
    let long_description_type = match LongDescriptionType::from_value(ldt_code) {
        Some(t) => t,
        None => LongDescriptionType::MarkdownServerSide,
    };
    let (css_raw, css) = css_pair(&row.css);
    let long_description = sanitize_description(long_description_type, row.long_description.as_str());
    let extra_links = links_from_pairs(row.extra_links);
    Server {
        flags: row.flags,
        extra_links,
        owner: parts.owner,
        description: row.description,
        long_description,
        long_description_raw: row.long_description,
        long_description_type,
        banner_card: row.banner_card,
        banner_page: row.banner_page,
        guild_count: match row.guild_count {
            Some(v) => v,
            None => 0,
        },
        invite_amount: match row.invite_amount {
            Some(v) => v,
            None => 0,
        },
        invite_link: None,
        css,
        css_raw,
        state: match State::from_value(row.state) {
            Some(s) => s,
            None => State::Approved,
        },
        total_votes: match row.total_votes {
            Some(v) => v,
            None => 0,
        },
        votes: match row.votes {
            Some(v) => v,
            None => 0,
        },
        created_at: row.created_at,
        user: parts.user,
        tags: parts.tags,
        vanity: parts.vanity,
    }
}

/// The banner shown when a bot or pack has none.
pub open spec fn default_banner() -> Seq<char> {
    "https://api.fateslist.xyz/static/assets/prod/banner.webp"@
}

/// The banner of a listing, the default one when none is stored.
pub fn banner_or_default(banner: Option<String>) -> (r: String)
    ensures
        r@ == (match banner { Some(b) => b@, None => default_banner() }),
{
    match banner {
        Some(b) => b,
        None => String::from_str("https://api.fateslist.xyz/static/assets/prod/banner.webp"),
    }
}

/// The experiments that stored numbers stand for; unknown numbers stand for
/// the unknown experiment.
pub fn decode_experiments(codes: &Vec<i32>) -> (r: Vec<UserExperiments>)
    ensures
        r@.len() == codes@.len(),
        forall|i: int| 0 <= i < codes@.len() ==> r@[i] == (match UserExperiments::decode(#[trigger] codes@[i]) {
            Some(e) => e,
            None => UserExperiments::Unknown,
        }),
{
    let mut out: Vec<UserExperiments> = Vec::new();
    let mut i: usize = 0;
    while i < codes.len()
        invariant
            i <= codes@.len(),
            out@.len() == i,
            forall|k: int| 0 <= k < i ==> out@[k] == (match UserExperiments::decode(#[trigger] codes@[k]) {
                Some(e) => e,
                None => UserExperiments::Unknown,
            }),
        decreases codes.len() - i,
    {
        let e = match UserExperiments::from_value(codes[i]) {
            Some(e) => e,
            None => UserExperiments::Unknown,
        };
        out.push(e);
        i = i + 1;
    }
    out
}

/// The user flags that stored numbers stand for; unknown numbers stand for
/// the unknown flag.
pub fn decode_user_flags(codes: &Vec<i32>) -> (r: Vec<UserFlags>)
    ensures
        r@.len() == codes@.len(),
        forall|i: int| 0 <= i < codes@.len() ==> r@[i] == (match UserFlags::decode(#[trigger] codes@[i]) {
            Some(f) => f,
            None => UserFlags::Unknown,
        }),
{
    let mut out: Vec<UserFlags> = Vec::new();
    let mut i: usize = 0;
    while i < codes.len()
        invariant
            i <= codes@.len(),
            out@.len() == i,
            forall|k: int| 0 <= k < i ==> out@[k] == (match UserFlags::decode(#[trigger] codes@[k]) {
                Some(f) => f,
                None => UserFlags::Unknown,
            }),
        decreases codes.len() - i,
    {
        let f = match UserFlags::from_value(codes[i]) {
            Some(f) => f,
            None => UserFlags::Unknown,
        };
        out.push(f);
        i = i + 1;
    }
    out
}

/// What the `users` table holds of a profile.
#[derive(Clone, Debug, PartialEq, Eq, Default)]
pub struct StoredProfile {
    pub flags: Vec<i32>,
    pub description: Option<String>,
    pub site_lang: Option<String>,
    pub state: i32,
    pub user_css: Option<String>,
    pub profile_css: String,
    /// The extra links as stored, each value's text when it is a string.
    pub extra_links: Vec<(String, Option<String>)>,
    pub vote_reminder_channel: Option<String>,
}

/// What other tables hold of a profile.
#[derive(Debug, Default)]
pub struct ProfileParts {
    pub user: User,
    pub bots: Vec<IndexBot>,
    pub packs: Vec<BotPack>,
    pub action_logs: Vec<ActionLog>,
    pub user_experiments: Vec<UserExperiments>,
    pub connections: Vec<FrostpawUserConnection>,
}

/// The description of a user who wrote none.
pub open spec fn enigma() -> Seq<char> {
    "This user prefers to be an enigma"@
}

/// The profile that `get_profile` answers with: the description (a default
/// one when none is stored) rendered as markdown and sanitized, the state
/// decoded (normal when unknown), English when no language is stored.
pub fn profile_from_stored(row: StoredProfile, parts: ProfileParts) -> (r: Profile)
    ensures
        r.description_raw@ == (match row.description { Some(d) => d@, None => enigma() }),
        r.description@ == sanitized_description(LongDescriptionType::MarkdownServerSide, r.description_raw@),
        r.state == (match UserState::decode(row.state) { Some(s) => s, None => UserState::Normal }),
        r.site_lang@ == (match row.site_lang { Some(l) => l@, None => "en"@ }),
        r.user_css@ == (match row.user_css { Some(c) => c@, None => Seq::<char>::empty() }),
        r.profile_css == row.profile_css,
        link_entries(r.extra_links) == entries_of_pairs(row.extra_links@),
        r.flags == row.flags,
        r.vote_reminder_channel == row.vote_reminder_channel,
        r.user == parts.user,
        r.bots == parts.bots,
        r.packs == parts.packs,
        r.action_logs == parts.action_logs,
        r.user_experiments == parts.user_experiments,
        r.connections == parts.connections,
{
    let description_raw = match row.description {
        Some(d) => d,
        None => String::from_str("This user prefers to be an enigma"),
    };
    let description = sanitize_description(LongDescriptionType::MarkdownServerSide, description_raw.as_str());
    let extra_links = links_from_pairs(row.extra_links);
    Profile {
        bots: parts.bots,
        packs: parts.packs,
        extra_links,
        action_logs: parts.action_logs,
        user_experiments: parts.user_experiments,
        connections: parts.connections,
        flags: row.flags,
        description_raw,
        description,
        vote_reminder_channel: row.vote_reminder_channel,
        state: match UserState::from_value(row.state) {
            Some(s) => s,
            None => UserState::Normal,
        },
        user: parts.user,
        user_css: match row.user_css {
            Some(c) => c,
            None => String::new(),
        },
        profile_css: row.profile_css,
        site_lang: match row.site_lang {
            Some(l) => l,
            None => String::from_str("en"),
        },
    }
}

/// What a vanity points to: its type number (`0` server, `1` bot, `2`
/// profile, a bot otherwise) and the id it redirects to (`0` when none).
pub fn vanity_from_stored(kind: Option<i32>, redirect: Option<i64>) -> (r: Vanity)
    ensures
        r.target_type@ == (match kind {
            Some(0) => "server"@,
            Some(2) => "profile"@,
            _ => "bot"@,
        }),
        r.target_id@ == int_decimal(or_zero(redirect) as int),
{
    let target_type = match kind {
        Some(0) => "server",
        Some(1) => "bot",
        Some(2) => "profile",
        _ => "bot",
    };
    let target = match redirect {
        Some(v) => v,
        None => 0,
    };
    Vanity { target_type: String::from_str(target_type), target_id: i64_to_string(target) }
}

/// The user answered when the user service does not know an id.
pub fn unknown_user() -> (r: User)
    ensures
        r.id@.len() == 0,
        r.username@ == "Unknown User"@,
        r.status == Status::Unknown,
        r.disc@ == "0000"@,
        r.avatar@ == "https://api.fateslist.xyz/static/botlisticon.webp"@,
        !r.bot,
{
    User {
        id: String::new(),
        username: String::from_str("Unknown User"),
        status: Status::Unknown,
        disc: String::from_str("0000"),
        avatar: String::from_str("https://api.fateslist.xyz/static/botlisticon.webp"),
        bot: false,
    }
}

/// How long a user is cached, in seconds: an hour when the user was not
/// found, eight hours otherwise.
pub fn user_cache_seconds(user: &User) -> (r: u64)
    ensures
        r == (if user.id@.len() == 0 { 3600u64 } else { 28800u64 }),
{
    if user.id.unicode_len() == 0 {
        60 * 60
    } else {
        60 * 60 * 8
    }
}

/// The cache key of a user.
pub fn user_cache_key(user_id: i64) -> (r: String)
    ensures
        r@ == "user-cache:"@ + int_decimal(user_id as int),
{
    String::from_str("user-cache:").concat(i64_to_string(user_id).as_str())
}

/// The user behind a server listing: its cached name and avatar.
pub fn server_user(id: String, username: String, avatar: Option<String>) -> (r: User)
    ensures
        r.id == id,
        r.username == username,
        r.disc@ == "0000"@,
        r.avatar@ == (match avatar { Some(a) => a@, None => Seq::<char>::empty() }),
        !r.bot,
        r.status == Status::Unknown,
{
    User {
        id,
        username,
        disc: String::from_str("0000"),
        avatar: match avatar {
            Some(a) => a,
            None => String::new(),
        },
        bot: false,
        status: Status::Unknown,
    }
}

/// A bot with the settings only its owners see filled in: the API token, the
/// webhook, its secret and whether it is HMAC-only (no when not said).
pub fn with_secrets(bot: Bot, api_token: Option<String>, webhook: Option<String>, webhook_secret: Option<String>, hmac_only: Option<bool>) -> (r: Bot)
    ensures
        r == (Bot {
            api_token,
            webhook,
            webhook_secret,
            webhook_hmac_only: Some(match hmac_only { Some(h) => h, None => false }),
            ..bot
        }),
{
    let h = match hmac_only {
        Some(h) => h,
        None => false,
    };
    Bot { api_token, webhook, webhook_secret, webhook_hmac_only: Some(h), ..bot }
}

/// Vanities that start with `_` are not resolved.
pub fn vanity_hidden(code: &str) -> (r: bool)
    ensures
        r == (code@.len() > 0 && code@[0] == '_'),
{
    code.unicode_len() > 0 && code.get_char(0) == '_'
}

/// The pattern that a search matches anywhere in a text.
pub fn search_pattern(q: &str) -> (r: String)
    ensures
        r@ == "%"@ + q@ + "%"@,
{
    let mut s = String::from_str("%");
    s.append(q);
    s.append("%");
    s
}

/// The cache key of a search.
pub fn search_key(q: &str, gc_from: i64, gc_to: i64) -> (r: String)
    ensures
        r@ == q@ + "-"@ + int_decimal(gc_from as int) + "-"@ + int_decimal(gc_to as int),
{
    let mut s = String::from_str(q);
    s.append("-");
    s.append(i64_to_string(gc_from).as_str());
    s.append("-");
    s.append(i64_to_string(gc_to).as_str());
    s
}

/// Whether the flags hold the NSFW flag.
fn flags_nsfw(flags: &Vec<i32>) -> (r: bool)
    ensures
        r == flags@.contains(Flags::NSFW.code()),
{
    let nsfw = Flags::NSFW.value();
    let mut i: usize = 0;
    while i < flags.len()
        invariant
            nsfw == Flags::NSFW.code(),
            i <= flags@.len(),
            forall|k: int| 0 <= k < i ==> flags@[k] != nsfw,
        decreases flags.len() - i,
    {
        if flags[i] == nsfw {
            assert(flags@[i as int] == nsfw);
            return true;
        }
        i = i + 1;
    }
    false
}

/// A bot that the random bot route may show: not one whose account was
/// deleted (its name starts with `Deleted`) and not an NSFW one.
pub open spec fn shown_at_random(b: IndexBot) -> bool {
    !has_prefix(b.user.username@, "Deleted"@) && !b.flags@.contains(Flags::NSFW.code())
}

/// Whether a randomly drawn bot is shown (see `shown_at_random`); another
/// is drawn when it is not.
pub fn random_bot_shown(b: &IndexBot) -> (r: bool)
    ensures
        r == shown_at_random(*b),
{
    !starts_with(b.user.username.as_str(), "Deleted") && !flags_nsfw(&b.flags)
}

/// Whether a randomly drawn server is shown: not an NSFW one (a random bot is
/// shown in its place otherwise).
pub fn random_server_shown(s: &IndexBot) -> (r: bool)
    ensures
        r == !s.flags@.contains(Flags::NSFW.code()),
{
    !flags_nsfw(&s.flags)
}

/// Every experiment, in order, with its name.
pub fn experiment_list() -> (r: ExperimentList)
    ensures
        r.user_experiments@.len() == 7,
        forall|i: int| 0 <= i < 7 ==> (#[trigger] r.user_experiments@[i]).value.code() == i
            && r.user_experiments@[i].name@ == r.user_experiments@[i].value.label(),
{
    let all = vec![
        UserExperiments::Unknown,
        UserExperiments::GetRoleSelector,
        UserExperiments::LynxExperimentRolloutView,
        UserExperiments::BotReport,
        UserExperiments::ServerAppealCertification,
        UserExperiments::UserVotePrivacy,
        UserExperiments::DevPortal,
    ];
    let mut items: Vec<UserExperimentListItem> = Vec::new();
    let mut i: usize = 0;
    while i < all.len()
        invariant
            all@ == seq![
                UserExperiments::Unknown,
                UserExperiments::GetRoleSelector,
                UserExperiments::LynxExperimentRolloutView,
                UserExperiments::BotReport,
                UserExperiments::ServerAppealCertification,
                UserExperiments::UserVotePrivacy,
                UserExperiments::DevPortal,
            ],
            i <= 7,
            items@.len() == i,
            forall|k: int| 0 <= k < i ==> (#[trigger] items@[k]).value == all@[k] && items@[k].name@ == all@[k].label(),
        decreases 7 - i,
    {
        let e = all[i];
        items.push(UserExperimentListItem { name: e.name(), value: e });
        i = i + 1;
    }
    ExperimentList { user_experiments: items }
}

/// The sources that bots can be imported from, with their names.
pub fn import_source_list() -> (r: ImportSourceList)
    ensures
        r.sources@.len() == 3,
        r.sources@[0].id == ImportSource::Rdl && r.sources@[0].name@ == "Rovel Discord List"@,
        r.sources@[1].id == ImportSource::Ibl && r.sources@[1].name@ == "Infinity Bot List"@,
        r.sources@[2].id == ImportSource::Custom && r.sources@[2].name@ == "Custom Source (top.gg etc.)"@,
{
    ImportSourceList {
        sources: vec![
            ImportSourceListItem { id: ImportSource::Rdl, name: String::from_str("Rovel Discord List") },
            ImportSourceListItem { id: ImportSource::Ibl, name: String::from_str("Infinity Bot List") },
            ImportSourceListItem { id: ImportSource::Custom, name: String::from_str("Custom Source (top.gg etc.)") },
        ],
    }
}

/// A bot or server as listed on the index: missing numbers are zero, an
/// unknown state is approved, and a missing banner is the default one.
pub fn listing(
    user: User,
    description: String,
    banner: Option<String>,
    state: i32,
    votes: Option<i64>,
    guild_count: Option<i64>,
    flags: Vec<i32>,
    created_at: i64,
) -> (r: IndexBot)
    ensures
        r.user == user,
        r.description == description,
        r.banner@ == (match banner { Some(b) => b@, None => default_banner() }),
        r.state == (match State::decode(state) { Some(s) => s, None => State::Approved }),
        r.votes == or_zero(votes),
        r.guild_count == or_zero(guild_count),
        r.flags == flags,
        r.created_at == created_at,
{
    IndexBot {
        guild_count: match guild_count {
            Some(g) => g,
            None => 0,
        },
        description,
        banner: banner_or_default(banner),
        state: match State::from_value(state) {
            Some(s) => s,
            None => State::Approved,
        },
        votes: match votes {
            Some(v) => v,
            None => 0,
        },
        flags,
        created_at,
        user,
    }
}

} // verus!
