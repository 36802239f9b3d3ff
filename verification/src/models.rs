//! The records that the API reads and answers with. Times are Unix
//! timestamps in seconds; ids that Discord hands out are decimal strings.
use crate::enums::{
    CommandType, EventName, AppealType, LongDescriptionType, PageStyle, State, Status, TargetType,
    UserExperiments, UserState, WebhookType,
};
use crate::links::{link_entries, links_insert, links_new};
use indexmap::IndexMap;
use vstd::prelude::*;
use vstd::string::*;

verus! {

/// A Discord user, bot or server as the list shows it.
#[derive(Clone, Debug, PartialEq, Eq, Default)]
pub struct User {
    pub id: String,
    pub username: String,
    pub disc: String,
    pub avatar: String,
    pub bot: bool,
    pub status: Status,
}

/// One entry of the experiment list.
#[derive(Clone, Debug, PartialEq, Eq, Default)]
pub struct UserExperimentListItem {
    pub name: String,
    pub value: UserExperiments,
}

/// The experiments that exist.
#[derive(Clone, Debug, PartialEq, Eq, Default)]
pub struct ExperimentList {
    pub user_experiments: Vec<UserExperimentListItem>,
}

/// A bot list that bots can be imported from.
#[derive(Clone, Copy, Debug, PartialEq, Eq, Structural, Default)]
pub enum ImportSource {
    Rdl,
    Ibl,
    Custom,
    #[default]
    Other,
}

impl ImportSource {
    /// The display name of the source.
    pub open spec fn display_name(self) -> Seq<char> {
        match self {
            ImportSource::Rdl => "Rovel Discord List"@,
            ImportSource::Custom => "Custom Source"@,
            ImportSource::Ibl => "Infinity Bot List"@,
            ImportSource::Other => "Unknown Source"@,
        }
    }

    /// The display name of the source.
    pub fn source_name(self) -> (r: String)
        ensures
            r@ == self.display_name(),
    {
        match self {
            ImportSource::Rdl => String::from_str("Rovel Discord List"),
            ImportSource::Custom => String::from_str("Custom Source"),
            ImportSource::Ibl => String::from_str("Infinity Bot List"),
            ImportSource::Other => String::from_str("Unknown Source"),
        }
    }
}

/// An import source item: a bot list that can be imported from.
#[derive(Clone, Debug, PartialEq, Eq, Default)]
pub struct ImportSourceListItem {
    pub id: ImportSource,
    pub name: String,
}

/// The import sources on offer.
#[derive(Clone, Debug, PartialEq, Eq, Default)]
pub struct ImportSourceList {
    pub sources: Vec<ImportSourceListItem>,
}

/// A bot or server as shown on the index page.
#[derive(Clone, Debug, PartialEq, Eq, Default)]
pub struct IndexBot {
    pub guild_count: i64,
    pub description: String,
    pub banner: String,
    pub votes: i64,
    pub state: State,
    pub user: User,
    pub flags: Vec<i32>,
    pub created_at: i64,
}

/// A tag; two tags are the same tag when their ids are equal.
#[derive(Clone, Debug, Default)]
pub struct Tag {
    pub name: String,
    pub iconify_data: String,
    pub id: String,
    pub owner_guild: Option<String>,
}

impl PartialEq for Tag {
    fn eq(&self, other: &Self) -> (r: bool) {
        self.id == other.id
    }
}

impl vstd::std_specs::cmp::PartialEqSpecImpl for Tag {
    open spec fn obeys_eq_spec() -> bool {
        true
    }

    open spec fn eq_spec(&self, other: &Self) -> bool {
        self.id@ == other.id@
    }
}

/// A bot feature; two features are the same feature when their ids are equal.
#[derive(Clone, Debug, Default)]
pub struct Feature {
    pub id: String,
    pub name: String,
    pub viewed_as: String,
    pub description: String,
}

impl PartialEq for Feature {
    fn eq(&self, other: &Self) -> (r: bool) {
        self.id == other.id
    }
}

impl vstd::std_specs::cmp::PartialEqSpecImpl for Feature {
    open spec fn obeys_eq_spec() -> bool {
        true
    }

    open spec fn eq_spec(&self, other: &Self) -> bool {
        self.id@ == other.id@
    }
}

/// The index page.
#[derive(Clone, Debug, PartialEq, Default)]
pub struct Index {
    pub new: Vec<IndexBot>,
    pub top_voted: Vec<IndexBot>,
    pub certified: Vec<IndexBot>,
    pub tags: Vec<Tag>,
    pub features: Vec<Feature>,
}

impl Index {
    /// An index with every list empty.
    pub fn new() -> (r: Index)
        ensures
            r.new@.len() == 0,
            r.top_voted@.len() == 0,
            r.certified@.len() == 0,
            r.tags@.len() == 0,
            r.features@.len() == 0,
    {
        Index {
            top_voted: Vec::new(),
            certified: Vec::new(),
            new: Vec::new(),
            tags: Vec::new(),
            features: Vec::new(),
        }
    }
}

/// A bot in a pack, with its short description.
#[derive(Clone, Debug, PartialEq, Eq, Default)]
pub struct ResolvedPackBot {
    pub user: User,
    pub description: String,
}

/// A pack of bots made by a user.
#[derive(Clone, Debug, PartialEq, Eq, Default)]
pub struct BotPack {
    pub id: String,
    pub name: String,
    pub description: String,
    pub icon: String,
    pub banner: String,
    pub resolved_bots: Vec<ResolvedPackBot>,
    pub owner: User,
    pub created_at: i64,
}

/// A user profile in search results.
#[derive(Clone, Debug, PartialEq, Eq, Default)]
pub struct SearchProfile {
    pub banner: String,
    pub description: String,
    pub user: User,
}

/// The tags of bots and of servers.
#[derive(Clone, Debug, PartialEq, Default)]
pub struct SearchTags {
    pub bots: Vec<Tag>,
    pub servers: Vec<Tag>,
}

/// Search results.
#[derive(Clone, Debug, PartialEq, Default)]
pub struct Search {
    pub bots: Vec<IndexBot>,
    pub servers: Vec<IndexBot>,
    pub profiles: Vec<SearchProfile>,
    pub packs: Vec<BotPack>,
    pub tags: SearchTags,
}

/// Query of the index route.
#[derive(Clone, Debug, PartialEq, Eq, Default)]
pub struct IndexQuery {
    pub target_type: TargetType,
}

/// Query of the vote routes.
#[derive(Clone, Debug, PartialEq, Eq, Default)]
pub struct VoteBotQuery {
    pub test: bool,
}

/// Path of the routes on a user's bot.
#[derive(Clone, Debug, PartialEq, Eq, Default)]
pub struct GetUserBotPath {
    pub user_id: i64,
    pub bot_id: i64,
}

/// Query of the import route.
#[derive(Clone, Debug, PartialEq, Eq, Default)]
pub struct ImportQuery {
    pub src: ImportSource,
    pub custom_source: Option<String>,
}

/// Query of the gateway route.
#[derive(Clone, Debug, PartialEq, Eq, Default)]
pub struct WsModeStruct {
    pub mode: TargetType,
}

/// Path of the routes on a user's server.
#[derive(Clone, Debug, PartialEq, Eq, Default)]
pub struct GetUserServerPath {
    pub user_id: i64,
    pub server_id: i64,
}

/// Path of the routes on a user's pack.
#[derive(Clone, Debug, PartialEq, Eq, Default)]
pub struct GetUserPackPath {
    pub user_id: i64,
    pub pack_id: String,
}

/// A request to preview a long description.
#[derive(Clone, Debug, PartialEq, Eq, Default)]
pub struct PreviewRequest {
    pub text: String,
    pub long_description_type: LongDescriptionType,
}

/// A rendered preview.
#[derive(Clone, Debug, PartialEq, Eq, Default)]
pub struct PreviewResponse {
    pub preview: String,
}

/// Body of an OAuth2 login.
#[derive(Clone, Debug, PartialEq, Eq, Default)]
pub struct OauthDoQuery {
    pub code: String,
    pub state: Option<String>,
    pub frostpaw: bool,
    pub frostpaw_blood: Option<String>,
    pub frostpaw_claw: Option<String>,
    pub frostpaw_claw_unseathe_time: Option<u64>,
}

/// A custom client of the API.
#[derive(Clone, Debug, PartialEq, Eq, Default)]
pub struct FrostpawClient {
    pub id: String,
    pub name: String,
    pub domain: String,
    pub privacy_policy: String,
    pub secret: String,
    pub owner: User,
}

/// A request to reset a custom client's token.
#[derive(Clone, Debug, PartialEq, Eq, Default)]
pub struct FrostpawTokenReset {
    pub refresh_token: String,
    pub secret: String,
}

/// A user's connection to a custom client.
#[derive(Clone, Debug, PartialEq, Eq, Default)]
pub struct FrostpawUserConnection {
    pub client: FrostpawClient,
    pub user_id: i64,
    pub expires_on: i64,
    pub repeats: i64,
}

/// A login through a custom client.
#[derive(Clone, Debug, PartialEq, Eq, Default)]
pub struct FrostpawLogin {
    pub client_id: String,
    pub user_id: i64,
    pub token: String,
}

/// The user that Discord's OAuth2 answers with.
#[derive(Clone, Debug, PartialEq, Eq, Default)]
pub struct OauthUser {
    pub id: String,
    pub username: String,
    pub discriminator: String,
    pub avatar: Option<String>,
}

/// A completed login.
#[derive(Clone, Debug, PartialEq, Eq, Default)]
pub struct OauthUserLogin {
    pub state: UserState,
    pub token: String,
    pub refresh_token: Option<String>,
    pub user: User,
    pub site_lang: String,
    pub css: Option<String>,
    pub user_experiments: Vec<UserExperiments>,
}

/// Stats that a bot posts.
#[derive(Clone, Debug, PartialEq, Eq, Default)]
pub struct BotStats {
    pub guild_count: i64,
    pub shard_count: Option<i64>,
    pub shards: Option<Vec<i32>>,
    pub user_count: Option<i64>,
}

/// The answer of Discord's token exchange (only the access token matters).
#[derive(Clone, Debug, PartialEq, Eq, Default)]
pub struct OauthAccessTokenResponse {
    pub access_token: String,
}

/// Query of the tag search.
#[derive(Clone, Debug, PartialEq, Eq, Default)]
pub struct SearchTagQuery {
    pub q: String,
}

/// Query of the search.
#[derive(Clone, Debug, PartialEq, Eq, Default)]
pub struct SearchQuery {
    pub q: String,
    pub gc_from: i64,
    pub gc_to: i64,
}

/// An empty body.
#[derive(Clone, Debug, PartialEq, Eq, Default)]
pub struct Empty {}

/// Path of the vanity route.
#[derive(Clone, Debug, PartialEq, Eq, Default)]
pub struct VanityPath {
    pub code: String,
}

/// What a vanity code resolves to.
#[derive(Clone, Debug, PartialEq, Eq, Default)]
pub struct Vanity {
    pub target_type: String,
    pub target_id: String,
}

/// The service's secrets.
#[derive(Clone, Debug, PartialEq, Eq, Default)]
pub struct Secrets {
    pub client_id: String,
    pub client_secret: String,
    pub token_main: String,
    pub token_squirrelflight: String,
    pub japi_key: String,
    pub ibl_fates_key: String,
    pub metro_key: String,
}

/// A partner's links.
#[derive(Clone, Debug, PartialEq, Eq, Default)]
pub struct PartnerLinks {
    pub discord: String,
    pub website: String,
}

/// A partner of the list.
#[derive(Clone, Debug, PartialEq, Eq, Default)]
pub struct Partner {
    pub id: String,
    pub name: String,
    pub owner: String,
    pub image: String,
    pub description: String,
    pub links: PartnerLinks,
}

/// The partners of the list.
#[derive(Clone, Debug, PartialEq, Eq)]
pub struct Partners {
    pub partners: Vec<Partner>,
    pub icons: PartnerLinks,
}

impl Default for Partners {
    /// An example list with one partner.
    fn default() -> (r: Partners)
        ensures
            r.partners@.len() == 1,
            r.partners@[0].id@ == "0"@,
            r.partners@[0].name@ == "My development"@,
            r.partners@[0].owner@ == "12345678901234567"@,
            r.partners@[0].links.website@ == "https://example.com"@,
            r.icons.discord@.len() == 0,
            r.icons.website@.len() == 0,
    {
        Partners {
            partners: vec![
                Partner {
                    id: String::from_str("0"),
                    name: String::from_str("My development"),
                    owner: String::from_str("12345678901234567"),
                    image: String::new(),
                    description: String::from_str("Some random description"),
                    links: PartnerLinks {
                        discord: String::from_str("https://discord.com/lmao"),
                        website: String::from_str("https://example.com"),
                    },
                },
            ],
            icons: PartnerLinks { discord: String::new(), website: String::new() },
        }
    }
}

/// The answer of most routes: whether the request was done, and why not.
#[derive(Clone, Debug, PartialEq, Eq, Default)]
pub struct APIResponse {
    pub done: bool,
    pub reason: Option<String>,
    pub context: Option<String>,
}

/// Path of the review deletion and vote routes.
#[derive(Clone, Debug, PartialEq, Eq, Default)]
pub struct ReviewDeletePath {
    pub rid: String,
}

/// A path holding a string id.
#[derive(Clone, Debug, PartialEq, Eq, Default)]
pub struct StringIDPath {
    pub id: String,
}

/// A path holding a numeric id.
#[derive(Clone, Debug, PartialEq, Eq, Default)]
pub struct FetchBotPath {
    pub id: i64,
}

/// Path of the client revocation route.
#[derive(Clone, Debug, PartialEq, Eq, Default)]
pub struct UserClientAuth {
    pub id: i64,
    pub client_id: String,
}

/// A command of a bot.
#[derive(Clone, Debug, PartialEq, Eq, Default)]
pub struct BotCommand {
    pub cmd_type: CommandType,
    pub groups: Vec<String>,
    pub name: String,
    pub vote_locked: bool,
    pub description: String,
    pub args: Vec<String>,
    pub examples: Vec<String>,
    pub premium_only: bool,
    pub notes: Vec<String>,
    pub doc_link: Option<String>,
    pub id: Option<String>,
    pub nsfw: bool,
}

/// A list of commands.
#[derive(Clone, Debug, PartialEq, Eq, Default)]
pub struct BotCommandVec {
    pub commands: Vec<BotCommand>,
}

/// Query of the command deletion route.
#[derive(Clone, Debug, PartialEq, Eq, Default)]
pub struct CommandDeleteQuery {
    pub nuke: Option<bool>,
    pub names: Option<String>,
    pub ids: Option<String>,
}

/// Query of the resource deletion route.
#[derive(Clone, Debug, PartialEq, Eq, Default)]
pub struct ResourceDeleteQuery {
    pub id: String,
    pub target_type: TargetType,
}

/// A query naming the target type.
#[derive(Clone, Debug, PartialEq, Eq, Default)]
pub struct TargetQuery {
    pub target_type: TargetType,
}

/// A resource (a titled link) of a bot or server.
#[derive(Clone, Debug, PartialEq, Eq, Default)]
pub struct Resource {
    pub resource_title: String,
    pub resource_link: String,
    pub resource_description: String,
}

/// An owner of a bot; `main` marks the main owner.
#[derive(Clone, Debug, PartialEq, Eq, Default)]
pub struct BotOwner {
    pub user: User,
    pub main: bool,
}

/// An entry of the action log.
#[derive(Clone, Debug, PartialEq, Eq)]
pub struct ActionLog {
    pub user_id: String,
    pub bot_id: String,
    pub action: i32,
    pub action_time: i64,
    pub context: Option<String>,
}

impl Default for ActionLog {
    /// An example entry.
    fn default() -> (r: ActionLog)
        ensures
            r.user_id@.len() == 0,
            r.bot_id@.len() == 0,
            r.action == 0,
            r.action_time == 0,
            r.context matches Some(c) && c@ == "Some context as to why the action happened"@,
    {
        ActionLog {
            user_id: String::new(),
            bot_id: String::new(),
            action: 0,
            action_time: 0,
            context: Some(String::from_str("Some context as to why the action happened")),
        }
    }
}

/// Votes in one month.
#[derive(Clone, Debug, PartialEq, Eq, Default)]
pub struct VotesPerMonth {
    pub votes: i64,
    pub ts: i64,
}

/// A server listed on the site.
#[derive(Debug, PartialEq, Default)]
pub struct Server {
    pub user: User,
    pub owner: User,
    pub description: String,
    pub tags: Vec<Tag>,
    pub long_description_type: LongDescriptionType,
    pub long_description: String,
    pub long_description_raw: String,
    pub vanity: Option<String>,
    pub guild_count: i64,
    pub invite_amount: i32,
    pub invite_link: Option<String>,
    pub created_at: i64,
    pub state: State,
    pub flags: Vec<i32>,
    pub css: String,
    pub css_raw: String,
    pub extra_links: IndexMap<String, String>,
    pub banner_card: Option<String>,
    pub banner_page: Option<String>,
    pub votes: i64,
    pub total_votes: i64,
}

/// A bot listed on the site.
#[derive(Debug, PartialEq)]
pub struct Bot {
    pub user: User,
    pub description: String,
    pub tags: Vec<Tag>,
    pub created_at: i64,
    pub last_updated_at: i64,
    pub last_stats_post: i64,
    pub long_description: String,
    pub long_description_raw: String,
    pub long_description_type: LongDescriptionType,
    pub guild_count: i64,
    pub shard_count: i64,
    pub user_count: i64,
    pub shards: Vec<i32>,
    pub prefix: Option<String>,
    pub library: String,
    pub invite: Option<String>,
    pub invite_link: String,
    pub invite_amount: i32,
    pub owners: Vec<BotOwner>,
    pub features: Vec<Feature>,
    pub state: State,
    pub page_style: PageStyle,
    pub extra_links: IndexMap<String, String>,
    pub css: String,
    pub css_raw: String,
    pub votes: i64,
    pub total_votes: i64,
    pub vanity: String,
    pub banner_card: Option<String>,
    pub banner_page: Option<String>,
    pub client_id: String,
    pub flags: Vec<i32>,
    pub action_logs: Vec<ActionLog>,
    pub vpm: Option<Vec<VotesPerMonth>>,
    pub uptime_checks_total: Option<i32>,
    pub uptime_checks_failed: Option<i32>,
    pub commands: Vec<BotCommand>,
    pub webhook: Option<String>,
    pub webhook_secret: Option<String>,
    pub webhook_type: Option<WebhookType>,
    pub webhook_hmac_only: Option<bool>,
    pub api_token: Option<String>,
}

impl Default for Bot {
    /// The example bot of the documentation, which imports start from.
    fn default() -> (r: Bot)
        ensures
            r.user.id@.len() == 0,
            r.user.username@.len() == 0,
            r.description@.len() == 0,
            r.tags@.len() == 0,
            r.long_description@ == "blah blah blah"@,
            r.long_description_type == LongDescriptionType::MarkdownServerSide,
            r.page_style == PageStyle::SingleScroll,
            r.guild_count == 0,
            r.shard_count == 493,
            r.prefix matches Some(p) && p@ == "Some prefix, null = slash command"@,
            r.library@.len() == 0,
            r.invite_amount == 48,
            r.owners@.len() == 1,
            r.owners@[0].main == false,
            r.features@.len() == 1,
            r.features@[0].id@.len() == 0,
            r.state == State::Approved,
            r.css@ == "<style></style>"@,
            r.vanity@.len() == 0,
            r.client_id@.len() == 0,
            r.flags@.len() == 0,
            link_entries(r.extra_links) == seq![("key"@, "value"@)],
            r.webhook_type is None,
            r.webhook_hmac_only is None,
    {
        let mut extra_links = links_new();
        links_insert(&mut extra_links, String::from_str("key"), String::from_str("value"));
        let owner = BotOwner {
            user: User {
                id: String::new(),
                username: String::new(),
                disc: String::new(),
                avatar: String::new(),
                bot: false,
                status: Status::Unknown,
            },
            main: false,
        };
        let feature = Feature {
            id: String::new(),
            name: String::new(),
            viewed_as: String::new(),
            description: String::new(),
        };
        let command = BotCommand {
            cmd_type: CommandType::PrefixCommand,
            groups: Vec::new(),
            name: String::new(),
            vote_locked: false,
            description: String::new(),
            args: Vec::new(),
            examples: Vec::new(),
            premium_only: false,
            notes: Vec::new(),
            doc_link: None,
            id: None,
            nsfw: false,
        };
        let r = Bot {
            extra_links,
            user: User {
                id: String::new(),
                username: String::new(),
                disc: String::new(),
                avatar: String::new(),
                bot: false,
                status: Status::Unknown,
            },
            description: String::new(),
            tags: Vec::new(),
            created_at: 0,
            last_updated_at: 0,
            last_stats_post: 0,
            long_description: String::from_str("blah blah blah"),
            long_description_raw: String::from_str("blah blah blah unsanitized"),
            long_description_type: LongDescriptionType::MarkdownServerSide,
            page_style: PageStyle::SingleScroll,
            guild_count: 0,
            shard_count: 493,
            user_count: 0,
            shards: Vec::new(),
            prefix: Some(String::from_str("Some prefix, null = slash command")),
            library: String::new(),
            invite: Some(String::from_str("Raw invite, null = auto-generated. Use invite_link instead")),
            invite_link: String::from_str("https://discord.com/api/oauth2/authorize...."),
            invite_amount: 48,
            owners: vec![owner],
            features: vec![feature],
            state: State::Approved,
            css: String::from_str("<style></style>"),
            css_raw: String::from_str("unsanitized css"),
            votes: 0,
            total_votes: 0,
            vanity: String::new(),
            banner_card: Some(String::from_str("https://api.fateslist.xyz/static/botlisticon.webp")),
            banner_page: Some(String::from_str("https://api.fateslist.xyz/static/botlisticon.webp")),
            client_id: String::new(),
            flags: Vec::new(),
            action_logs: vec![ActionLog::default()],
            vpm: Some(vec![VotesPerMonth { votes: 0, ts: 0 }]),
            uptime_checks_total: Some(30),
            uptime_checks_failed: Some(19),
            commands: vec![command],
            webhook: Some(String::from_str("This will be redacted for Get Bot endpoint")),
            webhook_type: None,
            webhook_hmac_only: None,
            webhook_secret: Some(String::from_str("This (along with ``webhook_type``, ``api_token`` and ``webhook_hmac_only``) will be redacted for Get Bot endpoint")),
            api_token: Some(String::from_str("This will be redacted for Get Bot endpoint")),
        };
        proof {
            assert(link_entries(r.extra_links) =~= seq![("key"@, "value"@)]);
        }
        r
    }
}

/// The data of the bot settings page.
#[derive(Clone, Debug, PartialEq, Default)]
pub struct BotSettingsContext {
    pub tags: Vec<Tag>,
    pub features: Vec<Feature>,
}

/// A bot with its settings page data.
#[derive(Debug, PartialEq)]
pub struct BotSettings {
    pub bot: Bot,
    pub context: BotSettingsContext,
}

/// What the invite service answers for a server invite.
#[derive(Clone, Debug, PartialEq, Eq, Default)]
pub struct GuildInviteBaypawData {
    pub url: String,
    pub cid: u64,
}

/// Whether a bot is being added or edited.
#[derive(Clone, Copy, Debug, PartialEq, Eq, Structural)]
pub enum BotActionMode {
    Add,
    Edit,
}

/// What a view of a page records.
#[derive(Clone, Debug, PartialEq, Eq, Default)]
pub struct BotViewProp {
    pub widget: bool,
    pub vote_page: bool,
    pub invite: bool,
}

/// What a vote records.
#[derive(Clone, Debug, PartialEq, Eq, Default)]
pub struct BotVoteProp {
    pub test: bool,
    pub votes: i64,
}

/// Who and what an event concerns.
#[derive(Clone, Debug, PartialEq, Eq, Default)]
pub struct EventContext {
    pub user: Option<String>,
    pub target: String,
    pub target_type: TargetType,
    pub ts: i64,
}

/// The kind and id of an event.
#[derive(Clone, Debug, PartialEq, Eq, Default)]
pub struct EventMeta {
    pub e: EventName,
    pub eid: String,
}

/// An event sent over the gateway.
#[derive(Clone, Debug, PartialEq, Eq, Default)]
pub struct Event<T> {
    pub m: EventMeta,
    pub ctx: EventContext,
    pub props: T,
}

/// The body of a vote webhook.
#[derive(Clone, Debug, PartialEq, Eq, Default)]
pub struct VoteWebhookEvent {
    pub id: String,
    pub user: String,
    pub ts: i64,
    pub votes: i64,
    pub eid: String,
    pub test: bool,
}

/// A request to staff (appeal, certification or report).
#[derive(Clone, Debug, PartialEq, Eq, Default)]
pub struct Appeal {
    pub request_type: AppealType,
    pub appeal: String,
}

/// Whether and when a user voted.
#[derive(Clone, Debug, PartialEq, Eq, Default)]
pub struct UserVoted {
    pub votes: i64,
    pub voted: bool,
    pub vote_right_now: bool,
    pub expiry: u64,
    pub timestamps: Vec<i64>,
}

/// Application part of the anti-abuse service's answer.
#[derive(Clone, Debug, PartialEq, Eq, Default)]
pub struct JAPIAppDataApp {
    pub id: String,
    pub bot_public: bool,
}

/// Bot part of the anti-abuse service's answer.
#[derive(Clone, Debug, PartialEq, Eq, Default)]
pub struct JAPIAppDataBot {
    pub id: String,
    pub approximate_guild_count: i64,
}

/// The data of the anti-abuse service's answer.
#[derive(Clone, Debug, PartialEq, Eq, Default)]
pub struct JAPIAppData {
    pub application: JAPIAppDataApp,
    pub bot: JAPIAppDataBot,
}

/// The anti-abuse service's answer about an application.
#[derive(Clone, Debug, PartialEq, Eq, Default)]
pub struct JAPIApplication {
    pub data: JAPIAppData,
}

/// A user's profile.
#[derive(Debug, PartialEq, Default)]
pub struct Profile {
    pub user: User,
    pub connections: Vec<FrostpawUserConnection>,
    pub bots: Vec<IndexBot>,
    pub description_raw: String,
    pub description: String,
    pub profile_css: String,
    pub user_css: String,
    pub vote_reminder_channel: Option<String>,
    pub packs: Vec<BotPack>,
    pub state: UserState,
    pub site_lang: String,
    pub action_logs: Vec<ActionLog>,
    pub user_experiments: Vec<UserExperiments>,
    pub flags: Vec<i32>,
    pub extra_links: IndexMap<String, String>,
}

/// The up and down votes of a review, by user id.
#[derive(Clone, Debug, PartialEq, Eq, Default)]
pub struct ParsedReviewVotes {
    pub upvotes: Vec<String>,
    pub downvotes: Vec<String>,
}

/// A vote on a review.
#[derive(Clone, Debug, PartialEq, Eq, Default)]
pub struct ReviewVote {
    pub user_id: String,
    pub upvote: bool,
}

/// A review; `star_rating` is a decimal number written out as text.
#[derive(Debug, PartialEq, Eq, Default)]
pub struct Review {
    pub id: Option<u128>,
    pub star_rating: String,
    pub review_text: String,
    pub votes: ParsedReviewVotes,
    pub flagged: bool,
    pub user: User,
    pub epoch: Vec<i64>,
    pub replies: Vec<Review>,
    pub parent_id: Option<u128>,
}

/// Which developer roles a user was given.
#[derive(Clone, Debug, PartialEq, Eq, Default)]
pub struct RoleUpdate {
    pub bot_developer: bool,
    pub certified_developer: bool,
}

/// The average rating (decimal text) and number of reviews.
#[derive(Clone, Debug, PartialEq, Eq, Default)]
pub struct ReviewStats {
    pub average_stars: String,
    pub total: i64,
}

/// A page of reviews.
#[derive(Debug, PartialEq, Eq, Default)]
pub struct ParsedReview {
    pub reviews: Vec<Review>,
    pub per_page: i64,
    pub from: i64,
    pub stats: ReviewStats,
    pub user_review: Option<Review>,
}

/// Query of the review routes.
#[derive(Clone, Debug, PartialEq, Eq, Default)]
pub struct ReviewQuery {
    pub target_type: TargetType,
    pub page: Option<i32>,
    pub user_id: Option<i64>,
}

/// Which token a route accepts.
#[derive(Clone, Copy, Debug, PartialEq, Eq, Structural)]
pub enum RouteAuthType {
    User,
    Bot,
    Server,
}

/// The description of an enum for the enum reference; `docs` is the rendered
/// table of its values.
#[derive(Clone, Debug, PartialEq, Eq, Default)]
pub struct EnumDesc {
    pub name: String,
    pub description: String,
    pub alt_names: Vec<String>,
    pub docs: String,
}

/// Whether a gateway connection follows a bot or a server.
#[derive(Clone, Copy, Debug, PartialEq, Eq, Structural)]
pub enum WsMode {
    Bot,
    Server,
}

} // verus!
