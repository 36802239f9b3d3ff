//! The checks that a bot passes when it is added or edited.
//!
//! The checks need answers from the database, the anti-abuse service and the
//! banner hosts, so they run as a machine: `BotCheck::start` and
//! `BotCheck::step` decide, and name in a `CheckAction` what they need next;
//! the caller fetches it and hands it back as a `CheckEvent`.
use crate::enums::{Flags, State};
use crate::errors::{BannerCheckError, CheckBotError};
use crate::links::{link_entries, links_entries, pairs_view};
use crate::models::{Bot, BotActionMode, BotOwner, Feature, JAPIApplication, Tag, User};
use crate::text::{
    byte_len, has_prefix, i64_to_string, int_decimal, lemma_split_from_len, parse_i64, parse_u64,
    parsed_i64, parsed_u64, replace_all, replaced, split_at_char, split_char, starts_with, str_eq,
    utf8_len,
};
use vstd::prelude::*;
use vstd::string::*;

verus! {

/// What the database holds of a bot that already exists.
#[derive(Clone, Debug, PartialEq, Eq)]
pub struct ExistingBot {
    pub state: State,
    pub client_id: String,
}

/// What came of requesting a banner image.
#[derive(Clone, Debug, PartialEq, Eq)]
pub enum BannerReply {
    /// The request could not be made; the error's message.
    SendFailed(String),
    /// The host answered: the status code, the status as text (such as
    /// `404 Not Found`) and the `Content-Type` header (empty when missing).
    Answered { status: u16, status_text: String, content_type: String },
}

/// An HTTP status in the success range.
pub open spec fn is_success(status: u16) -> bool {
    200 <= status && status <= 299
}

/// Whether a banner request shows a usable image: the request went through,
/// the status is a success and the content type is `image/...`.
pub open spec fn banner_verdict(reply: BannerReply) -> Result<(), BannerCheckError> {
    match reply {
        BannerReply::SendFailed(m) => Err(BannerCheckError::BadURL(m)),
        BannerReply::Answered { status, status_text, content_type } => {
            if !is_success(status) {
                Err(BannerCheckError::StatusError(status_text))
            } else if split_at_char(content_type@, '/')[0] != "image"@ {
                Err(BannerCheckError::BadContentType(content_type))
            } else {
                Ok(())
            }
        },
    }
}

/// Whether a banner URL has to be requested (an empty one is accepted as is).
pub fn banner_needs_fetch(url: &str) -> (r: bool)
    ensures
        r == (url@.len() > 0),
{
    url.unicode_len() > 0
}

/// Judges a banner request (see `banner_verdict`).
pub fn judge_banner(reply: BannerReply) -> (r: Result<(), BannerCheckError>)
    ensures
        r == banner_verdict(reply),
{
    match reply {
        BannerReply::SendFailed(m) => Err(BannerCheckError::BadURL(m)),
        BannerReply::Answered { status, status_text, content_type } => {
            if !(200 <= status && status <= 299) {
                return Err(BannerCheckError::StatusError(status_text));
            }
            let pieces = split_char(content_type.as_str(), '/');
            proof {
                lemma_split_from_len(Seq::empty(), content_type@, '/');
                assert(pieces@.map_values(|p: String| p@)[0] == pieces@[0]@);
            }
            if !str_eq(pieces[0].as_str(), "image") {
                return Err(BannerCheckError::BadContentType(content_type));
            }
            Ok(())
        },
    }
}

/// Checks a banner URL: an empty one passes; otherwise `reply` is what
/// requesting it gave, judged by `banner_verdict`.
pub fn check_banner_img(url: &str, reply: Option<BannerReply>) -> (r: Result<(), BannerCheckError>)
    requires
        url@.len() > 0 ==> reply is Some,
    ensures
        r == (if url@.len() == 0 { Ok(()) } else { banner_verdict(reply->0) }),
{
    if !banner_needs_fetch(url) {
        return Ok(());
    }
    match reply {
        Some(rep) => judge_banner(rep),
        None => Ok(()),
    }
}

/// Where a check stands: which answer it waits for.
#[derive(Clone, Copy, Debug, PartialEq, Eq, Structural)]
pub enum CheckStage {
    Existing,
    ApplicationStatus,
    ApplicationBody,
    Vanity,
    BotUser,
    Tags,
    Features,
    BannerCard,
    BannerPage,
    Owner,
    Finished,
}

/// An answer handed to a check.
#[derive(Debug)]
pub enum CheckEvent {
    /// The bot as the database holds it, if it exists.
    Existing(Option<ExistingBot>),
    /// The status of the anti-abuse service's answer, or the request error's message.
    ApplicationStatus(Result<u16, String>),
    /// The anti-abuse service's answer, or the decoding error's message.
    ApplicationBody(Result<JAPIApplication, String>),
    /// The id that the vanity resolves to, if it is taken.
    Vanity(Option<String>),
    /// A user (empty id when not found).
    User(User),
    /// The tags of the list.
    Tags(Vec<Tag>),
    /// The features of the list.
    Features(Vec<Feature>),
    /// What requesting a banner gave.
    Banner(BannerReply),
}

/// What a check needs next, or its outcome.
#[derive(Debug, PartialEq, Eq)]
pub enum CheckAction {
    /// The stored bot with this id.
    FetchExisting(i64),
    /// The anti-abuse service's answer about this application id (its status first).
    FetchApplication(i64),
    /// The body of that answer.
    ReadApplication,
    /// Whom this vanity belongs to.
    ResolveVanity(String),
    /// The user with this id.
    FetchUser(i64),
    /// The tags of the list.
    FetchTags,
    /// The features of the list.
    FetchFeatures,
    /// Request this banner URL.
    FetchBanner(String),
    /// The check is over.
    Finish(Result<(), CheckBotError>),
}

/// A check in progress over the bot being added or edited.
#[derive(Debug)]
pub struct BotCheck {
    pub mode: BotActionMode,
    pub bot: Bot,
    pub bot_id: i64,
    pub stage: CheckStage,
    pub owner_pos: usize,
    pub owner_id: i64,
    pub done_owners: Vec<BotOwner>,
    pub done_ids: Vec<i64>,
}

/// What changes as a check runs.
pub struct CheckSummary {
    pub stage: CheckStage,
    pub user: User,
    pub guild_count: i64,
    pub long_description: Seq<char>,
    pub tags: Seq<Tag>,
    pub features: Seq<Feature>,
    pub owners: Seq<BotOwner>,
    pub owner_pos: int,
    pub owner_id: i64,
    pub done_owners: Seq<BotOwner>,
    pub done_ids: Seq<i64>,
}

impl BotCheck {
    /// The parts of a check that its steps change.
    pub open spec fn summary(self) -> CheckSummary {
        CheckSummary {
            stage: self.stage,
            user: self.bot.user,
            guild_count: self.bot.guild_count,
            long_description: self.bot.long_description@,
            tags: self.bot.tags@,
            features: self.bot.features@,
            owners: self.bot.owners@,
            owner_pos: self.owner_pos as int,
            owner_id: self.owner_id,
            done_owners: self.done_owners@,
            done_ids: self.done_ids@,
        }
    }
}

/// The bot `b` is `a` but for the fields that a check may change.
pub open spec fn same_but_checked(a: Bot, b: Bot) -> bool {
    b == Bot {
        user: b.user,
        guild_count: b.guild_count,
        long_description: b.long_description,
        tags: b.tags,
        features: b.features,
        owners: b.owners,
        ..a
    }
}

/// The prefix's text, empty when there is none.
pub open spec fn prefix_text(p: Option<String>) -> Seq<char> {
    match p {
        Some(s) => s@,
        None => Seq::empty(),
    }
}

/// The checks made before the vanity is resolved: the prefix is at most nine
/// bytes long and the vanity at least two.
pub open spec fn early_error(bot: Bot) -> Option<CheckBotError> {
    if byte_len(prefix_text(bot.prefix)) > 9 {
        Some(CheckBotError::PrefixTooLong)
    } else if byte_len(bot.vanity@) < 2 {
        Some(CheckBotError::NoVanity)
    } else {
        None
    }
}

/// A bot with one of these flags cannot be edited by its owners.
pub open spec fn blocks_edit(flags: Seq<i32>) -> bool {
    flags.contains(Flags::EditLocked.code()) || flags.contains(Flags::StaffLocked.code())
}

/// The application id to ask the anti-abuse service about: the client id
/// when one is given (`None` when it is not a number), else the bot's id.
pub open spec fn application_id(bot: Bot, bot_id: i64) -> Option<i64> {
    if bot.client_id@.len() == 0 {
        Some(bot_id)
    } else {
        parsed_i64(bot.client_id@)
    }
}

/// The invite check: `P:<n>` needs a number `n`; any other invite, with its
/// double quotes taken out, must start with `https://`.
pub open spec fn invite_error(invite: Option<String>) -> Option<CheckBotError> {
    match invite {
        None => None,
        Some(i) => {
            if has_prefix(i@, "P:"@) {
                if parsed_u64(split_at_char(i@, ':')[1]) is Some {
                    None
                } else {
                    Some(CheckBotError::InvalidInvitePermNum)
                }
            } else if !has_prefix(replaced(i@, "\""@, ""@), "https://"@) {
                Some(CheckBotError::InvalidInvite)
            } else {
                None
            }
        },
    }
}

/// The description checks: the short one takes 10 to 200 bytes, the long one
/// at least 200.
pub open spec fn description_error(bot: Bot) -> Option<CheckBotError> {
    if byte_len(bot.description@) > 200 || byte_len(bot.description@) < 10 {
        Some(CheckBotError::ShortDescLengthErr)
    } else if byte_len(bot.long_description@) < 200 {
        Some(CheckBotError::LongDescLengthErr)
    } else {
        None
    }
}

/// The checks made once the vanity is known to be free.
pub open spec fn content_error(bot: Bot) -> Option<CheckBotError> {
    match invite_error(bot.invite) {
        Some(e) => Some(e),
        None => description_error(bot),
    }
}

/// The long description with the escaped newlines `\n` turned into newlines
/// and the escaped `\r` taken out.
pub open spec fn cleaned_long_description(s: Seq<char>) -> Seq<char> {
    replaced(replaced(s, "\\n"@, "\n"@), "\\r"@, ""@)
}

/// A link whose key starts with `_` is kept but not shown.
pub open spec fn hidden_key(k: Seq<char>) -> bool {
    k.len() > 0 && k[0] == '_'
}

/// The check of one extra link: a key of at most 20 bytes, a value of at most
/// 200, and, for a shown link, a value that starts with `https://`.
pub open spec fn link_entry_error(k: Seq<char>, v: Seq<char>) -> Option<CheckBotError> {
    if byte_len(k) > 20 {
        Some(CheckBotError::ExtraLinkKeyTooLong)
    } else if byte_len(v) > 200 {
        Some(CheckBotError::ExtraLinkValueTooLong)
    } else if !hidden_key(k) && !has_prefix(v, "https://"@) {
        Some(CheckBotError::ExtraLinkValueNotHTTPS)
    } else {
        None
    }
}

/// The error of the first extra link that fails its check, in order.
pub open spec fn first_link_error(e: Seq<(Seq<char>, Seq<char>)>) -> Option<CheckBotError>
    decreases e.len(),
{
    if e.len() == 0 {
        None
    } else {
        match first_link_error(e.drop_last()) {
            Some(x) => Some(x),
            None => link_entry_error(e.last().0, e.last().1),
        }
    }
}

/// How many extra links are shown.
pub open spec fn shown_links(e: Seq<(Seq<char>, Seq<char>)>) -> nat
    decreases e.len(),
{
    if e.len() == 0 {
        0
    } else {
        shown_links(e.drop_last()) + if hidden_key(e.last().0) { 0nat } else { 1nat }
    }
}

/// The extra link checks: each link in turn, then at most 10 shown links and
/// at most 20 in all.
pub open spec fn links_error(e: Seq<(Seq<char>, Seq<char>)>) -> Option<CheckBotError> {
    match first_link_error(e) {
        Some(x) => Some(x),
        None => if shown_links(e) > 10 {
            Some(CheckBotError::ExtraLinksTooManyRendered)
        } else if e.len() > 20 {
            Some(CheckBotError::ExtraLinksTooMany)
        } else {
            None
        },
    }
}

/// The vanity belongs to another entity: any owner when adding, another
/// than this bot when editing.
pub open spec fn vanity_taken(mode: BotActionMode, bot_user_id: Seq<char>, target: Option<String>) -> bool {
    match target {
        Some(t) => mode == BotActionMode::Add || t@ != bot_user_id,
        None => false,
    }
}

/// Some tag of `list` has the id `id`.
pub open spec fn has_tag_id(list: Seq<Tag>, id: Seq<char>) -> bool {
    exists|j: int| 0 <= j < list.len() && list[j].id@ == id
}

/// The tags that a check keeps: those of the list, the first of each id, in order.
pub open spec fn kept_tags(tags: Seq<Tag>, full: Seq<Tag>) -> Seq<Tag>
    decreases tags.len(),
{
    if tags.len() == 0 {
        Seq::empty()
    } else {
        let prev = kept_tags(tags.drop_last(), full);
        let t = tags.last();
        if has_tag_id(full, t.id@) && !has_tag_id(prev, t.id@) {
            prev.push(t)
        } else {
            prev
        }
    }
}

/// Some feature of `list` has the id `id`.
pub open spec fn has_feature_id(list: Seq<Feature>, id: Seq<char>) -> bool {
    exists|j: int| 0 <= j < list.len() && list[j].id@ == id
}

/// The features that a check keeps: those of the list, in order.
pub open spec fn kept_features(features: Seq<Feature>, full: Seq<Feature>) -> Seq<Feature>
    decreases features.len(),
{
    if features.len() == 0 {
        Seq::empty()
    } else {
        let prev = kept_features(features.drop_last(), full);
        let f = features.last();
        if has_feature_id(full, f.id@) {
            prev.push(f)
        } else {
            prev
        }
    }
}

/// A banner that has to be requested: one that is set and not empty.
pub open spec fn banner_to_fetch(b: Option<String>) -> Option<String> {
    match b {
        Some(u) => if u@.len() > 0 { Some(u) } else { None },
        None => None,
    }
}

/// Where a scan of the extra owners stops.
pub enum OwnerScan {
    /// An owner is refused.
    Refused(CheckBotError),
    /// The owner at this position, with this id, has to be fetched.
    Fetch(int, i64),
    /// Every owner has been seen.
    Done,
}

/// Scans the extra owners from `pos`: a main owner or an id that is not a
/// number is refused, an id already seen is skipped, a new one is fetched.
pub open spec fn owner_scan(owners: Seq<BotOwner>, pos: int, done: Seq<i64>) -> OwnerScan
    decreases owners.len() - pos,
{
    if pos >= owners.len() || pos < 0 {
        OwnerScan::Done
    } else if owners[pos].main {
        OwnerScan::Refused(CheckBotError::MainOwnerAddAttempt)
    } else {
        match parsed_i64(owners[pos].user.id@) {
            None => OwnerScan::Refused(CheckBotError::OwnerIDParseError),
            Some(id) => if done.contains(id) {
                owner_scan(owners, pos + 1, done)
            } else {
                OwnerScan::Fetch(pos, id)
            },
        }
    }
}

/// The end of a check with outcome `r`.
pub open spec fn finished(s: CheckSummary, r: Result<(), CheckBotError>) -> (CheckSummary, CheckAction) {
    (CheckSummary { stage: CheckStage::Finished, ..s }, CheckAction::Finish(r))
}

/// Going on to the vanity: the early checks, then its resolution.
pub open spec fn enter_vanity(s: CheckSummary, bot: Bot) -> (CheckSummary, CheckAction) {
    match early_error(bot) {
        Some(e) => finished(s, Err(e)),
        None => (CheckSummary { stage: CheckStage::Vanity, ..s }, CheckAction::ResolveVanity(bot.vanity)),
    }
}

/// Going on from an owner scan.
pub open spec fn after_scan(s: CheckSummary, owners: Seq<BotOwner>, pos: int) -> (CheckSummary, CheckAction) {
    match owner_scan(owners, pos, s.done_ids) {
        OwnerScan::Refused(e) => finished(s, Err(e)),
        OwnerScan::Fetch(p, id) => (
            CheckSummary { stage: CheckStage::Owner, owner_pos: p, owner_id: id, ..s },
            CheckAction::FetchUser(id),
        ),
        OwnerScan::Done => finished(
            CheckSummary { owners: s.done_owners, done_owners: Seq::empty(), owner_pos: 0, ..s },
            Ok(()),
        ),
    }
}

/// Going on to the extra owners: at most five, then the scan.
pub open spec fn enter_owners(s: CheckSummary, bot: Bot) -> (CheckSummary, CheckAction) {
    if bot.owners@.len() > 5 {
        finished(s, Err(CheckBotError::OwnerListTooLong))
    } else {
        after_scan(
            CheckSummary { owner_pos: 0, done_owners: Seq::empty(), done_ids: Seq::empty(), ..s },
            bot.owners@,
            0,
        )
    }
}

/// Going on to the page banner.
pub open spec fn enter_page_banner(s: CheckSummary, bot: Bot) -> (CheckSummary, CheckAction) {
    match banner_to_fetch(bot.banner_page) {
        Some(u) => (CheckSummary { stage: CheckStage::BannerPage, ..s }, CheckAction::FetchBanner(u)),
        None => enter_owners(s, bot),
    }
}

/// Going on to the banners, the card banner first.
pub open spec fn enter_banners(s: CheckSummary, bot: Bot) -> (CheckSummary, CheckAction) {
    match banner_to_fetch(bot.banner_card) {
        Some(u) => (CheckSummary { stage: CheckStage::BannerCard, ..s }, CheckAction::FetchBanner(u)),
        None => enter_page_banner(s, bot),
    }
}

/// What the stored bot decides.
pub open spec fn after_existing(c: BotCheck, x: Option<ExistingBot>) -> (CheckSummary, CheckAction) {
    let s = c.summary();
    if c.mode == BotActionMode::Add {
        match x {
            Some(b) => if b.state == State::Denied || b.state == State::Banned {
                finished(s, Err(CheckBotError::BotBannedOrDenied(b.state)))
            } else {
                finished(s, Err(CheckBotError::AlreadyExists))
            },
            None => match application_id(c.bot, c.bot_id) {
                None => finished(s, Err(CheckBotError::BotNotFound)),
                Some(id) => (
                    CheckSummary { stage: CheckStage::ApplicationStatus, ..s },
                    CheckAction::FetchApplication(id),
                ),
            },
        }
    } else if x matches Some(b) && b.client_id@.len() > 0 && b.client_id@ != c.bot.client_id@ {
        finished(s, Err(CheckBotError::ClientIDImmutable))
    } else if blocks_edit(c.bot.flags@) {
        finished(s, Err(CheckBotError::EditLocked))
    } else {
        enter_vanity(s, c.bot)
    }
}

/// What the anti-abuse service's answer decides.
pub open spec fn after_application(c: BotCheck, r: Result<JAPIApplication, String>) -> (CheckSummary, CheckAction) {
    let s = c.summary();
    match r {
        Err(m) => finished(s, Err(CheckBotError::JAPIDeserError(m))),
        Ok(a) => if a.data.bot.id@ != int_decimal(c.bot_id as int) && int_decimal(c.bot_id as int) != c.bot.client_id@ {
            finished(s, Err(CheckBotError::InvalidClientID))
        } else if !a.data.application.bot_public {
            finished(s, Err(CheckBotError::PrivateBot))
        } else {
            enter_vanity(CheckSummary { guild_count: a.data.bot.approximate_guild_count, ..s }, c.bot)
        },
    }
}

/// What the vanity's owner decides, with the content and link checks after it.
pub open spec fn after_vanity(c: BotCheck, target: Option<String>) -> (CheckSummary, CheckAction) {
    let s = c.summary();
    if vanity_taken(c.mode, c.bot.user.id@, target) {
        finished(s, Err(CheckBotError::VanityTaken))
    } else {
        match content_error(c.bot) {
            Some(e) => finished(s, Err(e)),
            None => {
                let s2 = CheckSummary { long_description: cleaned_long_description(c.bot.long_description@), ..s };
                match links_error(link_entries(c.bot.extra_links)) {
                    Some(e) => finished(s2, Err(e)),
                    None => (CheckSummary { stage: CheckStage::BotUser, ..s2 }, CheckAction::FetchUser(c.bot_id)),
                }
            },
        }
    }
}

/// What the bot's own user decides.
pub open spec fn after_bot_user(c: BotCheck, u: User) -> (CheckSummary, CheckAction) {
    let s = c.summary();
    if u.id@.len() == 0 {
        finished(s, Err(CheckBotError::BotNotFound))
    } else if c.bot.tags@.len() > 10 {
        finished(CheckSummary { user: u, ..s }, Err(CheckBotError::TooManyTags))
    } else {
        (CheckSummary { stage: CheckStage::Tags, user: u, ..s }, CheckAction::FetchTags)
    }
}

/// What the list's tags decide.
pub open spec fn after_tags(c: BotCheck, full: Seq<Tag>) -> (CheckSummary, CheckAction) {
    let s = CheckSummary { tags: kept_tags(c.bot.tags@, full), ..c.summary() };
    if s.tags.len() == 0 {
        finished(s, Err(CheckBotError::NoTags))
    } else if c.bot.features@.len() > 5 {
        finished(s, Err(CheckBotError::TooManyFeatures))
    } else if c.bot.features@.len() > 0 {
        (CheckSummary { stage: CheckStage::Features, ..s }, CheckAction::FetchFeatures)
    } else {
        enter_banners(s, c.bot)
    }
}

/// What an extra owner's user decides.
pub open spec fn after_owner(c: BotCheck, u: User) -> (CheckSummary, CheckAction) {
    let s = c.summary();
    if u.id@.len() == 0 {
        finished(s, Err(CheckBotError::OwnerNotFound))
    } else {
        after_scan(
            CheckSummary {
                done_owners: s.done_owners.push(BotOwner { user: u, main: false }),
                done_ids: s.done_ids.push(c.owner_id),
                ..s
            },
            c.bot.owners@,
            c.owner_pos + 1,
        )
    }
}

/// The answer that a check waits for is of the kind of `e`.
pub open spec fn awaits(stage: CheckStage, e: CheckEvent) -> bool {
    match e {
        CheckEvent::Existing(_) => stage == CheckStage::Existing,
        CheckEvent::ApplicationStatus(_) => stage == CheckStage::ApplicationStatus,
        CheckEvent::ApplicationBody(_) => stage == CheckStage::ApplicationBody,
        CheckEvent::Vanity(_) => stage == CheckStage::Vanity,
        CheckEvent::User(_) => stage == CheckStage::BotUser || stage == CheckStage::Owner,
        CheckEvent::Tags(_) => stage == CheckStage::Tags,
        CheckEvent::Features(_) => stage == CheckStage::Features,
        CheckEvent::Banner(_) => stage == CheckStage::BannerCard || stage == CheckStage::BannerPage,
    }
}

/// One step of a check: the new state of what changes, and the next action.
pub open spec fn next_check(c: BotCheck, e: CheckEvent) -> (CheckSummary, CheckAction) {
    let s = c.summary();
    match e {
        CheckEvent::Existing(x) => after_existing(c, x),
        CheckEvent::ApplicationStatus(r) => match r {
            Err(m) => finished(s, Err(CheckBotError::JAPIError(m))),
            Ok(st) => if !is_success(st) {
                finished(s, Err(CheckBotError::ClientIDNeeded))
            } else {
                (CheckSummary { stage: CheckStage::ApplicationBody, ..s }, CheckAction::ReadApplication)
            },
        },
        CheckEvent::ApplicationBody(r) => after_application(c, r),
        CheckEvent::Vanity(t) => after_vanity(c, t),
        CheckEvent::User(u) => if c.stage == CheckStage::BotUser {
            after_bot_user(c, u)
        } else {
            after_owner(c, u)
        },
        CheckEvent::Tags(full) => after_tags(c, full@),
        CheckEvent::Features(full) => enter_banners(
            CheckSummary { features: kept_features(c.bot.features@, full@), ..s },
            c.bot,
        ),
        CheckEvent::Banner(reply) => match banner_verdict(reply) {
            Err(x) => if c.stage == CheckStage::BannerCard {
                finished(s, Err(CheckBotError::BannerCardError(x)))
            } else {
                finished(s, Err(CheckBotError::BannerPageError(x)))
            },
            Ok(_) => if c.stage == CheckStage::BannerCard {
                enter_page_banner(s, c.bot)
            } else {
                enter_owners(s, c.bot)
            },
        },
    }
}

/// The start of a check: the bot's id must be a number.
pub open spec fn start_check(bot: Bot) -> (CheckStage, CheckAction) {
    match parsed_i64(bot.user.id@) {
        None => (CheckStage::Finished, CheckAction::Finish(Err(CheckBotError::BotNotFound))),
        Some(id) => (CheckStage::Existing, CheckAction::FetchExisting(id)),
    }
}

/// An exact copy of a user.
pub fn copy_user(u: &User) -> (r: User)
    ensures
        r == *u,
{
    User {
        id: u.id.clone(),
        username: u.username.clone(),
        disc: u.disc.clone(),
        avatar: u.avatar.clone(),
        bot: u.bot,
        status: u.status,
    }
}

/// An exact copy of a tag.
pub fn copy_tag(t: &Tag) -> (r: Tag)
    ensures
        r == *t,
{
    Tag {
        name: t.name.clone(),
        iconify_data: t.iconify_data.clone(),
        id: t.id.clone(),
        owner_guild: match &t.owner_guild {
            Some(g) => Some(g.clone()),
            None => None,
        },
    }
}

/// An exact copy of a feature.
pub fn copy_feature(f: &Feature) -> (r: Feature)
    ensures
        r == *f,
{
    Feature {
        id: f.id.clone(),
        name: f.name.clone(),
        viewed_as: f.viewed_as.clone(),
        description: f.description.clone(),
    }
}

fn find_tag_id(list: &Vec<Tag>, id: &str) -> (r: bool)
    ensures
        r == has_tag_id(list@, id@),
{
    let mut j: usize = 0;
    while j < list.len()
        invariant
            j <= list@.len(),
            forall|k: int| 0 <= k < j ==> list@[k].id@ != id@,
        decreases list.len() - j,
    {
        if str_eq(list[j].id.as_str(), id) {
            return true;
        }
        j = j + 1;
    }
    false
}

fn find_feature_id(list: &Vec<Feature>, id: &str) -> (r: bool)
    ensures
        r == has_feature_id(list@, id@),
{
    let mut j: usize = 0;
    while j < list.len()
        invariant
            j <= list@.len(),
            forall|k: int| 0 <= k < j ==> list@[k].id@ != id@,
        decreases list.len() - j,
    {
        if str_eq(list[j].id.as_str(), id) {
            return true;
        }
        j = j + 1;
    }
    false
}

/// The tags of `tags` that the list `full` has, the first of each id, in order.
pub fn keep_tags(tags: &Vec<Tag>, full: &Vec<Tag>) -> (r: Vec<Tag>)
    ensures
        r@ == kept_tags(tags@, full@),
{
    let mut out: Vec<Tag> = Vec::new();
    let mut i: usize = 0;
    proof {
        assert(tags@.subrange(0, 0) =~= Seq::<Tag>::empty());
    }
    while i < tags.len()
        invariant
            i <= tags@.len(),
            out@ == kept_tags(tags@.subrange(0, i as int), full@),
        decreases tags.len() - i,
    {
        let t = &tags[i];
        proof {
            let p = tags@.subrange(0, i + 1);
            assert(p.drop_last() =~= tags@.subrange(0, i as int));
            assert(p.last() == tags@[i as int]);
        }
        if find_tag_id(full, t.id.as_str()) && !find_tag_id(&out, t.id.as_str()) {
            out.push(copy_tag(t));
        }
        i = i + 1;
    }
    proof {
        assert(tags@.subrange(0, tags@.len() as int) =~= tags@);
    }
    out
}

/// The features of `features` that the list `full` has, in order.
pub fn keep_features(features: &Vec<Feature>, full: &Vec<Feature>) -> (r: Vec<Feature>)
    ensures
        r@ == kept_features(features@, full@),
{
    let mut out: Vec<Feature> = Vec::new();
    let mut i: usize = 0;
    proof {
        assert(features@.subrange(0, 0) =~= Seq::<Feature>::empty());
    }
    while i < features.len()
        invariant
            i <= features@.len(),
            out@ == kept_features(features@.subrange(0, i as int), full@),
        decreases features.len() - i,
    {
        let f = &features[i];
        proof {
            let p = features@.subrange(0, i + 1);
            assert(p.drop_last() =~= features@.subrange(0, i as int));
            assert(p.last() == features@[i as int]);
        }
        if find_feature_id(full, f.id.as_str()) {
            out.push(copy_feature(f));
        }
        i = i + 1;
    }
    proof {
        assert(features@.subrange(0, features@.len() as int) =~= features@);
    }
    out
}

/// The invite check (see `invite_error`).
pub fn check_invite(invite: &Option<String>) -> (r: Option<CheckBotError>)
    ensures
        r == invite_error(*invite),
{
    match invite {
        None => None,
        Some(i) => {
            if starts_with(i.as_str(), "P:") {
                proof {
                    reveal_strlit("P:");
                    assert(i@[0] == "P:"@[0]);
                    assert(i@[1] == "P:"@[1]);
                    crate::converters::lemma_split_two(i@);
                }
                let pieces = split_char(i.as_str(), ':');
                proof {
                    assert(pieces@.map_values(|p: String| p@)[1] == pieces@[1]@);
                }
                if parse_u64(pieces[1].as_str()).is_some() {
                    None
                } else {
                    Some(CheckBotError::InvalidInvitePermNum)
                }
            } else {
                proof {
                    reveal_strlit("\"");
                }
                let unquoted = replace_all(i.as_str(), "\"", "");
                if !starts_with(unquoted.as_str(), "https://") {
                    Some(CheckBotError::InvalidInvite)
                } else {
                    None
                }
            }
        },
    }
}

/// The early checks (see `early_error`).
pub fn check_early(bot: &Bot) -> (r: Option<CheckBotError>)
    ensures
        r == early_error(*bot),
{
    let prefix_len = match &bot.prefix {
        Some(p) => utf8_len(p.as_str()),
        None => 0,
    };
    proof {
        if bot.prefix is None {
            assert(prefix_text(bot.prefix) =~= Seq::<char>::empty());
            assert(byte_len(Seq::<char>::empty()) == 0);
        }
    }
    if prefix_len > 9 {
        return Some(CheckBotError::PrefixTooLong);
    }
    if utf8_len(bot.vanity.as_str()) < 2 {
        return Some(CheckBotError::NoVanity);
    }
    None
}

/// The content checks (see `content_error`).
pub fn check_content(bot: &Bot) -> (r: Option<CheckBotError>)
    ensures
        r == content_error(*bot),
{
    let inv = check_invite(&bot.invite);
    if inv.is_some() {
        return inv;
    }
    let d = utf8_len(bot.description.as_str());
    if d > 200 || d < 10 {
        return Some(CheckBotError::ShortDescLengthErr);
    }
    if utf8_len(bot.long_description.as_str()) < 200 {
        return Some(CheckBotError::LongDescLengthErr);
    }
    None
}

/// The extra link checks (see `links_error`) over the entries in order.
pub fn check_links(entries: &Vec<(String, String)>) -> (r: Option<CheckBotError>)
    ensures
        r == links_error(pairs_view(entries@)),
{
    let ghost e = pairs_view(entries@);
    let mut total: usize = 0;
    let mut shown: usize = 0;
    let mut i: usize = 0;
    proof {
        assert(e.subrange(0, 0) =~= Seq::<(Seq<char>, Seq<char>)>::empty());
    }
    while i < entries.len()
        invariant
            e == pairs_view(entries@),
            i <= entries@.len(),
            total == i,
            shown <= i,
            first_link_error(e.subrange(0, i as int)) is None,
            shown == shown_links(e.subrange(0, i as int)),
        decreases entries.len() - i,
    {
        let k = entries[i].0.as_str();
        let v = entries[i].1.as_str();
        let ghost p = e.subrange(0, i + 1);
        proof {
            assert(p.drop_last() =~= e.subrange(0, i as int));
            assert(p.last() == e[i as int]);
            assert(e[i as int] == (entries@[i as int].0@, entries@[i as int].1@));
        }
        if utf8_len(k) > 20 {
            proof {
                lemma_first_link_error_prefix(e, i + 1);
            }
            return Some(CheckBotError::ExtraLinkKeyTooLong);
        }
        if utf8_len(v) > 200 {
            proof {
                lemma_first_link_error_prefix(e, i + 1);
            }
            return Some(CheckBotError::ExtraLinkValueTooLong);
        }
        total = total + 1;
        let hidden = k.unicode_len() > 0 && k.get_char(0) == '_';
        if !hidden {
            shown = shown + 1;
            if !starts_with(v, "https://") {
                proof {
                    lemma_first_link_error_prefix(e, i + 1);
                }
                return Some(CheckBotError::ExtraLinkValueNotHTTPS);
            }
        }
        i = i + 1;
    }
    proof {
        assert(e.subrange(0, entries@.len() as int) =~= e);
    }
    if shown > 10 {
        return Some(CheckBotError::ExtraLinksTooManyRendered);
    } else if total > 20 {
        return Some(CheckBotError::ExtraLinksTooMany);
    }
    None
}

/// Once a prefix of the links fails, the first failure of the whole list is that one.
proof fn lemma_first_link_error_prefix(e: Seq<(Seq<char>, Seq<char>)>, j: int)
    requires
        0 <= j <= e.len(),
        first_link_error(e.subrange(0, j)) is Some,
    ensures
        first_link_error(e) == first_link_error(e.subrange(0, j)),
    decreases e.len() - j,
{
    if j < e.len() {
        let p = e.subrange(0, j + 1);
        assert(p.drop_last() =~= e.subrange(0, j));
        lemma_first_link_error_prefix(e, j + 1);
    } else {
        assert(e.subrange(0, j) =~= e);
    }
}

fn edit_blocked(flags: &Vec<i32>) -> (r: bool)
    ensures
        r == blocks_edit(flags@),
{
    let locked = Flags::EditLocked.value();
    let staff = Flags::StaffLocked.value();
    let mut j: usize = 0;
    while j < flags.len()
        invariant
            j <= flags@.len(),
            locked == Flags::EditLocked.code(),
            staff == Flags::StaffLocked.code(),
            forall|k: int| 0 <= k < j ==> flags@[k] != locked && flags@[k] != staff,
        decreases flags.len() - j,
    {
        if flags[j] == locked || flags[j] == staff {
            assert(flags@[j as int] == locked || flags@[j as int] == staff);
            return true;
        }
        j = j + 1;
    }
    false
}

fn contains_id(ids: &Vec<i64>, id: i64) -> (r: bool)
    ensures
        r == ids@.contains(id),
{
    let mut j: usize = 0;
    while j < ids.len()
        invariant
            j <= ids@.len(),
            forall|k: int| 0 <= k < j ==> ids@[k] != id,
        decreases ids.len() - j,
    {
        if ids[j] == id {
            assert(ids@[j as int] == id);
            return true;
        }
        j = j + 1;
    }
    false
}

impl BotCheck {
    /// The facts that hold of a check in every state that `start` and `step`
    /// reach: the scan of the extra owners stays within their list.
    pub open spec fn wf(self) -> bool {
        self.stage == CheckStage::Owner ==> self.owner_pos < self.bot.owners@.len() && self.bot.owners@.len() <= 5
    }

    /// Starts checking `bot`: its id must be a number, then the stored bot is fetched.
    pub fn start(mode: BotActionMode, bot: Bot) -> (r: (BotCheck, CheckAction))
        ensures
            r.0.wf(),
            r.0.mode == mode,
            r.0.bot == bot,
            r.0.owner_pos == 0,
            r.0.done_owners@.len() == 0,
            r.0.done_ids@.len() == 0,
            (r.0.stage, r.1) == start_check(bot),
            start_check(bot).1 matches CheckAction::FetchExisting(id) ==> r.0.bot_id == id,
    {
        let parsed = parse_i64(bot.user.id.as_str());
        let (stage, action, bot_id) = match parsed {
            None => (CheckStage::Finished, CheckAction::Finish(Err(CheckBotError::BotNotFound)), 0),
            Some(id) => (CheckStage::Existing, CheckAction::FetchExisting(id), id),
        };
        (
            BotCheck {
                mode,
                bot,
                bot_id,
                stage,
                owner_pos: 0,
                owner_id: 0,
                done_owners: Vec::new(),
                done_ids: Vec::new(),
            },
            action,
        )
    }

    /// Whether `e` is the kind of answer this check waits for.
    pub fn expects(&self, e: &CheckEvent) -> (r: bool)
        ensures
            r == awaits(self.stage, *e),
    {
        match e {
            CheckEvent::Existing(_) => self.stage == CheckStage::Existing,
            CheckEvent::ApplicationStatus(_) => self.stage == CheckStage::ApplicationStatus,
            CheckEvent::ApplicationBody(_) => self.stage == CheckStage::ApplicationBody,
            CheckEvent::Vanity(_) => self.stage == CheckStage::Vanity,
            CheckEvent::User(_) => self.stage == CheckStage::BotUser || self.stage == CheckStage::Owner,
            CheckEvent::Tags(_) => self.stage == CheckStage::Tags,
            CheckEvent::Features(_) => self.stage == CheckStage::Features,
            CheckEvent::Banner(_) => self.stage == CheckStage::BannerCard || self.stage == CheckStage::BannerPage,
        }
    }

    fn finish(&mut self, r: Result<(), CheckBotError>) -> (a: CheckAction)
        ensures
            (final(self).summary(), a) == finished(old(self).summary(), r),
            final(self).bot == old(self).bot,
            final(self).mode == old(self).mode,
            final(self).bot_id == old(self).bot_id,
    {
        self.stage = CheckStage::Finished;
        CheckAction::Finish(r)
    }

    fn go_vanity(&mut self) -> (a: CheckAction)
        ensures
            (final(self).summary(), a) == enter_vanity(old(self).summary(), old(self).bot),
            final(self).bot == old(self).bot,
            final(self).mode == old(self).mode,
            final(self).bot_id == old(self).bot_id,
    {
        match check_early(&self.bot) {
            Some(e) => self.finish(Err(e)),
            None => {
                self.stage = CheckStage::Vanity;
                CheckAction::ResolveVanity(self.bot.vanity.clone())
            },
        }
    }

    fn scan_owners(&mut self, start: usize) -> (a: CheckAction)
        requires
            start <= old(self).bot.owners@.len(),
            old(self).bot.owners@.len() <= 5,
        ensures
            (final(self).summary(), a) == after_scan(old(self).summary(), old(self).bot.owners@, start as int),
            same_but_checked(old(self).bot, final(self).bot),
            final(self).bot.user == old(self).bot.user,
            final(self).bot.guild_count == old(self).bot.guild_count,
            final(self).bot.long_description == old(self).bot.long_description,
            final(self).bot.tags == old(self).bot.tags,
            final(self).bot.features == old(self).bot.features,
            final(self).mode == old(self).mode,
            final(self).bot_id == old(self).bot_id,
            final(self).wf(),
    {
        let mut pos = start;
        let n = self.bot.owners.len();
        while pos < n
            invariant
                n == self.bot.owners@.len(),
                start <= pos <= n,
                *self == *old(self),
                n <= 5,
                owner_scan(self.bot.owners@, start as int, self.done_ids@) == owner_scan(
                    self.bot.owners@,
                    pos as int,
                    self.done_ids@,
                ),
            decreases n - pos,
        {
            if self.bot.owners[pos].main {
                return self.finish(Err(CheckBotError::MainOwnerAddAttempt));
            }
            match parse_i64(self.bot.owners[pos].user.id.as_str()) {
                None => {
                    return self.finish(Err(CheckBotError::OwnerIDParseError));
                },
                Some(id) => {
                    if contains_id(&self.done_ids, id) {
                        pos = pos + 1;
                    } else {
                        self.stage = CheckStage::Owner;
                        self.owner_pos = pos;
                        self.owner_id = id;
                        return CheckAction::FetchUser(id);
                    }
                },
            }
        }
        let mut done: Vec<BotOwner> = Vec::new();
        std::mem::swap(&mut done, &mut self.done_owners);
        self.bot.owners = done;
        self.owner_pos = 0;
        self.finish(Ok(()))
    }

    fn go_owners(&mut self) -> (a: CheckAction)
        ensures
            (final(self).summary(), a) == enter_owners(old(self).summary(), old(self).bot),
            same_but_checked(old(self).bot, final(self).bot),
            final(self).bot.user == old(self).bot.user,
            final(self).bot.guild_count == old(self).bot.guild_count,
            final(self).bot.long_description == old(self).bot.long_description,
            final(self).bot.tags == old(self).bot.tags,
            final(self).bot.features == old(self).bot.features,
            final(self).mode == old(self).mode,
            final(self).bot_id == old(self).bot_id,
            final(self).wf(),
    {
        if self.bot.owners.len() > 5 {
            return self.finish(Err(CheckBotError::OwnerListTooLong));
        }
        self.owner_pos = 0;
        self.done_owners = Vec::new();
        self.done_ids = Vec::new();
        self.scan_owners(0)
    }

    fn go_page_banner(&mut self) -> (a: CheckAction)
        ensures
            (final(self).summary(), a) == enter_page_banner(old(self).summary(), old(self).bot),
            same_but_checked(old(self).bot, final(self).bot),
            final(self).mode == old(self).mode,
            final(self).bot_id == old(self).bot_id,
            final(self).wf(),
    {
        match &self.bot.banner_page {
            Some(u) => {
                if u.unicode_len() > 0 {
                    self.stage = CheckStage::BannerPage;
                    return CheckAction::FetchBanner(u.clone());
                }
            },
            None => {},
        }
        self.go_owners()
    }

    fn go_banners(&mut self) -> (a: CheckAction)
        ensures
            (final(self).summary(), a) == enter_banners(old(self).summary(), old(self).bot),
            same_but_checked(old(self).bot, final(self).bot),
            final(self).mode == old(self).mode,
            final(self).bot_id == old(self).bot_id,
            final(self).wf(),
    {
        match &self.bot.banner_card {
            Some(u) => {
                if u.unicode_len() > 0 {
                    self.stage = CheckStage::BannerCard;
                    return CheckAction::FetchBanner(u.clone());
                }
            },
            None => {},
        }
        self.go_page_banner()
    }

    fn on_existing(&mut self, x: Option<ExistingBot>) -> (a: CheckAction)
        ensures
            (final(self).summary(), a) == after_existing(*old(self), x),
            same_but_checked(old(self).bot, final(self).bot),
            final(self).mode == old(self).mode,
            final(self).bot_id == old(self).bot_id,
            final(self).wf(),
    {
        match self.mode {
            BotActionMode::Add => match x {
                Some(b) => {
                    if b.state == State::Denied || b.state == State::Banned {
                        self.finish(Err(CheckBotError::BotBannedOrDenied(b.state)))
                    } else {
                        self.finish(Err(CheckBotError::AlreadyExists))
                    }
                },
                None => {
                    let id = if self.bot.client_id.unicode_len() == 0 {
                        Some(self.bot_id)
                    } else {
                        parse_i64(self.bot.client_id.as_str())
                    };
                    match id {
                        None => self.finish(Err(CheckBotError::BotNotFound)),
                        Some(i) => {
                            self.stage = CheckStage::ApplicationStatus;
                            CheckAction::FetchApplication(i)
                        },
                    }
                },
            },
            BotActionMode::Edit => {
                match &x {
                    Some(b) => {
                        if b.client_id.unicode_len() > 0 && !str_eq(b.client_id.as_str(), self.bot.client_id.as_str()) {
                            return self.finish(Err(CheckBotError::ClientIDImmutable));
                        }
                    },
                    None => {},
                }
                if edit_blocked(&self.bot.flags) {
                    return self.finish(Err(CheckBotError::EditLocked));
                }
                self.go_vanity()
            },
        }
    }

    fn on_application(&mut self, r: Result<JAPIApplication, String>) -> (a: CheckAction)
        ensures
            (final(self).summary(), a) == after_application(*old(self), r),
            same_but_checked(old(self).bot, final(self).bot),
            final(self).mode == old(self).mode,
            final(self).bot_id == old(self).bot_id,
            final(self).wf(),
    {
        match r {
            Err(m) => self.finish(Err(CheckBotError::JAPIDeserError(m))),
            Ok(app) => {
                let id_text = i64_to_string(self.bot_id);
                if !str_eq(app.data.bot.id.as_str(), id_text.as_str()) && !str_eq(
                    id_text.as_str(),
                    self.bot.client_id.as_str(),
                ) {
                    return self.finish(Err(CheckBotError::InvalidClientID));
                }
                if !app.data.application.bot_public {
                    return self.finish(Err(CheckBotError::PrivateBot));
                }
                self.bot.guild_count = app.data.bot.approximate_guild_count;
                self.go_vanity()
            },
        }
    }

    fn on_vanity(&mut self, target: Option<String>) -> (a: CheckAction)
        ensures
            (final(self).summary(), a) == after_vanity(*old(self), target),
            same_but_checked(old(self).bot, final(self).bot),
            final(self).mode == old(self).mode,
            final(self).bot_id == old(self).bot_id,
            final(self).wf(),
    {
        let taken = match &target {
            Some(t) => self.mode == BotActionMode::Add || !str_eq(t.as_str(), self.bot.user.id.as_str()),
            None => false,
        };
        if taken {
            return self.finish(Err(CheckBotError::VanityTaken));
        }
        match check_content(&self.bot) {
            Some(e) => {
                return self.finish(Err(e));
            },
            None => {},
        }
        proof {
            reveal_strlit("\\n");
            reveal_strlit("\\r");
        }
        let unescaped = replace_all(self.bot.long_description.as_str(), "\\n", "\n");
        let cleaned = replace_all(unescaped.as_str(), "\\r", "");
        self.bot.long_description = cleaned;
        let entries = links_entries(&self.bot.extra_links);
        match check_links(&entries) {
            Some(e) => self.finish(Err(e)),
            None => {
                self.stage = CheckStage::BotUser;
                CheckAction::FetchUser(self.bot_id)
            },
        }
    }

    fn on_bot_user(&mut self, u: User) -> (a: CheckAction)
        ensures
            (final(self).summary(), a) == after_bot_user(*old(self), u),
            same_but_checked(old(self).bot, final(self).bot),
            final(self).mode == old(self).mode,
            final(self).bot_id == old(self).bot_id,
            final(self).wf(),
    {
        if u.id.unicode_len() == 0 {
            return self.finish(Err(CheckBotError::BotNotFound));
        }
        self.bot.user = u;
        if self.bot.tags.len() > 10 {
            return self.finish(Err(CheckBotError::TooManyTags));
        }
        self.stage = CheckStage::Tags;
        CheckAction::FetchTags
    }

    fn on_tags(&mut self, full: Vec<Tag>) -> (a: CheckAction)
        ensures
            (final(self).summary(), a) == after_tags(*old(self), full@),
            same_but_checked(old(self).bot, final(self).bot),
            final(self).mode == old(self).mode,
            final(self).bot_id == old(self).bot_id,
            final(self).wf(),
    {
        let kept = keep_tags(&self.bot.tags, &full);
        self.bot.tags = kept;
        if self.bot.tags.len() == 0 {
            return self.finish(Err(CheckBotError::NoTags));
        }
        if self.bot.features.len() > 5 {
            return self.finish(Err(CheckBotError::TooManyFeatures));
        }
        if self.bot.features.len() > 0 {
            self.stage = CheckStage::Features;
            return CheckAction::FetchFeatures;
        }
        self.go_banners()
    }

    fn on_owner(&mut self, u: User) -> (a: CheckAction)
        requires
            old(self).wf(),
            old(self).stage == CheckStage::Owner,
        ensures
            (final(self).summary(), a) == after_owner(*old(self), u),
            same_but_checked(old(self).bot, final(self).bot),
            final(self).mode == old(self).mode,
            final(self).bot_id == old(self).bot_id,
            final(self).wf(),
    {
        if u.id.unicode_len() == 0 {
            return self.finish(Err(CheckBotError::OwnerNotFound));
        }
        self.done_owners.push(BotOwner { user: u, main: false });
        self.done_ids.push(self.owner_id);
        self.scan_owners(self.owner_pos + 1)
    }

    /// Hands the check the answer it waits for, and returns what it needs
    /// next or its outcome (see `next_check`); only the user, the guild
    /// count, the long description, the tags, the features and the owners
    /// of the bot change.
    pub fn step(&mut self, event: CheckEvent) -> (a: CheckAction)
        requires
            old(self).wf(),
            awaits(old(self).stage, event),
        ensures
            (final(self).summary(), a) == next_check(*old(self), event),
            same_but_checked(old(self).bot, final(self).bot),
            final(self).mode == old(self).mode,
            final(self).bot_id == old(self).bot_id,
            final(self).wf(),
    {
        match event {
            CheckEvent::Existing(x) => self.on_existing(x),
            CheckEvent::ApplicationStatus(r) => match r {
                Err(m) => self.finish(Err(CheckBotError::JAPIError(m))),
                Ok(st) => {
                    if !(200 <= st && st <= 299) {
                        self.finish(Err(CheckBotError::ClientIDNeeded))
                    } else {
                        self.stage = CheckStage::ApplicationBody;
                        CheckAction::ReadApplication
                    }
                },
            },
            CheckEvent::ApplicationBody(r) => self.on_application(r),
            CheckEvent::Vanity(t) => self.on_vanity(t),
            CheckEvent::User(u) => {
                if self.stage == CheckStage::BotUser {
                    self.on_bot_user(u)
                } else {
                    self.on_owner(u)
                }
            },
            CheckEvent::Tags(full) => self.on_tags(full),
            CheckEvent::Features(full) => {
                let kept = keep_features(&self.bot.features, &full);
                self.bot.features = kept;
                self.go_banners()
            },
            CheckEvent::Banner(reply) => {
                let card = self.stage == CheckStage::BannerCard;
                match judge_banner(reply) {
                    Err(x) => {
                        if card {
                            self.finish(Err(CheckBotError::BannerCardError(x)))
                        } else {
                            self.finish(Err(CheckBotError::BannerPageError(x)))
                        }
                    },
                    Ok(_) => {
                        if card {
                            self.go_page_banner()
                        } else {
                            self.go_owners()
                        }
                    },
                }
            },
        }
    }
}


/// No two tags share an id.
pub open spec fn tag_ids_distinct(tags: Seq<Tag>) -> bool {
    forall|i: int, j: int| 0 <= i < j < tags.len() ==> tags[i].id@ != tags[j].id@
}

/// An accepted extra owner: not the main owner, and found.
pub open spec fn accepted_owner(o: BotOwner) -> bool {
    !o.main && o.user.id@.len() > 0
}

/// What a bot that passes the check holds: one to ten tags of distinct ids,
/// at most five features, and at most five extra owners, each accepted.
pub open spec fn accepted(s: CheckSummary) -> bool {
    &&& 1 <= s.tags.len() <= 10
    &&& tag_ids_distinct(s.tags)
    &&& s.features.len() <= 5
    &&& s.owners.len() <= 5
    &&& forall|i: int| 0 <= i < s.owners.len() ==> accepted_owner(#[trigger] s.owners[i])
}

/// The facts that hold of a check at each stage.
pub open spec fn summary_inv(s: CheckSummary) -> bool {
    &&& s.stage == CheckStage::Tags ==> s.tags.len() <= 10
    &&& (s.stage == CheckStage::Features || s.stage == CheckStage::BannerCard || s.stage == CheckStage::BannerPage
        || s.stage == CheckStage::Owner) ==> 1 <= s.tags.len() <= 10 && tag_ids_distinct(s.tags) && s.features.len() <= 5
    &&& s.stage == CheckStage::Owner ==> {
        &&& 0 <= s.owner_pos < s.owners.len()
        &&& s.owners.len() <= 5
        &&& s.done_owners.len() <= s.owner_pos
        &&& forall|i: int| 0 <= i < s.done_owners.len() ==> accepted_owner(#[trigger] s.done_owners[i])
    }
}

/// The tags kept are at most as many as given, have distinct ids, and each
/// has an id of the list.
pub proof fn lemma_kept_tags(tags: Seq<Tag>, full: Seq<Tag>)
    ensures
        kept_tags(tags, full).len() <= tags.len(),
        tag_ids_distinct(kept_tags(tags, full)),
        forall|i: int| 0 <= i < kept_tags(tags, full).len() ==> has_tag_id(full, #[trigger] kept_tags(tags, full)[i].id@),
    decreases tags.len(),
{
    if tags.len() > 0 {
        lemma_kept_tags(tags.drop_last(), full);
        let prev = kept_tags(tags.drop_last(), full);
        let t = tags.last();
        if has_tag_id(full, t.id@) && !has_tag_id(prev, t.id@) {
            let k = prev.push(t);
            assert forall|i: int, j: int| 0 <= i < j < k.len() implies k[i].id@ != k[j].id@ by {
                if j == prev.len() {
                    assert(k[i] == prev[i]);
                }
            }
            assert forall|i: int| 0 <= i < k.len() implies has_tag_id(full, #[trigger] k[i].id@) by {
                if i < prev.len() {
                    assert(k[i] == prev[i]);
                }
            }
        }
    }
}

/// The features kept are at most as many as given.
pub proof fn lemma_kept_features(features: Seq<Feature>, full: Seq<Feature>)
    ensures
        kept_features(features, full).len() <= features.len(),
    decreases features.len(),
{
    if features.len() > 0 {
        lemma_kept_features(features.drop_last(), full);
    }
}

/// A scan that asks for an owner asks for one at or after `pos`, who is not
/// the main owner.
proof fn lemma_owner_scan(owners: Seq<BotOwner>, pos: int, done: Seq<i64>)
    requires
        0 <= pos,
    ensures
        owner_scan(owners, pos, done) matches OwnerScan::Fetch(p, id) ==> pos <= p < owners.len() && !owners[p].main,
    decreases owners.len() - pos,
{
    if pos < owners.len() && !owners[pos].main {
        if let Some(id) = parsed_i64(owners[pos].user.id@) {
            if done.contains(id) {
                lemma_owner_scan(owners, pos + 1, done);
            }
        }
    }
}

proof fn lemma_after_scan(s: CheckSummary, owners: Seq<BotOwner>, pos: int)
    requires
        s.owners == owners,
        owners.len() <= 5,
        0 <= pos <= owners.len(),
        s.done_owners.len() <= pos,
        forall|i: int| 0 <= i < s.done_owners.len() ==> accepted_owner(#[trigger] s.done_owners[i]),
        1 <= s.tags.len() <= 10,
        tag_ids_distinct(s.tags),
        s.features.len() <= 5,
    ensures
        summary_inv(after_scan(s, owners, pos).0),
        after_scan(s, owners, pos).1 == CheckAction::Finish(Ok(())) ==> accepted(after_scan(s, owners, pos).0),
{
    lemma_owner_scan(owners, pos, s.done_ids);
}

proof fn lemma_enter_owners(s: CheckSummary, bot: Bot)
    requires
        s.owners == bot.owners@,
        1 <= s.tags.len() <= 10,
        tag_ids_distinct(s.tags),
        s.features.len() <= 5,
    ensures
        summary_inv(enter_owners(s, bot).0),
        enter_owners(s, bot).1 == CheckAction::Finish(Ok(())) ==> accepted(enter_owners(s, bot).0),
{
    if bot.owners@.len() <= 5 {
        let s2 = CheckSummary { owner_pos: 0, done_owners: Seq::empty(), done_ids: Seq::empty(), ..s };
        lemma_after_scan(s2, bot.owners@, 0);
    }
}

proof fn lemma_enter_banners(s: CheckSummary, bot: Bot)
    requires
        s.owners == bot.owners@,
        1 <= s.tags.len() <= 10,
        tag_ids_distinct(s.tags),
        s.features.len() <= 5,
    ensures
        summary_inv(enter_banners(s, bot).0),
        enter_banners(s, bot).1 == CheckAction::Finish(Ok(())) ==> accepted(enter_banners(s, bot).0),
        summary_inv(enter_page_banner(s, bot).0),
        enter_page_banner(s, bot).1 == CheckAction::Finish(Ok(())) ==> accepted(enter_page_banner(s, bot).0),
{
    lemma_enter_owners(s, bot);
}

/// Law: every step of a check keeps the facts of `summary_inv`, and a check
/// that finishes with success leaves a bot with one to ten tags of distinct
/// ids, each an id of the list, at most five features and at most five extra
/// owners, none of them the main owner and each found.
pub proof fn lemma_check_step_accepts_only_valid(c: BotCheck, e: CheckEvent)
    requires
        summary_inv(c.summary()),
        awaits(c.stage, e),
    ensures
        summary_inv(next_check(c, e).0),
        next_check(c, e).1 == CheckAction::Finish(Ok(())) ==> accepted(next_check(c, e).0),
        e matches CheckEvent::Tags(full) ==> forall|i: int| 0 <= i < next_check(c, e).0.tags.len()
            ==> has_tag_id(full@, #[trigger] next_check(c, e).0.tags[i].id@),
{
    let s = c.summary();
    match e {
        CheckEvent::Tags(full) => {
            lemma_kept_tags(c.bot.tags@, full@);
            let s2 = CheckSummary { tags: kept_tags(c.bot.tags@, full@), ..s };
            if s2.tags.len() > 0 && c.bot.features@.len() <= 5 && c.bot.features@.len() == 0 {
                lemma_enter_banners(s2, c.bot);
            }
        },
        CheckEvent::Features(full) => {
            lemma_kept_features(c.bot.features@, full@);
            let s2 = CheckSummary { features: kept_features(c.bot.features@, full@), ..s };
            lemma_enter_banners(s2, c.bot);
        },
        CheckEvent::Banner(reply) => {
            if banner_verdict(reply) is Ok {
                lemma_enter_banners(s, c.bot);
            }
        },
        CheckEvent::User(u) => {
            if c.stage == CheckStage::Owner && u.id@.len() > 0 {
                let s2 = CheckSummary {
                    done_owners: s.done_owners.push(BotOwner { user: u, main: false }),
                    done_ids: s.done_ids.push(c.owner_id),
                    ..s
                };
                assert forall|i: int| 0 <= i < s2.done_owners.len() implies accepted_owner(#[trigger] s2.done_owners[i]) by {
                    if i < s.done_owners.len() {
                        assert(s2.done_owners[i] == s.done_owners[i]);
                    }
                }
                lemma_after_scan(s2, c.bot.owners@, c.owner_pos + 1);
            }
        },
        _ => {},
    }
}

/// Law: a new check starts in a state that has the facts of `summary_inv`.
pub proof fn lemma_start_inv(c: BotCheck)
    requires
        c.stage == CheckStage::Existing || c.stage == CheckStage::Finished,
    ensures
        summary_inv(c.summary()),
{
}

/// Law: owners cannot edit a locked bot. In edit mode, once the stored bot
/// raises no client id objection, a bot whose flags hold the edit lock (1) or
/// the staff lock (2) ends its check with `EditLocked`, and a bot with
/// neither flag is never refused with `EditLocked` at that step.
pub proof fn lemma_locked_bot_not_edited(c: BotCheck, x: Option<ExistingBot>)
    requires
        c.mode == BotActionMode::Edit,
        !(x matches Some(b) && b.client_id@.len() > 0 && b.client_id@ != c.bot.client_id@),
    ensures
        c.bot.flags@.contains(1i32) || c.bot.flags@.contains(2i32) ==> next_check(c, CheckEvent::Existing(x)).1
            == CheckAction::Finish(Err(CheckBotError::EditLocked)),
        !c.bot.flags@.contains(1i32) && !c.bot.flags@.contains(2i32) ==> next_check(c, CheckEvent::Existing(x)).1
            != CheckAction::Finish(Err(CheckBotError::EditLocked)),
{
    if !c.bot.flags@.contains(1i32) && !c.bot.flags@.contains(2i32) {
        match early_error(c.bot) {
            Some(e) => {
                assert(e != CheckBotError::EditLocked);
            },
            None => {},
        }
    }
}

} // verus!
