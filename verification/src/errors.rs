//! The error kinds of the API and the answers built from them.
use crate::enums::State;
use crate::models::APIResponse;
use crate::text::{int_decimal, i64_to_string, push_char};
use vstd::prelude::*;
use vstd::string::*;

verus! {

/// The plain view of an optional string.
pub open spec fn opt_view(o: Option<String>) -> Option<Seq<char>> {
    match o {
        Some(s) => Some(s@),
        None => None,
    }
}

/// The text of an optional string, empty when there is none.
pub open spec fn text_or_empty(o: Option<Seq<char>>) -> Seq<char> {
    match o {
        Some(s) => s,
        None => Seq::empty(),
    }
}

/// An error that an API answer can report: a name (the kind of failure) and
/// an optional context (the detail).
pub trait APIError {
    /// The name that `name` returns.
    spec fn name_text(&self) -> Seq<char>;

    /// The context that `context` returns.
    spec fn context_text(&self) -> Option<Seq<char>>;

    /// The kind of failure.
    fn name(&self) -> (r: String)
        ensures
            r@ == self.name_text(),
    ;

    /// The detail of the failure, if any.
    fn context(&self) -> (r: Option<String>)
        ensures
            opt_view(r) == self.context_text(),
    ;

    /// The name, `": "` and the context (empty when there is none).
    fn error(&self) -> (r: String)
        ensures
            r@ == self.name_text() + ": "@ + text_or_empty(self.context_text()),
    {
        let mut s = self.name();
        s.append(": ");
        match self.context() {
            Some(c) => s.append(c.as_str()),
            None => {},
        }
        s
    }
}

/// Why a profile update was refused.
#[derive(Clone, Debug, PartialEq, Eq)]
pub enum ProfileCheckError {
    SQLError(String),
    InvalidFlag(i32),
}

impl APIError for ProfileCheckError {
    open spec fn name_text(&self) -> Seq<char> {
        match self {
            ProfileCheckError::SQLError(..) => "\"SQLError\""@,
            ProfileCheckError::InvalidFlag(..) => "\"InvalidFlag\""@,
        }
    }

    open spec fn context_text(&self) -> Option<Seq<char>> {
        match self {
            ProfileCheckError::SQLError(x) => Some(x@),
            ProfileCheckError::InvalidFlag(x) => Some(int_decimal(*x as int)),
        }
    }

    fn name(&self) -> (r: String) {
        match self {
            ProfileCheckError::SQLError(..) => String::from_str("\"SQLError\""),
            ProfileCheckError::InvalidFlag(..) => String::from_str("\"InvalidFlag\""),
        }
    }

    fn context(&self) -> (r: Option<String>) {
        match self {
            ProfileCheckError::SQLError(x) => Some(x.clone()),
            ProfileCheckError::InvalidFlag(x) => Some(i64_to_string(*x as i64)),
        }
    }
}

/// Why the developer roles of a user could not be updated.
#[derive(Clone, Debug, PartialEq, Eq)]
pub enum ProfileRolesUpdate {
    SQLError(String),
    MemberNotFound,
    DiscordError(String),
}

impl APIError for ProfileRolesUpdate {
    open spec fn name_text(&self) -> Seq<char> {
        match self {
            ProfileRolesUpdate::SQLError(..) => "\"SQLError\""@,
            ProfileRolesUpdate::MemberNotFound => "\"MemberNotFound\""@,
            ProfileRolesUpdate::DiscordError(..) => "\"DiscordError\""@,
        }
    }

    open spec fn context_text(&self) -> Option<Seq<char>> {
        match self {
            ProfileRolesUpdate::SQLError(x) => Some(x@),
            ProfileRolesUpdate::MemberNotFound => None,
            ProfileRolesUpdate::DiscordError(x) => Some(x@),
        }
    }

    fn name(&self) -> (r: String) {
        match self {
            ProfileRolesUpdate::SQLError(..) => String::from_str("\"SQLError\""),
            ProfileRolesUpdate::MemberNotFound => String::from_str("\"MemberNotFound\""),
            ProfileRolesUpdate::DiscordError(..) => String::from_str("\"DiscordError\""),
        }
    }

    fn context(&self) -> (r: Option<String>) {
        match self {
            ProfileRolesUpdate::SQLError(x) => Some(x.clone()),
            ProfileRolesUpdate::MemberNotFound => None,
            ProfileRolesUpdate::DiscordError(x) => Some(x.clone()),
        }
    }
}

/// A failure that many routes share.
#[derive(Clone, Debug, PartialEq, Eq)]
pub enum GenericError {
    Forbidden,
    NotFound,
    InvalidFields,
    SQLError(String),
    APIBan(String),
}

impl APIError for GenericError {
    open spec fn name_text(&self) -> Seq<char> {
        match self {
            GenericError::Forbidden => "\"Forbidden\""@,
            GenericError::NotFound => "\"NotFound\""@,
            GenericError::InvalidFields => "\"InvalidFields\""@,
            GenericError::SQLError(..) => "\"SQLError\""@,
            GenericError::APIBan(..) => "\"APIBan\""@,
        }
    }

    open spec fn context_text(&self) -> Option<Seq<char>> {
        match self {
            GenericError::Forbidden => None,
            GenericError::NotFound => None,
            GenericError::InvalidFields => None,
            GenericError::SQLError(x) => Some(x@),
            GenericError::APIBan(x) => Some(x@),
        }
    }

    fn name(&self) -> (r: String) {
        match self {
            GenericError::Forbidden => String::from_str("\"Forbidden\""),
            GenericError::NotFound => String::from_str("\"NotFound\""),
            GenericError::InvalidFields => String::from_str("\"InvalidFields\""),
            GenericError::SQLError(..) => String::from_str("\"SQLError\""),
            GenericError::APIBan(..) => String::from_str("\"APIBan\""),
        }
    }

    fn context(&self) -> (r: Option<String>) {
        match self {
            GenericError::Forbidden => None,
            GenericError::NotFound => None,
            GenericError::InvalidFields => None,
            GenericError::SQLError(x) => Some(x.clone()),
            GenericError::APIBan(x) => Some(x.clone()),
        }
    }
}

/// Why no invite to a server was handed out.
#[derive(Clone, Debug, PartialEq, Eq)]
pub enum GuildInviteError {
    SQLError(String),
    LoginRequired,
    NotAcceptingInvites,
    WhitelistRequired(String),
    Blacklisted,
    StaffReview,
    ServerBanned,
    NoChannelFound,
    RequestError(String),
}

impl APIError for GuildInviteError {
    open spec fn name_text(&self) -> Seq<char> {
        match self {
            GuildInviteError::SQLError(..) => "\"SQLError\""@,
            GuildInviteError::LoginRequired => "\"LoginRequired\""@,
            GuildInviteError::NotAcceptingInvites => "\"NotAcceptingInvites\""@,
            GuildInviteError::WhitelistRequired(..) => "\"WhitelistRequired\""@,
            GuildInviteError::Blacklisted => "\"Blacklisted\""@,
            GuildInviteError::StaffReview => "\"StaffReview\""@,
            GuildInviteError::ServerBanned => "\"ServerBanned\""@,
            GuildInviteError::NoChannelFound => "\"NoChannelFound\""@,
            GuildInviteError::RequestError(..) => "\"RequestError\""@,
        }
    }

    open spec fn context_text(&self) -> Option<Seq<char>> {
        match self {
            GuildInviteError::SQLError(x) => Some(x@),
            GuildInviteError::LoginRequired => None,
            GuildInviteError::NotAcceptingInvites => None,
            GuildInviteError::WhitelistRequired(x) => Some(x@),
            GuildInviteError::Blacklisted => None,
            GuildInviteError::StaffReview => None,
            GuildInviteError::ServerBanned => None,
            GuildInviteError::NoChannelFound => None,
            GuildInviteError::RequestError(x) => None,
        }
    }

    fn name(&self) -> (r: String) {
        match self {
            GuildInviteError::SQLError(..) => String::from_str("\"SQLError\""),
            GuildInviteError::LoginRequired => String::from_str("\"LoginRequired\""),
            GuildInviteError::NotAcceptingInvites => String::from_str("\"NotAcceptingInvites\""),
            GuildInviteError::WhitelistRequired(..) => String::from_str("\"WhitelistRequired\""),
            GuildInviteError::Blacklisted => String::from_str("\"Blacklisted\""),
            GuildInviteError::StaffReview => String::from_str("\"StaffReview\""),
            GuildInviteError::ServerBanned => String::from_str("\"ServerBanned\""),
            GuildInviteError::NoChannelFound => String::from_str("\"NoChannelFound\""),
            GuildInviteError::RequestError(..) => String::from_str("\"RequestError\""),
        }
    }

    fn context(&self) -> (r: Option<String>) {
        match self {
            GuildInviteError::SQLError(x) => Some(x.clone()),
            GuildInviteError::LoginRequired => None,
            GuildInviteError::NotAcceptingInvites => None,
            GuildInviteError::WhitelistRequired(x) => Some(x.clone()),
            GuildInviteError::Blacklisted => None,
            GuildInviteError::StaffReview => None,
            GuildInviteError::ServerBanned => None,
            GuildInviteError::NoChannelFound => None,
            GuildInviteError::RequestError(x) => None,
        }
    }
}

/// Why a login through Discord failed.
#[derive(Clone, Debug, PartialEq, Eq)]
pub enum OauthError {
    BadExchange(String),
    BadExchangeJson(String),
    NonceTooOld,
    NoUser(String),
    SQLError(String),
}

impl APIError for OauthError {
    open spec fn name_text(&self) -> Seq<char> {
        match self {
            OauthError::BadExchange(..) => "\"BadExchange\""@,
            OauthError::BadExchangeJson(..) => "\"BadExchangeJson\""@,
            OauthError::NonceTooOld => "\"NonceTooOld\""@,
            OauthError::NoUser(..) => "\"NoUser\""@,
            OauthError::SQLError(..) => "\"SQLError\""@,
        }
    }

    open spec fn context_text(&self) -> Option<Seq<char>> {
        match self {
            OauthError::BadExchange(x) => Some(x@),
            OauthError::BadExchangeJson(x) => Some(x@),
            OauthError::NonceTooOld => None,
            OauthError::NoUser(x) => Some(x@),
            OauthError::SQLError(x) => Some(x@),
        }
    }

    fn name(&self) -> (r: String) {
        match self {
            OauthError::BadExchange(..) => String::from_str("\"BadExchange\""),
            OauthError::BadExchangeJson(..) => String::from_str("\"BadExchangeJson\""),
            OauthError::NonceTooOld => String::from_str("\"NonceTooOld\""),
            OauthError::NoUser(..) => String::from_str("\"NoUser\""),
            OauthError::SQLError(..) => String::from_str("\"SQLError\""),
        }
    }

    fn context(&self) -> (r: Option<String>) {
        match self {
            OauthError::BadExchange(x) => Some(x.clone()),
            OauthError::BadExchangeJson(x) => Some(x.clone()),
            OauthError::NonceTooOld => None,
            OauthError::NoUser(x) => Some(x.clone()),
            OauthError::SQLError(x) => Some(x.clone()),
        }
    }
}

/// Why a request to staff was refused.
#[derive(Clone, Debug, PartialEq, Eq)]
pub enum AppealError {
    TextError,
    BotNotApproved,
    NoBannerCard,
    NoBannerPage,
    TooFewGuilds,
    TooFewMembers,
}

impl APIError for AppealError {
    open spec fn name_text(&self) -> Seq<char> {
        match self {
            AppealError::TextError => "\"TextError\""@,
            AppealError::BotNotApproved => "\"BotNotApproved\""@,
            AppealError::NoBannerCard => "\"NoBannerCard\""@,
            AppealError::NoBannerPage => "\"NoBannerPage\""@,
            AppealError::TooFewGuilds => "\"TooFewGuilds\""@,
            AppealError::TooFewMembers => "\"TooFewMembers\""@,
        }
    }

    open spec fn context_text(&self) -> Option<Seq<char>> {
        match self {
            AppealError::TextError => None,
            AppealError::BotNotApproved => None,
            AppealError::NoBannerCard => None,
            AppealError::NoBannerPage => None,
            AppealError::TooFewGuilds => None,
            AppealError::TooFewMembers => None,
        }
    }

    fn name(&self) -> (r: String) {
        match self {
            AppealError::TextError => String::from_str("\"TextError\""),
            AppealError::BotNotApproved => String::from_str("\"BotNotApproved\""),
            AppealError::NoBannerCard => String::from_str("\"NoBannerCard\""),
            AppealError::NoBannerPage => String::from_str("\"NoBannerPage\""),
            AppealError::TooFewGuilds => String::from_str("\"TooFewGuilds\""),
            AppealError::TooFewMembers => String::from_str("\"TooFewMembers\""),
        }
    }

    fn context(&self) -> (r: Option<String>) {
        match self {
            AppealError::TextError => None,
            AppealError::BotNotApproved => None,
            AppealError::NoBannerCard => None,
            AppealError::NoBannerPage => None,
            AppealError::TooFewGuilds => None,
            AppealError::TooFewMembers => None,
        }
    }
}

/// Why a bot was refused when it was added, edited or moved.
#[derive(Clone, Debug, PartialEq, Eq)]
pub enum CheckBotError {
    AlreadyExists,
    BotBannedOrDenied(State),
    ClientIDImmutable,
    PrefixTooLong,
    NoVanity,
    VanityTaken,
    InvalidInvitePermNum,
    InvalidInvite,
    ShortDescLengthErr,
    LongDescLengthErr,
    BotNotFound,
    NoTags,
    TooManyTags,
    TooManyFeatures,
    BannerCardError(BannerCheckError),
    BannerPageError(BannerCheckError),
    JAPIError(String),
    JAPIDeserError(String),
    ClientIDNeeded,
    InvalidClientID,
    PrivateBot,
    EditLocked,
    OwnerListTooLong,
    OwnerIDParseError,
    OwnerNotFound,
    MainOwnerAddAttempt,
    Forbidden,
    ExtraLinkKeyTooLong,
    ExtraLinkValueTooLong,
    ExtraLinkValueNotHTTPS,
    ExtraLinksTooManyRendered,
    ExtraLinksTooMany,
    NotMainOwner,
}

impl APIError for CheckBotError {
    open spec fn name_text(&self) -> Seq<char> {
        match self {
            CheckBotError::AlreadyExists => "CheckBotError.\"AlreadyExists\""@,
            CheckBotError::BotBannedOrDenied(..) => "CheckBotError.\"BotBannedOrDenied\""@,
            CheckBotError::ClientIDImmutable => "CheckBotError.\"ClientIDImmutable\""@,
            CheckBotError::PrefixTooLong => "CheckBotError.\"PrefixTooLong\""@,
            CheckBotError::NoVanity => "CheckBotError.\"NoVanity\""@,
            CheckBotError::VanityTaken => "CheckBotError.\"VanityTaken\""@,
            CheckBotError::InvalidInvitePermNum => "CheckBotError.\"InvalidInvitePermNum\""@,
            CheckBotError::InvalidInvite => "CheckBotError.\"InvalidInvite\""@,
            CheckBotError::ShortDescLengthErr => "CheckBotError.\"ShortDescLengthErr\""@,
            CheckBotError::LongDescLengthErr => "CheckBotError.\"LongDescLengthErr\""@,
            CheckBotError::BotNotFound => "CheckBotError.\"BotNotFound\""@,
            CheckBotError::NoTags => "CheckBotError.\"NoTags\""@,
            CheckBotError::TooManyTags => "CheckBotError.\"TooManyTags\""@,
            CheckBotError::TooManyFeatures => "CheckBotError.\"TooManyFeatures\""@,
            CheckBotError::BannerCardError(..) => "CheckBotError.\"BannerCardError\""@,
            CheckBotError::BannerPageError(..) => "CheckBotError.\"BannerPageError\""@,
            CheckBotError::JAPIError(..) => "CheckBotError.\"JAPIError\""@,
            CheckBotError::JAPIDeserError(..) => "CheckBotError.\"JAPIDeserError\""@,
            CheckBotError::ClientIDNeeded => "CheckBotError.\"ClientIDNeeded\""@,
            CheckBotError::InvalidClientID => "CheckBotError.\"InvalidClientID\""@,
            CheckBotError::PrivateBot => "CheckBotError.\"PrivateBot\""@,
            CheckBotError::EditLocked => "CheckBotError.\"EditLocked\""@,
            CheckBotError::OwnerListTooLong => "CheckBotError.\"OwnerListTooLong\""@,
            CheckBotError::OwnerIDParseError => "CheckBotError.\"OwnerIDParseError\""@,
            CheckBotError::OwnerNotFound => "CheckBotError.\"OwnerNotFound\""@,
            CheckBotError::MainOwnerAddAttempt => "CheckBotError.\"MainOwnerAddAttempt\""@,
            CheckBotError::Forbidden => "CheckBotError.\"Forbidden\""@,
            CheckBotError::ExtraLinkKeyTooLong => "CheckBotError.\"ExtraLinkKeyTooLong\""@,
            CheckBotError::ExtraLinkValueTooLong => "CheckBotError.\"ExtraLinkValueTooLong\""@,
            CheckBotError::ExtraLinkValueNotHTTPS => "CheckBotError.\"ExtraLinkValueNotHTTPS\""@,
            CheckBotError::ExtraLinksTooManyRendered => "CheckBotError.\"ExtraLinksTooManyRendered\""@,
            CheckBotError::ExtraLinksTooMany => "CheckBotError.\"ExtraLinksTooMany\""@,
            CheckBotError::NotMainOwner => "CheckBotError.\"NotMainOwner\""@,
        }
    }

    open spec fn context_text(&self) -> Option<Seq<char>> {
        match self {
            CheckBotError::AlreadyExists => None,
            CheckBotError::BotBannedOrDenied(x) => Some(int_decimal(x.code() as int)),
            CheckBotError::ClientIDImmutable => None,
            CheckBotError::PrefixTooLong => None,
            CheckBotError::NoVanity => None,
            CheckBotError::VanityTaken => None,
            CheckBotError::InvalidInvitePermNum => None,
            CheckBotError::InvalidInvite => None,
            CheckBotError::ShortDescLengthErr => None,
            CheckBotError::LongDescLengthErr => None,
            CheckBotError::BotNotFound => None,
            CheckBotError::NoTags => None,
            CheckBotError::TooManyTags => None,
            CheckBotError::TooManyFeatures => None,
            CheckBotError::BannerCardError(x) => Some(x.text()),
            CheckBotError::BannerPageError(x) => Some(x.text()),
            CheckBotError::JAPIError(x) => Some(x@),
            CheckBotError::JAPIDeserError(x) => Some(x@),
            CheckBotError::ClientIDNeeded => None,
            CheckBotError::InvalidClientID => None,
            CheckBotError::PrivateBot => None,
            CheckBotError::EditLocked => None,
            CheckBotError::OwnerListTooLong => None,
            CheckBotError::OwnerIDParseError => None,
            CheckBotError::OwnerNotFound => None,
            CheckBotError::MainOwnerAddAttempt => None,
            CheckBotError::Forbidden => None,
            CheckBotError::ExtraLinkKeyTooLong => None,
            CheckBotError::ExtraLinkValueTooLong => None,
            CheckBotError::ExtraLinkValueNotHTTPS => None,
            CheckBotError::ExtraLinksTooManyRendered => None,
            CheckBotError::ExtraLinksTooMany => None,
            CheckBotError::NotMainOwner => None,
        }
    }

    fn name(&self) -> (r: String) {
        match self {
            CheckBotError::AlreadyExists => String::from_str("CheckBotError.\"AlreadyExists\""),
            CheckBotError::BotBannedOrDenied(..) => String::from_str("CheckBotError.\"BotBannedOrDenied\""),
            CheckBotError::ClientIDImmutable => String::from_str("CheckBotError.\"ClientIDImmutable\""),
            CheckBotError::PrefixTooLong => String::from_str("CheckBotError.\"PrefixTooLong\""),
            CheckBotError::NoVanity => String::from_str("CheckBotError.\"NoVanity\""),
            CheckBotError::VanityTaken => String::from_str("CheckBotError.\"VanityTaken\""),
            CheckBotError::InvalidInvitePermNum => String::from_str("CheckBotError.\"InvalidInvitePermNum\""),
            CheckBotError::InvalidInvite => String::from_str("CheckBotError.\"InvalidInvite\""),
            CheckBotError::ShortDescLengthErr => String::from_str("CheckBotError.\"ShortDescLengthErr\""),
            CheckBotError::LongDescLengthErr => String::from_str("CheckBotError.\"LongDescLengthErr\""),
            CheckBotError::BotNotFound => String::from_str("CheckBotError.\"BotNotFound\""),
            CheckBotError::NoTags => String::from_str("CheckBotError.\"NoTags\""),
            CheckBotError::TooManyTags => String::from_str("CheckBotError.\"TooManyTags\""),
            CheckBotError::TooManyFeatures => String::from_str("CheckBotError.\"TooManyFeatures\""),
            CheckBotError::BannerCardError(..) => String::from_str("CheckBotError.\"BannerCardError\""),
            CheckBotError::BannerPageError(..) => String::from_str("CheckBotError.\"BannerPageError\""),
            CheckBotError::JAPIError(..) => String::from_str("CheckBotError.\"JAPIError\""),
            CheckBotError::JAPIDeserError(..) => String::from_str("CheckBotError.\"JAPIDeserError\""),
            CheckBotError::ClientIDNeeded => String::from_str("CheckBotError.\"ClientIDNeeded\""),
            CheckBotError::InvalidClientID => String::from_str("CheckBotError.\"InvalidClientID\""),
            CheckBotError::PrivateBot => String::from_str("CheckBotError.\"PrivateBot\""),
            CheckBotError::EditLocked => String::from_str("CheckBotError.\"EditLocked\""),
            CheckBotError::OwnerListTooLong => String::from_str("CheckBotError.\"OwnerListTooLong\""),
            CheckBotError::OwnerIDParseError => String::from_str("CheckBotError.\"OwnerIDParseError\""),
            CheckBotError::OwnerNotFound => String::from_str("CheckBotError.\"OwnerNotFound\""),
            CheckBotError::MainOwnerAddAttempt => String::from_str("CheckBotError.\"MainOwnerAddAttempt\""),
            CheckBotError::Forbidden => String::from_str("CheckBotError.\"Forbidden\""),
            CheckBotError::ExtraLinkKeyTooLong => String::from_str("CheckBotError.\"ExtraLinkKeyTooLong\""),
            CheckBotError::ExtraLinkValueTooLong => String::from_str("CheckBotError.\"ExtraLinkValueTooLong\""),
            CheckBotError::ExtraLinkValueNotHTTPS => String::from_str("CheckBotError.\"ExtraLinkValueNotHTTPS\""),
            CheckBotError::ExtraLinksTooManyRendered => String::from_str("CheckBotError.\"ExtraLinksTooManyRendered\""),
            CheckBotError::ExtraLinksTooMany => String::from_str("CheckBotError.\"ExtraLinksTooMany\""),
            CheckBotError::NotMainOwner => String::from_str("CheckBotError.\"NotMainOwner\""),
        }
    }

    fn context(&self) -> (r: Option<String>) {
        match self {
            CheckBotError::AlreadyExists => None,
            CheckBotError::BotBannedOrDenied(x) => Some(i64_to_string(x.value() as i64)),
            CheckBotError::ClientIDImmutable => None,
            CheckBotError::PrefixTooLong => None,
            CheckBotError::NoVanity => None,
            CheckBotError::VanityTaken => None,
            CheckBotError::InvalidInvitePermNum => None,
            CheckBotError::InvalidInvite => None,
            CheckBotError::ShortDescLengthErr => None,
            CheckBotError::LongDescLengthErr => None,
            CheckBotError::BotNotFound => None,
            CheckBotError::NoTags => None,
            CheckBotError::TooManyTags => None,
            CheckBotError::TooManyFeatures => None,
            CheckBotError::BannerCardError(x) => Some(x.to_string()),
            CheckBotError::BannerPageError(x) => Some(x.to_string()),
            CheckBotError::JAPIError(x) => Some(x.clone()),
            CheckBotError::JAPIDeserError(x) => Some(x.clone()),
            CheckBotError::ClientIDNeeded => None,
            CheckBotError::InvalidClientID => None,
            CheckBotError::PrivateBot => None,
            CheckBotError::EditLocked => None,
            CheckBotError::OwnerListTooLong => None,
            CheckBotError::OwnerIDParseError => None,
            CheckBotError::OwnerNotFound => None,
            CheckBotError::MainOwnerAddAttempt => None,
            CheckBotError::Forbidden => None,
            CheckBotError::ExtraLinkKeyTooLong => None,
            CheckBotError::ExtraLinkValueTooLong => None,
            CheckBotError::ExtraLinkValueNotHTTPS => None,
            CheckBotError::ExtraLinksTooManyRendered => None,
            CheckBotError::ExtraLinksTooMany => None,
            CheckBotError::NotMainOwner => None,
        }
    }
}

/// Why a vote was refused.
#[derive(Clone, Debug, PartialEq, Eq)]
pub enum VoteBotError {
    Wait(String),
    UnknownError(String),
    SQLError(String),
    AutoroleError,
    System,
}

impl APIError for VoteBotError {
    open spec fn name_text(&self) -> Seq<char> {
        match self {
            VoteBotError::Wait(..) => "VoteBotError.\"Wait\""@,
            VoteBotError::UnknownError(..) => "VoteBotError.\"UnknownError\""@,
            VoteBotError::SQLError(..) => "SQLError"@,
            VoteBotError::AutoroleError => "VoteBotError.\"AutoroleError\""@,
            VoteBotError::System => "VoteBotError.\"System\""@,
        }
    }

    open spec fn context_text(&self) -> Option<Seq<char>> {
        match self {
            VoteBotError::Wait(x) => Some("Please wait "@ + x@ + "!"@),
            VoteBotError::UnknownError(x) => Some(x@),
            VoteBotError::SQLError(x) => Some(x@),
            VoteBotError::AutoroleError => None,
            VoteBotError::System => None,
        }
    }

    fn name(&self) -> (r: String) {
        match self {
            VoteBotError::Wait(..) => String::from_str("VoteBotError.\"Wait\""),
            VoteBotError::UnknownError(..) => String::from_str("VoteBotError.\"UnknownError\""),
            VoteBotError::SQLError(..) => String::from_str("SQLError"),
            VoteBotError::AutoroleError => String::from_str("VoteBotError.\"AutoroleError\""),
            VoteBotError::System => String::from_str("VoteBotError.\"System\""),
        }
    }

    fn context(&self) -> (r: Option<String>) {
        match self {
            VoteBotError::Wait(x) => Some(please_wait(x)),
            VoteBotError::UnknownError(x) => Some(x.clone()),
            VoteBotError::SQLError(x) => Some(x.clone()),
            VoteBotError::AutoroleError => None,
            VoteBotError::System => None,
        }
    }
}
/// `"Please wait "`, the text, then `"!"`.
fn please_wait(x: &String) -> (r: String)
    ensures
        r@ == "Please wait "@ + x@ + "!"@,
{
    let mut s = String::from_str("Please wait ");
    s.append(x.as_str());
    s.append("!");
    s
}

/// Why a banner image was refused.
#[derive(Clone, Debug, PartialEq, Eq)]
pub enum BannerCheckError {
    BadURL(String),
    StatusError(String),
    BadContentType(String),
}

impl BannerCheckError {
    /// The message that `to_string` returns.
    pub open spec fn text(self) -> Seq<char> {
        match self {
            BannerCheckError::BadURL(e) => "Bad banner url: "@ + e@,
            BannerCheckError::StatusError(s) => "Got status code: "@ + s@ + " when requesting this banner"@,
            BannerCheckError::BadContentType(s) => "Got invalid content type: "@ + s@
                + " when requesting this banner"@,
        }
    }

    /// The message shown to the user.
    pub fn to_string(&self) -> (r: String)
        ensures
            r@ == self.text(),
    {
        match self {
            BannerCheckError::BadURL(e) => String::from_str("Bad banner url: ").concat(e.as_str()),
            BannerCheckError::StatusError(s) => String::from_str("Got status code: ").concat(s.as_str()).concat(
                " when requesting this banner",
            ),
            BannerCheckError::BadContentType(s) => String::from_str("Got invalid content type: ").concat(
                s.as_str(),
            ).concat(" when requesting this banner"),
        }
    }
}

/// Why a bot pack was refused.
#[derive(Clone, Debug, PartialEq, Eq)]
pub enum PackCheckError {
    TooManyBots,
    InvalidBotId,
    TooFewBots,
    InvalidIcon,
    InvalidBanner,
    SQLError(String),
    InvalidPackId,
    DescriptionTooShort,
}

impl PackCheckError {
    /// The message that `to_string` returns.
    pub open spec fn text(self) -> Seq<char> {
        match self {
            PackCheckError::TooManyBots => "You cannot have more than 7 bots in a pack"@,
            PackCheckError::InvalidBotId => "One of your bot IDs is invalid"@,
            PackCheckError::TooFewBots => "You must have at least 2 bots in a pack. Recheck the Bot IDs?"@,
            PackCheckError::InvalidIcon => "Your icon must start with https://"@,
            PackCheckError::InvalidBanner => "Your icon must start with https://"@,
            PackCheckError::SQLError(e) => "SQL error: "@ + e@,
            PackCheckError::InvalidPackId => "Your pack ID is invalid. This error should *never* be seen"@,
            PackCheckError::DescriptionTooShort => "Your description must be at least 10 characters long"@,
        }
    }

    /// The message shown to the user.
    pub fn to_string(&self) -> (r: String)
        ensures
            r@ == self.text(),
    {
        match self {
            PackCheckError::TooManyBots => String::from_str("You cannot have more than 7 bots in a pack"),
            PackCheckError::InvalidBotId => String::from_str("One of your bot IDs is invalid"),
            PackCheckError::TooFewBots => String::from_str(
                "You must have at least 2 bots in a pack. Recheck the Bot IDs?",
            ),
            PackCheckError::InvalidIcon => String::from_str("Your icon must start with https://"),
            PackCheckError::InvalidBanner => String::from_str("Your icon must start with https://"),
            PackCheckError::SQLError(e) => String::from_str("SQL error: ").concat(e.as_str()),
            PackCheckError::InvalidPackId => String::from_str(
                "Your pack ID is invalid. This error should *never* be seen",
            ),
            PackCheckError::DescriptionTooShort => String::from_str(
                "Your description must be at least 10 characters long",
            ),
        }
    }
}

/// Why posted statistics were refused.
#[derive(Clone, Debug, PartialEq, Eq)]
pub enum StatsError {
    BadStats(String),
    JAPIError(String),
    JAPIDeserError(String),
    Locked,
    SQLError(String),
    ClientIDNeeded,
}

impl StatsError {
    /// The message that `to_string` returns.
    pub open spec fn text(self) -> Seq<char> {
        match self {
            StatsError::BadStats(e) => "Bad stats caught and flagged: "@ + e@,
            StatsError::JAPIError(e) => "Our anti-abuse provider is currently down right now: "@ + e@ + "!"@,
            StatsError::JAPIDeserError(e) => "JAPI Deserialize Error: "@ + e@,
            StatsError::Locked => "You have been banned from using this API endpoint!"@,
            StatsError::ClientIDNeeded => "Client ID is required for this bot or is incorrect"@,
            StatsError::SQLError(e) => "SQL error: "@ + e@,
        }
    }

    /// The message shown to the user.
    pub fn to_string(&self) -> (r: String)
        ensures
            r@ == self.text(),
    {
        match self {
            StatsError::BadStats(e) => String::from_str("Bad stats caught and flagged: ").concat(e.as_str()),
            StatsError::JAPIError(e) => String::from_str(
                "Our anti-abuse provider is currently down right now: ",
            ).concat(e.as_str()).concat("!"),
            StatsError::JAPIDeserError(e) => String::from_str("JAPI Deserialize Error: ").concat(e.as_str()),
            StatsError::Locked => String::from_str("You have been banned from using this API endpoint!"),
            StatsError::ClientIDNeeded => String::from_str("Client ID is required for this bot or is incorrect"),
            StatsError::SQLError(e) => String::from_str("SQL error: ").concat(e.as_str()),
        }
    }
}

/// Why the settings of a bot could not be read.
#[derive(Clone, Debug, PartialEq, Eq)]
pub enum SettingsError {
    NotFound,
    SQLError(String),
}

impl SettingsError {
    /// The message that `to_string` returns.
    pub open spec fn text(self) -> Seq<char> {
        match self {
            SettingsError::NotFound => "Not Found"@,
            SettingsError::SQLError(e) => "SQL error: "@ + e@,
        }
    }

    /// The message shown to the user.
    pub fn to_string(&self) -> (r: String)
        ensures
            r@ == self.text(),
    {
        match self {
            SettingsError::NotFound => String::from_str("Not Found"),
            SettingsError::SQLError(e) => String::from_str("SQL error: ").concat(e.as_str()),
        }
    }
}

/// Why a command could not be saved.
#[derive(Clone, Debug, PartialEq, Eq)]
pub enum CommandAddError {
    SQLError(String),
}

impl CommandAddError {
    /// The message that `to_string` returns.
    pub open spec fn text(self) -> Seq<char> {
        match self {
            CommandAddError::SQLError(e) => "SQL Error: "@ + e@,
        }
    }

    /// The message shown to the user.
    pub fn to_string(&self) -> (r: String)
        ensures
            r@ == self.text(),
    {
        match self {
            CommandAddError::SQLError(e) => String::from_str("SQL Error: ").concat(e.as_str()),
        }
    }
}

/// Why a review could not be saved.
#[derive(Clone, Debug, PartialEq, Eq)]
pub enum ReviewAddError {
    SQLError(String),
}

impl ReviewAddError {
    /// The message that `to_string` returns.
    pub open spec fn text(self) -> Seq<char> {
        match self {
            ReviewAddError::SQLError(e) => "SQL Error: "@ + e@,
        }
    }

    /// The message shown to the user.
    pub fn to_string(&self) -> (r: String)
        ensures
            r@ == self.text(),
    {
        match self {
            ReviewAddError::SQLError(e) => String::from_str("SQL Error: ").concat(e.as_str()),
        }
    }
}

/// The name of an error with its double quotes taken out.
pub open spec fn unquoted(s: Seq<char>) -> Seq<char>
    decreases s.len(),
{
    if s.len() == 0 {
        Seq::empty()
    } else if s.last() == '"' {
        unquoted(s.drop_last())
    } else {
        unquoted(s.drop_last()).push(s.last())
    }
}

/// Taking out double quotes works piece by piece.
pub proof fn lemma_unquoted_concat(a: Seq<char>, b: Seq<char>)
    ensures
        unquoted(a + b) == unquoted(a) + unquoted(b),
    decreases b.len(),
{
    if b.len() == 0 {
        assert(a + b =~= a);
        assert(unquoted(a) + unquoted(b) =~= unquoted(a));
    } else {
        lemma_unquoted_concat(a, b.drop_last());
        assert((a + b).drop_last() =~= a + b.drop_last());
        assert((a + b).last() == b.last());
        if b.last() != '"' {
            assert(unquoted(a) + unquoted(b.drop_last()).push(b.last()) =~= (unquoted(a) + unquoted(b.drop_last())).push(b.last()));
        }
    }
}

/// A text without double quotes is left as it is.
pub proof fn lemma_unquoted_plain(s: Seq<char>)
    requires
        !s.contains('"'),
    ensures
        unquoted(s) == s,
    decreases s.len(),
{
    if s.len() > 0 {
        assert(!s.drop_last().contains('"')) by {
            if s.drop_last().contains('"') {
                let k = choose|k: int| 0 <= k < s.drop_last().len() && s.drop_last()[k] == '"';
                assert(s[k] == '"');
            }
        }
        lemma_unquoted_plain(s.drop_last());
        assert(s.last() != '"') by {
            assert(s[s.len() - 1] == s.last());
        }
        assert(s.drop_last().push(s.last()) =~= s);
    }
}

/// Law: the name of a variant between double quotes gives back the bare name.
pub proof fn lemma_unquoted_name(x: Seq<char>)
    requires
        !x.contains('"'),
    ensures
        unquoted(seq!['"'] + x + seq!['"']) == x,
{
    lemma_unquoted_concat(seq!['"'] + x, seq!['"']);
    lemma_unquoted_concat(seq!['"'], x);
    lemma_unquoted_plain(x);
    let q = seq!['"'];
    assert(q.drop_last() =~= Seq::<char>::empty());
    assert(q.last() == '"');
    assert(unquoted(q) == unquoted(q.drop_last()));
    assert(unquoted(Seq::<char>::empty()) == Seq::<char>::empty());
    assert(unquoted(q) =~= Seq::<char>::empty());
}

/// `s` without its `"` characters.
pub fn strip_quotes(s: &str) -> (r: String)
    ensures
        r@ == unquoted(s@),
{
    let n = s.unicode_len();
    let mut out = String::new();
    let mut i: usize = 0;
    while i < n
        invariant
            n == s@.len(),
            i <= n,
            out@ == unquoted(s@.subrange(0, i as int)),
        decreases n - i,
    {
        let c = s.get_char(i);
        proof {
            assert(s@.subrange(0, i + 1).drop_last() =~= s@.subrange(0, i as int));
        }
        if c != '"' {
            push_char(&mut out, c);
        }
        i = i + 1;
    }
    proof {
        assert(s@.subrange(0, n as int) =~= s@);
    }
    out
}

impl APIResponse {
    /// A success answer.
    pub fn ok() -> (r: APIResponse)
        ensures
            r.done,
            r.reason is None,
            r.context is None,
    {
        APIResponse { done: true, reason: None, context: None }
    }

    /// A failure answer that reports an error's name (without double quotes)
    /// and context.
    pub fn err_small<E: APIError>(reason: &E) -> (r: APIResponse)
        ensures
            !r.done,
            opt_view(r.reason) == Some(unquoted(reason.name_text())),
            opt_view(r.context) == reason.context_text(),
    {
        let name = reason.name();
        APIResponse { done: false, reason: Some(strip_quotes(name.as_str())), context: reason.context() }
    }

    /// A failure answer whose reason is the given message.
    pub fn err(reason: &str) -> (r: APIResponse)
        ensures
            !r.done,
            opt_view(r.reason) == Some(reason@),
            r.context is None,
    {
        APIResponse { done: false, reason: Some(String::from_str(reason)), context: None }
    }

    /// The answer to a user banned from a route; the context names the ban.
    pub fn banned(flag: &str) -> (r: APIResponse)
        ensures
            !r.done,
            opt_view(r.reason) == Some("You have been banned from using this API endpoint"@),
            opt_view(r.context) == Some(flag@),
    {
        APIResponse {
            done: false,
            reason: Some(String::from_str("You have been banned from using this API endpoint")),
            context: Some(String::from_str(flag)),
        }
    }

    /// The answer to a rate-limited user, for `time` more seconds.
    pub fn rl(time: i64) -> (r: APIResponse)
        ensures
            !r.done,
            opt_view(r.reason) == Some("You have been rate limited for "@ + int_decimal(time as int) + " seconds"@),
            r.context is None,
    {
        let mut s = String::from_str("You have been rate limited for ");
        let t = i64_to_string(time);
        s.append(t.as_str());
        s.append(" seconds");
        APIResponse { done: false, reason: Some(s), context: None }
    }
}

} // verus!
