//! The numbered enums of the API: each variant has a number (the wire and
//! database form) and a name.
use vstd::prelude::*;
use vstd::string::*;

verus! {

/// An experiment that can be enabled for a user.
#[derive(Clone, Copy, Debug, PartialEq, Eq, Structural, Hash, Default)]
pub enum UserExperiments {
    #[default]
    Unknown,
    GetRoleSelector,
    LynxExperimentRolloutView,
    BotReport,
    ServerAppealCertification,
    UserVotePrivacy,
    DevPortal,
}

impl UserExperiments {
    /// The number that stands for each variant.
    pub open spec fn code(self) -> i32 {
        match self {
            UserExperiments::Unknown => 0,
            UserExperiments::GetRoleSelector => 1,
            UserExperiments::LynxExperimentRolloutView => 2,
            UserExperiments::BotReport => 3,
            UserExperiments::ServerAppealCertification => 4,
            UserExperiments::UserVotePrivacy => 5,
            UserExperiments::DevPortal => 6,
        }
    }

    /// The variant that a number stands for, if any.
    pub open spec fn decode(v: i32) -> Option<UserExperiments> {
        if v == 0 {
            Some(UserExperiments::Unknown)
        } else if v == 1 {
            Some(UserExperiments::GetRoleSelector)
        } else if v == 2 {
            Some(UserExperiments::LynxExperimentRolloutView)
        } else if v == 3 {
            Some(UserExperiments::BotReport)
        } else if v == 4 {
            Some(UserExperiments::ServerAppealCertification)
        } else if v == 5 {
            Some(UserExperiments::UserVotePrivacy)
        } else if v == 6 {
            Some(UserExperiments::DevPortal)
        } else {
            None
        }
    }

    /// The variant's name.
    pub open spec fn label(self) -> Seq<char> {
        match self {
            UserExperiments::Unknown => "Unknown"@,
            UserExperiments::GetRoleSelector => "GetRoleSelector"@,
            UserExperiments::LynxExperimentRolloutView => "LynxExperimentRolloutView"@,
            UserExperiments::BotReport => "BotReport"@,
            UserExperiments::ServerAppealCertification => "ServerAppealCertification"@,
            UserExperiments::UserVotePrivacy => "UserVotePrivacy"@,
            UserExperiments::DevPortal => "DevPortal"@,
        }
    }

    /// The variant's name, as it is shown to users and used in keys.
    pub fn name(self) -> (r: String)
        ensures
            r@ == self.label(),
    {
        match self {
            UserExperiments::Unknown => String::from_str("Unknown"),
            UserExperiments::GetRoleSelector => String::from_str("GetRoleSelector"),
            UserExperiments::LynxExperimentRolloutView => String::from_str("LynxExperimentRolloutView"),
            UserExperiments::BotReport => String::from_str("BotReport"),
            UserExperiments::ServerAppealCertification => String::from_str("ServerAppealCertification"),
            UserExperiments::UserVotePrivacy => String::from_str("UserVotePrivacy"),
            UserExperiments::DevPortal => String::from_str("DevPortal"),
        }
    }

    /// The number that stands for this variant.
    pub fn value(self) -> (r: i32)
        ensures
            r == self.code(),
    {
        match self {
            UserExperiments::Unknown => 0,
            UserExperiments::GetRoleSelector => 1,
            UserExperiments::LynxExperimentRolloutView => 2,
            UserExperiments::BotReport => 3,
            UserExperiments::ServerAppealCertification => 4,
            UserExperiments::UserVotePrivacy => 5,
            UserExperiments::DevPortal => 6,
        }
    }

    /// The variant that `v` stands for, or `None` when no variant has that number.
    pub fn from_value(v: i32) -> (r: Option<UserExperiments>)
        ensures
            r == UserExperiments::decode(v),
            r matches Some(x) ==> x.code() == v,
    {
        if v == 0 {
            Some(UserExperiments::Unknown)
        } else if v == 1 {
            Some(UserExperiments::GetRoleSelector)
        } else if v == 2 {
            Some(UserExperiments::LynxExperimentRolloutView)
        } else if v == 3 {
            Some(UserExperiments::BotReport)
        } else if v == 4 {
            Some(UserExperiments::ServerAppealCertification)
        } else if v == 5 {
            Some(UserExperiments::UserVotePrivacy)
        } else if v == 6 {
            Some(UserExperiments::DevPortal)
        } else {
            None
        }
    }
}

/// A rate-limited action; its number is the limit's length in seconds.
#[derive(Clone, Copy, Debug, PartialEq, Eq, Structural, Hash)]
pub enum Ratelimit {
    Appeal,
    RoleUpdate,
}

impl Ratelimit {
    /// The number that stands for each variant.
    pub open spec fn code(self) -> i32 {
        match self {
            Ratelimit::Appeal => 30,
            Ratelimit::RoleUpdate => 15,
        }
    }

    /// The variant that a number stands for, if any.
    pub open spec fn decode(v: i32) -> Option<Ratelimit> {
        if v == 30 {
            Some(Ratelimit::Appeal)
        } else if v == 15 {
            Some(Ratelimit::RoleUpdate)
        } else {
            None
        }
    }

    /// The variant's name.
    pub open spec fn label(self) -> Seq<char> {
        match self {
            Ratelimit::Appeal => "Appeal"@,
            Ratelimit::RoleUpdate => "RoleUpdate"@,
        }
    }

    /// The variant's name, as it is shown to users and used in keys.
    pub fn name(self) -> (r: String)
        ensures
            r@ == self.label(),
    {
        match self {
            Ratelimit::Appeal => String::from_str("Appeal"),
            Ratelimit::RoleUpdate => String::from_str("RoleUpdate"),
        }
    }

    /// The number that stands for this variant.
    pub fn value(self) -> (r: i32)
        ensures
            r == self.code(),
    {
        match self {
            Ratelimit::Appeal => 30,
            Ratelimit::RoleUpdate => 15,
        }
    }

    /// The variant that `v` stands for, or `None` when no variant has that number.
    pub fn from_value(v: i32) -> (r: Option<Ratelimit>)
        ensures
            r == Ratelimit::decode(v),
            r matches Some(x) ==> x.code() == v,
    {
        if v == 30 {
            Some(Ratelimit::Appeal)
        } else if v == 15 {
            Some(Ratelimit::RoleUpdate)
        } else {
            None
        }
    }
}

/// The kind of a bot command.
#[derive(Clone, Copy, Debug, PartialEq, Eq, Structural, Hash, Default)]
pub enum CommandType {
    #[default]
    PrefixCommand,
    SlashCommandGlobal,
    SlashCommandGuild,
}

impl CommandType {
    /// The number that stands for each variant.
    pub open spec fn code(self) -> i32 {
        match self {
            CommandType::PrefixCommand => 0,
            CommandType::SlashCommandGlobal => 1,
            CommandType::SlashCommandGuild => 2,
        }
    }

    /// The variant that a number stands for, if any.
    pub open spec fn decode(v: i32) -> Option<CommandType> {
        if v == 0 {
            Some(CommandType::PrefixCommand)
        } else if v == 1 {
            Some(CommandType::SlashCommandGlobal)
        } else if v == 2 {
            Some(CommandType::SlashCommandGuild)
        } else {
            None
        }
    }

    /// The variant's name.
    pub open spec fn label(self) -> Seq<char> {
        match self {
            CommandType::PrefixCommand => "PrefixCommand"@,
            CommandType::SlashCommandGlobal => "SlashCommandGlobal"@,
            CommandType::SlashCommandGuild => "SlashCommandGuild"@,
        }
    }

    /// The variant's name, as it is shown to users and used in keys.
    pub fn name(self) -> (r: String)
        ensures
            r@ == self.label(),
    {
        match self {
            CommandType::PrefixCommand => String::from_str("PrefixCommand"),
            CommandType::SlashCommandGlobal => String::from_str("SlashCommandGlobal"),
            CommandType::SlashCommandGuild => String::from_str("SlashCommandGuild"),
        }
    }

    /// The number that stands for this variant.
    pub fn value(self) -> (r: i32)
        ensures
            r == self.code(),
    {
        match self {
            CommandType::PrefixCommand => 0,
            CommandType::SlashCommandGlobal => 1,
            CommandType::SlashCommandGuild => 2,
        }
    }

    /// The variant that `v` stands for, or `None` when no variant has that number.
    pub fn from_value(v: i32) -> (r: Option<CommandType>)
        ensures
            r == CommandType::decode(v),
            r matches Some(x) ==> x.code() == v,
    {
        if v == 0 {
            Some(CommandType::PrefixCommand)
        } else if v == 1 {
            Some(CommandType::SlashCommandGlobal)
        } else if v == 2 {
            Some(CommandType::SlashCommandGuild)
        } else {
            None
        }
    }
}

/// How a bot page is laid out.
#[derive(Clone, Copy, Debug, PartialEq, Eq, Structural, Hash, Default)]
pub enum PageStyle {
    #[default]
    Tabs,
    SingleScroll,
}

impl PageStyle {
    /// The number that stands for each variant.
    pub open spec fn code(self) -> i32 {
        match self {
            PageStyle::Tabs => 0,
            PageStyle::SingleScroll => 1,
        }
    }

    /// The variant that a number stands for, if any.
    pub open spec fn decode(v: i32) -> Option<PageStyle> {
        if v == 0 {
            Some(PageStyle::Tabs)
        } else if v == 1 {
            Some(PageStyle::SingleScroll)
        } else {
            None
        }
    }

    /// The variant's name.
    pub open spec fn label(self) -> Seq<char> {
        match self {
            PageStyle::Tabs => "Tabs"@,
            PageStyle::SingleScroll => "SingleScroll"@,
        }
    }

    /// The variant's name, as it is shown to users and used in keys.
    pub fn name(self) -> (r: String)
        ensures
            r@ == self.label(),
    {
        match self {
            PageStyle::Tabs => String::from_str("Tabs"),
            PageStyle::SingleScroll => String::from_str("SingleScroll"),
        }
    }

    /// The number that stands for this variant.
    pub fn value(self) -> (r: i32)
        ensures
            r == self.code(),
    {
        match self {
            PageStyle::Tabs => 0,
            PageStyle::SingleScroll => 1,
        }
    }

    /// The variant that `v` stands for, or `None` when no variant has that number.
    pub fn from_value(v: i32) -> (r: Option<PageStyle>)
        ensures
            r == PageStyle::decode(v),
            r matches Some(x) ==> x.code() == v,
    {
        if v == 0 {
            Some(PageStyle::Tabs)
        } else if v == 1 {
            Some(PageStyle::SingleScroll)
        } else {
            None
        }
    }
}

/// The kind of an event sent over the gateway.
#[derive(Clone, Copy, Debug, PartialEq, Eq, Structural, Hash, Default)]
pub enum EventName {
    #[default]
    BotVote,
    BotEdit,
    BotDelete,
    BotClaim,
    BotApprove,
    BotDeny,
    BotBan,
    BotUnban,
    BotRequeue,
    BotCertify,
    BotUncertify,
    BotTransfer,
    BotUnverify,
    BotView,
    BotInvite,
    BotUnclaim,
    BotVoteReset,
    BotLock,
    BotUnlock,
    ReviewVote,
    ReviewAdd,
    ReviewEdit,
    ReviewDelete,
    ResourceAdd,
    ResourceDelete,
    CommandAdd,
    CommandDelete,
    ServerView,
    ServerVote,
    ServerInvite,
}

impl EventName {
    /// The number that stands for each variant.
    pub open spec fn code(self) -> i32 {
        match self {
            EventName::BotVote => 0,
            EventName::BotEdit => 2,
            EventName::BotDelete => 3,
            EventName::BotClaim => 4,
            EventName::BotApprove => 5,
            EventName::BotDeny => 6,
            EventName::BotBan => 7,
            EventName::BotUnban => 8,
            EventName::BotRequeue => 9,
            EventName::BotCertify => 10,
            EventName::BotUncertify => 11,
            EventName::BotTransfer => 12,
            EventName::BotUnverify => 15,
            EventName::BotView => 16,
            EventName::BotInvite => 17,
            EventName::BotUnclaim => 18,
            EventName::BotVoteReset => 20,
            EventName::BotLock => 22,
            EventName::BotUnlock => 23,
            EventName::ReviewVote => 30,
            EventName::ReviewAdd => 31,
            EventName::ReviewEdit => 32,
            EventName::ReviewDelete => 33,
            EventName::ResourceAdd => 40,
            EventName::ResourceDelete => 41,
            EventName::CommandAdd => 50,
            EventName::CommandDelete => 51,
            EventName::ServerView => 70,
            EventName::ServerVote => 71,
            EventName::ServerInvite => 72,
        }
    }

    /// The variant that a number stands for, if any.
    pub open spec fn decode(v: i32) -> Option<EventName> {
        if v == 0 {
            Some(EventName::BotVote)
        } else if v == 2 {
            Some(EventName::BotEdit)
        } else if v == 3 {
            Some(EventName::BotDelete)
        } else if v == 4 {
            Some(EventName::BotClaim)
        } else if v == 5 {
            Some(EventName::BotApprove)
        } else if v == 6 {
            Some(EventName::BotDeny)
        } else if v == 7 {
            Some(EventName::BotBan)
        } else if v == 8 {
            Some(EventName::BotUnban)
        } else if v == 9 {
            Some(EventName::BotRequeue)
        } else if v == 10 {
            Some(EventName::BotCertify)
        } else if v == 11 {
            Some(EventName::BotUncertify)
        } else if v == 12 {
            Some(EventName::BotTransfer)
        } else if v == 15 {
            Some(EventName::BotUnverify)
        } else if v == 16 {
            Some(EventName::BotView)
        } else if v == 17 {
            Some(EventName::BotInvite)
        } else if v == 18 {
            Some(EventName::BotUnclaim)
        } else if v == 20 {
            Some(EventName::BotVoteReset)
        } else if v == 22 {
            Some(EventName::BotLock)
        } else if v == 23 {
            Some(EventName::BotUnlock)
        } else if v == 30 {
            Some(EventName::ReviewVote)
        } else if v == 31 {
            Some(EventName::ReviewAdd)
        } else if v == 32 {
            Some(EventName::ReviewEdit)
        } else if v == 33 {
            Some(EventName::ReviewDelete)
        } else if v == 40 {
            Some(EventName::ResourceAdd)
        } else if v == 41 {
            Some(EventName::ResourceDelete)
        } else if v == 50 {
            Some(EventName::CommandAdd)
        } else if v == 51 {
            Some(EventName::CommandDelete)
        } else if v == 70 {
            Some(EventName::ServerView)
        } else if v == 71 {
            Some(EventName::ServerVote)
        } else if v == 72 {
            Some(EventName::ServerInvite)
        } else {
            None
        }
    }

    /// The variant's name.
    pub open spec fn label(self) -> Seq<char> {
        match self {
            EventName::BotVote => "BotVote"@,
            EventName::BotEdit => "BotEdit"@,
            EventName::BotDelete => "BotDelete"@,
            EventName::BotClaim => "BotClaim"@,
            EventName::BotApprove => "BotApprove"@,
            EventName::BotDeny => "BotDeny"@,
            EventName::BotBan => "BotBan"@,
            EventName::BotUnban => "BotUnban"@,
            EventName::BotRequeue => "BotRequeue"@,
            EventName::BotCertify => "BotCertify"@,
            EventName::BotUncertify => "BotUncertify"@,
            EventName::BotTransfer => "BotTransfer"@,
            EventName::BotUnverify => "BotUnverify"@,
            EventName::BotView => "BotView"@,
            EventName::BotInvite => "BotInvite"@,
            EventName::BotUnclaim => "BotUnclaim"@,
            EventName::BotVoteReset => "BotVoteReset"@,
            EventName::BotLock => "BotLock"@,
            EventName::BotUnlock => "BotUnlock"@,
            EventName::ReviewVote => "ReviewVote"@,
            EventName::ReviewAdd => "ReviewAdd"@,
            EventName::ReviewEdit => "ReviewEdit"@,
            EventName::ReviewDelete => "ReviewDelete"@,
            EventName::ResourceAdd => "ResourceAdd"@,
            EventName::ResourceDelete => "ResourceDelete"@,
            EventName::CommandAdd => "CommandAdd"@,
            EventName::CommandDelete => "CommandDelete"@,
            EventName::ServerView => "ServerView"@,
            EventName::ServerVote => "ServerVote"@,
            EventName::ServerInvite => "ServerInvite"@,
        }
    }

    /// The variant's name, as it is shown to users and used in keys.
    pub fn name(self) -> (r: String)
        ensures
            r@ == self.label(),
    {
        match self {
            EventName::BotVote => String::from_str("BotVote"),
            EventName::BotEdit => String::from_str("BotEdit"),
            EventName::BotDelete => String::from_str("BotDelete"),
            EventName::BotClaim => String::from_str("BotClaim"),
            EventName::BotApprove => String::from_str("BotApprove"),
            EventName::BotDeny => String::from_str("BotDeny"),
            EventName::BotBan => String::from_str("BotBan"),
            EventName::BotUnban => String::from_str("BotUnban"),
            EventName::BotRequeue => String::from_str("BotRequeue"),
            EventName::BotCertify => String::from_str("BotCertify"),
            EventName::BotUncertify => String::from_str("BotUncertify"),
            EventName::BotTransfer => String::from_str("BotTransfer"),
            EventName::BotUnverify => String::from_str("BotUnverify"),
            EventName::BotView => String::from_str("BotView"),
            EventName::BotInvite => String::from_str("BotInvite"),
            EventName::BotUnclaim => String::from_str("BotUnclaim"),
            EventName::BotVoteReset => String::from_str("BotVoteReset"),
            EventName::BotLock => String::from_str("BotLock"),
            EventName::BotUnlock => String::from_str("BotUnlock"),
            EventName::ReviewVote => String::from_str("ReviewVote"),
            EventName::ReviewAdd => String::from_str("ReviewAdd"),
            EventName::ReviewEdit => String::from_str("ReviewEdit"),
            EventName::ReviewDelete => String::from_str("ReviewDelete"),
            EventName::ResourceAdd => String::from_str("ResourceAdd"),
            EventName::ResourceDelete => String::from_str("ResourceDelete"),
            EventName::CommandAdd => String::from_str("CommandAdd"),
            EventName::CommandDelete => String::from_str("CommandDelete"),
            EventName::ServerView => String::from_str("ServerView"),
            EventName::ServerVote => String::from_str("ServerVote"),
            EventName::ServerInvite => String::from_str("ServerInvite"),
        }
    }

    /// The number that stands for this variant.
    pub fn value(self) -> (r: i32)
        ensures
            r == self.code(),
    {
        match self {
            EventName::BotVote => 0,
            EventName::BotEdit => 2,
            EventName::BotDelete => 3,
            EventName::BotClaim => 4,
            EventName::BotApprove => 5,
            EventName::BotDeny => 6,
            EventName::BotBan => 7,
            EventName::BotUnban => 8,
            EventName::BotRequeue => 9,
            EventName::BotCertify => 10,
            EventName::BotUncertify => 11,
            EventName::BotTransfer => 12,
            EventName::BotUnverify => 15,
            EventName::BotView => 16,
            EventName::BotInvite => 17,
            EventName::BotUnclaim => 18,
            EventName::BotVoteReset => 20,
            EventName::BotLock => 22,
            EventName::BotUnlock => 23,
            EventName::ReviewVote => 30,
            EventName::ReviewAdd => 31,
            EventName::ReviewEdit => 32,
            EventName::ReviewDelete => 33,
            EventName::ResourceAdd => 40,
            EventName::ResourceDelete => 41,
            EventName::CommandAdd => 50,
            EventName::CommandDelete => 51,
            EventName::ServerView => 70,
            EventName::ServerVote => 71,
            EventName::ServerInvite => 72,
        }
    }

    /// The variant that `v` stands for, or `None` when no variant has that number.
    pub fn from_value(v: i32) -> (r: Option<EventName>)
        ensures
            r == EventName::decode(v),
            r matches Some(x) ==> x.code() == v,
    {
        if v == 0 {
            Some(EventName::BotVote)
        } else if v == 2 {
            Some(EventName::BotEdit)
        } else if v == 3 {
            Some(EventName::BotDelete)
        } else if v == 4 {
            Some(EventName::BotClaim)
        } else if v == 5 {
            Some(EventName::BotApprove)
        } else if v == 6 {
            Some(EventName::BotDeny)
        } else if v == 7 {
            Some(EventName::BotBan)
        } else if v == 8 {
            Some(EventName::BotUnban)
        } else if v == 9 {
            Some(EventName::BotRequeue)
        } else if v == 10 {
            Some(EventName::BotCertify)
        } else if v == 11 {
            Some(EventName::BotUncertify)
        } else if v == 12 {
            Some(EventName::BotTransfer)
        } else if v == 15 {
            Some(EventName::BotUnverify)
        } else if v == 16 {
            Some(EventName::BotView)
        } else if v == 17 {
            Some(EventName::BotInvite)
        } else if v == 18 {
            Some(EventName::BotUnclaim)
        } else if v == 20 {
            Some(EventName::BotVoteReset)
        } else if v == 22 {
            Some(EventName::BotLock)
        } else if v == 23 {
            Some(EventName::BotUnlock)
        } else if v == 30 {
            Some(EventName::ReviewVote)
        } else if v == 31 {
            Some(EventName::ReviewAdd)
        } else if v == 32 {
            Some(EventName::ReviewEdit)
        } else if v == 33 {
            Some(EventName::ReviewDelete)
        } else if v == 40 {
            Some(EventName::ResourceAdd)
        } else if v == 41 {
            Some(EventName::ResourceDelete)
        } else if v == 50 {
            Some(EventName::CommandAdd)
        } else if v == 51 {
            Some(EventName::CommandDelete)
        } else if v == 70 {
            Some(EventName::ServerView)
        } else if v == 71 {
            Some(EventName::ServerVote)
        } else if v == 72 {
            Some(EventName::ServerInvite)
        } else {
            None
        }
    }
}

/// An action that a user took on a bot, as recorded in the action log.
#[derive(Clone, Copy, Debug, PartialEq, Eq, Structural, Hash, Default)]
pub enum UserBotAction {
    #[default]
    Approve,
    Deny,
    Certify,
    Ban,
    Claim,
    Unclaim,
    TransferOwnership,
    EditBot,
    DeleteBot,
    Unban,
    Uncertify,
    Unverify,
    Requeue,
}

impl UserBotAction {
    /// The number that stands for each variant.
    pub open spec fn code(self) -> i32 {
        match self {
            UserBotAction::Approve => 0,
            UserBotAction::Deny => 1,
            UserBotAction::Certify => 2,
            UserBotAction::Ban => 3,
            UserBotAction::Claim => 4,
            UserBotAction::Unclaim => 5,
            UserBotAction::TransferOwnership => 6,
            UserBotAction::EditBot => 7,
            UserBotAction::DeleteBot => 8,
            UserBotAction::Unban => 9,
            UserBotAction::Uncertify => 10,
            UserBotAction::Unverify => 11,
            UserBotAction::Requeue => 12,
        }
    }

    /// The variant that a number stands for, if any.
    pub open spec fn decode(v: i32) -> Option<UserBotAction> {
        if v == 0 {
            Some(UserBotAction::Approve)
        } else if v == 1 {
            Some(UserBotAction::Deny)
        } else if v == 2 {
            Some(UserBotAction::Certify)
        } else if v == 3 {
            Some(UserBotAction::Ban)
        } else if v == 4 {
            Some(UserBotAction::Claim)
        } else if v == 5 {
            Some(UserBotAction::Unclaim)
        } else if v == 6 {
            Some(UserBotAction::TransferOwnership)
        } else if v == 7 {
            Some(UserBotAction::EditBot)
        } else if v == 8 {
            Some(UserBotAction::DeleteBot)
        } else if v == 9 {
            Some(UserBotAction::Unban)
        } else if v == 10 {
            Some(UserBotAction::Uncertify)
        } else if v == 11 {
            Some(UserBotAction::Unverify)
        } else if v == 12 {
            Some(UserBotAction::Requeue)
        } else {
            None
        }
    }

    /// The variant's name.
    pub open spec fn label(self) -> Seq<char> {
        match self {
            UserBotAction::Approve => "Approve"@,
            UserBotAction::Deny => "Deny"@,
            UserBotAction::Certify => "Certify"@,
            UserBotAction::Ban => "Ban"@,
            UserBotAction::Claim => "Claim"@,
            UserBotAction::Unclaim => "Unclaim"@,
            UserBotAction::TransferOwnership => "TransferOwnership"@,
            UserBotAction::EditBot => "EditBot"@,
            UserBotAction::DeleteBot => "DeleteBot"@,
            UserBotAction::Unban => "Unban"@,
            UserBotAction::Uncertify => "Uncertify"@,
            UserBotAction::Unverify => "Unverify"@,
            UserBotAction::Requeue => "Requeue"@,
        }
    }

    /// The variant's name, as it is shown to users and used in keys.
    pub fn name(self) -> (r: String)
        ensures
            r@ == self.label(),
    {
        match self {
            UserBotAction::Approve => String::from_str("Approve"),
            UserBotAction::Deny => String::from_str("Deny"),
            UserBotAction::Certify => String::from_str("Certify"),
            UserBotAction::Ban => String::from_str("Ban"),
            UserBotAction::Claim => String::from_str("Claim"),
            UserBotAction::Unclaim => String::from_str("Unclaim"),
            UserBotAction::TransferOwnership => String::from_str("TransferOwnership"),
            UserBotAction::EditBot => String::from_str("EditBot"),
            UserBotAction::DeleteBot => String::from_str("DeleteBot"),
            UserBotAction::Unban => String::from_str("Unban"),
            UserBotAction::Uncertify => String::from_str("Uncertify"),
            UserBotAction::Unverify => String::from_str("Unverify"),
            UserBotAction::Requeue => String::from_str("Requeue"),
        }
    }

    /// The number that stands for this variant.
    pub fn value(self) -> (r: i32)
        ensures
            r == self.code(),
    {
        match self {
            UserBotAction::Approve => 0,
            UserBotAction::Deny => 1,
            UserBotAction::Certify => 2,
            UserBotAction::Ban => 3,
            UserBotAction::Claim => 4,
            UserBotAction::Unclaim => 5,
            UserBotAction::TransferOwnership => 6,
            UserBotAction::EditBot => 7,
            UserBotAction::DeleteBot => 8,
            UserBotAction::Unban => 9,
            UserBotAction::Uncertify => 10,
            UserBotAction::Unverify => 11,
            UserBotAction::Requeue => 12,
        }
    }

    /// The variant that `v` stands for, or `None` when no variant has that number.
    pub fn from_value(v: i32) -> (r: Option<UserBotAction>)
        ensures
            r == UserBotAction::decode(v),
            r matches Some(x) ==> x.code() == v,
    {
        if v == 0 {
            Some(UserBotAction::Approve)
        } else if v == 1 {
            Some(UserBotAction::Deny)
        } else if v == 2 {
            Some(UserBotAction::Certify)
        } else if v == 3 {
            Some(UserBotAction::Ban)
        } else if v == 4 {
            Some(UserBotAction::Claim)
        } else if v == 5 {
            Some(UserBotAction::Unclaim)
        } else if v == 6 {
            Some(UserBotAction::TransferOwnership)
        } else if v == 7 {
            Some(UserBotAction::EditBot)
        } else if v == 8 {
            Some(UserBotAction::DeleteBot)
        } else if v == 9 {
            Some(UserBotAction::Unban)
        } else if v == 10 {
            Some(UserBotAction::Uncertify)
        } else if v == 11 {
            Some(UserBotAction::Unverify)
        } else if v == 12 {
            Some(UserBotAction::Requeue)
        } else {
            None
        }
    }
}

/// The kind of a request sent to staff.
#[derive(Clone, Copy, Debug, PartialEq, Eq, Structural, Hash, Default)]
pub enum AppealType {
    #[default]
    Appeal,
    Certification,
    Report,
}

impl AppealType {
    /// The number that stands for each variant.
    pub open spec fn code(self) -> i32 {
        match self {
            AppealType::Appeal => 0,
            AppealType::Certification => 1,
            AppealType::Report => 2,
        }
    }

    /// The variant that a number stands for, if any.
    pub open spec fn decode(v: i32) -> Option<AppealType> {
        if v == 0 {
            Some(AppealType::Appeal)
        } else if v == 1 {
            Some(AppealType::Certification)
        } else if v == 2 {
            Some(AppealType::Report)
        } else {
            None
        }
    }

    /// The variant's name.
    pub open spec fn label(self) -> Seq<char> {
        match self {
            AppealType::Appeal => "Appeal"@,
            AppealType::Certification => "Certification"@,
            AppealType::Report => "Report"@,
        }
    }

    /// The variant's name, as it is shown to users and used in keys.
    pub fn name(self) -> (r: String)
        ensures
            r@ == self.label(),
    {
        match self {
            AppealType::Appeal => String::from_str("Appeal"),
            AppealType::Certification => String::from_str("Certification"),
            AppealType::Report => String::from_str("Report"),
        }
    }

    /// The number that stands for this variant.
    pub fn value(self) -> (r: i32)
        ensures
            r == self.code(),
    {
        match self {
            AppealType::Appeal => 0,
            AppealType::Certification => 1,
            AppealType::Report => 2,
        }
    }

    /// The variant that `v` stands for, or `None` when no variant has that number.
    pub fn from_value(v: i32) -> (r: Option<AppealType>)
        ensures
            r == AppealType::decode(v),
            r matches Some(x) ==> x.code() == v,
    {
        if v == 0 {
            Some(AppealType::Appeal)
        } else if v == 1 {
            Some(AppealType::Certification)
        } else if v == 2 {
            Some(AppealType::Report)
        } else {
            None
        }
    }
}

/// The listing state of a bot or server.
#[derive(Clone, Copy, Debug, PartialEq, Eq, Structural, Hash, Default)]
pub enum State {
    #[default]
    Approved,
    Pending,
    Denied,
    Hidden,
    Banned,
    UnderReview,
    Certified,
    Archived,
    PrivateViewable,
    PrivateStaffOnly,
}

impl State {
    /// The number that stands for each variant.
    pub open spec fn code(self) -> i32 {
        match self {
            State::Approved => 0,
            State::Pending => 1,
            State::Denied => 2,
            State::Hidden => 3,
            State::Banned => 4,
            State::UnderReview => 5,
            State::Certified => 6,
            State::Archived => 7,
            State::PrivateViewable => 8,
            State::PrivateStaffOnly => 9,
        }
    }

    /// The variant that a number stands for, if any.
    pub open spec fn decode(v: i32) -> Option<State> {
        if v == 0 {
            Some(State::Approved)
        } else if v == 1 {
            Some(State::Pending)
        } else if v == 2 {
            Some(State::Denied)
        } else if v == 3 {
            Some(State::Hidden)
        } else if v == 4 {
            Some(State::Banned)
        } else if v == 5 {
            Some(State::UnderReview)
        } else if v == 6 {
            Some(State::Certified)
        } else if v == 7 {
            Some(State::Archived)
        } else if v == 8 {
            Some(State::PrivateViewable)
        } else if v == 9 {
            Some(State::PrivateStaffOnly)
        } else {
            None
        }
    }

    /// The variant's name.
    pub open spec fn label(self) -> Seq<char> {
        match self {
            State::Approved => "Approved"@,
            State::Pending => "Pending"@,
            State::Denied => "Denied"@,
            State::Hidden => "Hidden"@,
            State::Banned => "Banned"@,
            State::UnderReview => "UnderReview"@,
            State::Certified => "Certified"@,
            State::Archived => "Archived"@,
            State::PrivateViewable => "PrivateViewable"@,
            State::PrivateStaffOnly => "PrivateStaffOnly"@,
        }
    }

    /// The variant's name, as it is shown to users and used in keys.
    pub fn name(self) -> (r: String)
        ensures
            r@ == self.label(),
    {
        match self {
            State::Approved => String::from_str("Approved"),
            State::Pending => String::from_str("Pending"),
            State::Denied => String::from_str("Denied"),
            State::Hidden => String::from_str("Hidden"),
            State::Banned => String::from_str("Banned"),
            State::UnderReview => String::from_str("UnderReview"),
            State::Certified => String::from_str("Certified"),
            State::Archived => String::from_str("Archived"),
            State::PrivateViewable => String::from_str("PrivateViewable"),
            State::PrivateStaffOnly => String::from_str("PrivateStaffOnly"),
        }
    }

    /// The number that stands for this variant.
    pub fn value(self) -> (r: i32)
        ensures
            r == self.code(),
    {
        match self {
            State::Approved => 0,
            State::Pending => 1,
            State::Denied => 2,
            State::Hidden => 3,
            State::Banned => 4,
            State::UnderReview => 5,
            State::Certified => 6,
            State::Archived => 7,
            State::PrivateViewable => 8,
            State::PrivateStaffOnly => 9,
        }
    }

    /// The variant that `v` stands for, or `None` when no variant has that number.
    pub fn from_value(v: i32) -> (r: Option<State>)
        ensures
            r == State::decode(v),
            r matches Some(x) ==> x.code() == v,
    {
        if v == 0 {
            Some(State::Approved)
        } else if v == 1 {
            Some(State::Pending)
        } else if v == 2 {
            Some(State::Denied)
        } else if v == 3 {
            Some(State::Hidden)
        } else if v == 4 {
            Some(State::Banned)
        } else if v == 5 {
            Some(State::UnderReview)
        } else if v == 6 {
            Some(State::Certified)
        } else if v == 7 {
            Some(State::Archived)
        } else if v == 8 {
            Some(State::PrivateViewable)
        } else if v == 9 {
            Some(State::PrivateStaffOnly)
        } else {
            None
        }
    }
}

/// The standing of a user account.
#[derive(Clone, Copy, Debug, PartialEq, Eq, Structural, Hash, Default)]
pub enum UserState {
    #[default]
    Normal,
    GlobalBan,
    ProfileEditBan,
}

impl UserState {
    /// The number that stands for each variant.
    pub open spec fn code(self) -> i32 {
        match self {
            UserState::Normal => 0,
            UserState::GlobalBan => 1,
            UserState::ProfileEditBan => 2,
        }
    }

    /// The variant that a number stands for, if any.
    pub open spec fn decode(v: i32) -> Option<UserState> {
        if v == 0 {
            Some(UserState::Normal)
        } else if v == 1 {
            Some(UserState::GlobalBan)
        } else if v == 2 {
            Some(UserState::ProfileEditBan)
        } else {
            None
        }
    }

    /// The variant's name.
    pub open spec fn label(self) -> Seq<char> {
        match self {
            UserState::Normal => "Normal"@,
            UserState::GlobalBan => "GlobalBan"@,
            UserState::ProfileEditBan => "ProfileEditBan"@,
        }
    }

    /// The variant's name, as it is shown to users and used in keys.
    pub fn name(self) -> (r: String)
        ensures
            r@ == self.label(),
    {
        match self {
            UserState::Normal => String::from_str("Normal"),
            UserState::GlobalBan => String::from_str("GlobalBan"),
            UserState::ProfileEditBan => String::from_str("ProfileEditBan"),
        }
    }

    /// The number that stands for this variant.
    pub fn value(self) -> (r: i32)
        ensures
            r == self.code(),
    {
        match self {
            UserState::Normal => 0,
            UserState::GlobalBan => 1,
            UserState::ProfileEditBan => 2,
        }
    }

    /// The variant that `v` stands for, or `None` when no variant has that number.
    pub fn from_value(v: i32) -> (r: Option<UserState>)
        ensures
            r == UserState::decode(v),
            r matches Some(x) ==> x.code() == v,
    {
        if v == 0 {
            Some(UserState::Normal)
        } else if v == 1 {
            Some(UserState::GlobalBan)
        } else if v == 2 {
            Some(UserState::ProfileEditBan)
        } else {
            None
        }
    }
}

/// A flag set on a bot or server.
#[derive(Clone, Copy, Debug, PartialEq, Eq, Structural, Hash, Default)]
pub enum Flags {
    #[default]
    Unlocked,
    EditLocked,
    StaffLocked,
    StatsLocked,
    VoteLocked,
    System,
    WhitelistOnly,
    KeepBannerDecor,
    NSFW,
    LoginRequired,
}

impl Flags {
    /// The number that stands for each variant.
    pub open spec fn code(self) -> i32 {
        match self {
            Flags::Unlocked => 0,
            Flags::EditLocked => 1,
            Flags::StaffLocked => 2,
            Flags::StatsLocked => 3,
            Flags::VoteLocked => 4,
            Flags::System => 5,
            Flags::WhitelistOnly => 6,
            Flags::KeepBannerDecor => 7,
            Flags::NSFW => 8,
            Flags::LoginRequired => 9,
        }
    }

    /// The variant that a number stands for, if any.
    pub open spec fn decode(v: i32) -> Option<Flags> {
        if v == 0 {
            Some(Flags::Unlocked)
        } else if v == 1 {
            Some(Flags::EditLocked)
        } else if v == 2 {
            Some(Flags::StaffLocked)
        } else if v == 3 {
            Some(Flags::StatsLocked)
        } else if v == 4 {
            Some(Flags::VoteLocked)
        } else if v == 5 {
            Some(Flags::System)
        } else if v == 6 {
            Some(Flags::WhitelistOnly)
        } else if v == 7 {
            Some(Flags::KeepBannerDecor)
        } else if v == 8 {
            Some(Flags::NSFW)
        } else if v == 9 {
            Some(Flags::LoginRequired)
        } else {
            None
        }
    }

    /// The variant's name.
    pub open spec fn label(self) -> Seq<char> {
        match self {
            Flags::Unlocked => "Unlocked"@,
            Flags::EditLocked => "EditLocked"@,
            Flags::StaffLocked => "StaffLocked"@,
            Flags::StatsLocked => "StatsLocked"@,
            Flags::VoteLocked => "VoteLocked"@,
            Flags::System => "System"@,
            Flags::WhitelistOnly => "WhitelistOnly"@,
            Flags::KeepBannerDecor => "KeepBannerDecor"@,
            Flags::NSFW => "NSFW"@,
            Flags::LoginRequired => "LoginRequired"@,
        }
    }

    /// The variant's name, as it is shown to users and used in keys.
    pub fn name(self) -> (r: String)
        ensures
            r@ == self.label(),
    {
        match self {
            Flags::Unlocked => String::from_str("Unlocked"),
            Flags::EditLocked => String::from_str("EditLocked"),
            Flags::StaffLocked => String::from_str("StaffLocked"),
            Flags::StatsLocked => String::from_str("StatsLocked"),
            Flags::VoteLocked => String::from_str("VoteLocked"),
            Flags::System => String::from_str("System"),
            Flags::WhitelistOnly => String::from_str("WhitelistOnly"),
            Flags::KeepBannerDecor => String::from_str("KeepBannerDecor"),
            Flags::NSFW => String::from_str("NSFW"),
            Flags::LoginRequired => String::from_str("LoginRequired"),
        }
    }

    /// The number that stands for this variant.
    pub fn value(self) -> (r: i32)
        ensures
            r == self.code(),
    {
        match self {
            Flags::Unlocked => 0,
            Flags::EditLocked => 1,
            Flags::StaffLocked => 2,
            Flags::StatsLocked => 3,
            Flags::VoteLocked => 4,
            Flags::System => 5,
            Flags::WhitelistOnly => 6,
            Flags::KeepBannerDecor => 7,
            Flags::NSFW => 8,
            Flags::LoginRequired => 9,
        }
    }

    /// The variant that `v` stands for, or `None` when no variant has that number.
    pub fn from_value(v: i32) -> (r: Option<Flags>)
        ensures
            r == Flags::decode(v),
            r matches Some(x) ==> x.code() == v,
    {
        if v == 0 {
            Some(Flags::Unlocked)
        } else if v == 1 {
            Some(Flags::EditLocked)
        } else if v == 2 {
            Some(Flags::StaffLocked)
        } else if v == 3 {
            Some(Flags::StatsLocked)
        } else if v == 4 {
            Some(Flags::VoteLocked)
        } else if v == 5 {
            Some(Flags::System)
        } else if v == 6 {
            Some(Flags::WhitelistOnly)
        } else if v == 7 {
            Some(Flags::KeepBannerDecor)
        } else if v == 8 {
            Some(Flags::NSFW)
        } else if v == 9 {
            Some(Flags::LoginRequired)
        } else {
            None
        }
    }
}

/// A flag set on a user.
#[derive(Clone, Copy, Debug, PartialEq, Eq, Structural, Hash, Default)]
pub enum UserFlags {
    #[default]
    Unknown,
    VotesPrivate,
    Staff,
    AvidVoter,
}

impl UserFlags {
    /// The number that stands for each variant.
    pub open spec fn code(self) -> i32 {
        match self {
            UserFlags::Unknown => 0,
            UserFlags::VotesPrivate => 1,
            UserFlags::Staff => 2,
            UserFlags::AvidVoter => 3,
        }
    }

    /// The variant that a number stands for, if any.
    pub open spec fn decode(v: i32) -> Option<UserFlags> {
        if v == 0 {
            Some(UserFlags::Unknown)
        } else if v == 1 {
            Some(UserFlags::VotesPrivate)
        } else if v == 2 {
            Some(UserFlags::Staff)
        } else if v == 3 {
            Some(UserFlags::AvidVoter)
        } else {
            None
        }
    }

    /// The variant's name.
    pub open spec fn label(self) -> Seq<char> {
        match self {
            UserFlags::Unknown => "Unknown"@,
            UserFlags::VotesPrivate => "VotesPrivate"@,
            UserFlags::Staff => "Staff"@,
            UserFlags::AvidVoter => "AvidVoter"@,
        }
    }

    /// The variant's name, as it is shown to users and used in keys.
    pub fn name(self) -> (r: String)
        ensures
            r@ == self.label(),
    {
        match self {
            UserFlags::Unknown => String::from_str("Unknown"),
            UserFlags::VotesPrivate => String::from_str("VotesPrivate"),
            UserFlags::Staff => String::from_str("Staff"),
            UserFlags::AvidVoter => String::from_str("AvidVoter"),
        }
    }

    /// The number that stands for this variant.
    pub fn value(self) -> (r: i32)
        ensures
            r == self.code(),
    {
        match self {
            UserFlags::Unknown => 0,
            UserFlags::VotesPrivate => 1,
            UserFlags::Staff => 2,
            UserFlags::AvidVoter => 3,
        }
    }

    /// The variant that `v` stands for, or `None` when no variant has that number.
    pub fn from_value(v: i32) -> (r: Option<UserFlags>)
        ensures
            r == UserFlags::decode(v),
            r matches Some(x) ==> x.code() == v,
    {
        if v == 0 {
            Some(UserFlags::Unknown)
        } else if v == 1 {
            Some(UserFlags::VotesPrivate)
        } else if v == 2 {
            Some(UserFlags::Staff)
        } else if v == 3 {
            Some(UserFlags::AvidVoter)
        } else {
            None
        }
    }
}

/// How a long description is written.
#[derive(Clone, Copy, Debug, PartialEq, Eq, Structural, Hash, Default)]
pub enum LongDescriptionType {
    Html,
    #[default]
    MarkdownServerSide,
}

impl LongDescriptionType {
    /// The number that stands for each variant.
    pub open spec fn code(self) -> i32 {
        match self {
            LongDescriptionType::Html => 0,
            LongDescriptionType::MarkdownServerSide => 1,
        }
    }

    /// The variant that a number stands for, if any.
    pub open spec fn decode(v: i32) -> Option<LongDescriptionType> {
        if v == 0 {
            Some(LongDescriptionType::Html)
        } else if v == 1 {
            Some(LongDescriptionType::MarkdownServerSide)
        } else {
            None
        }
    }

    /// The variant's name.
    pub open spec fn label(self) -> Seq<char> {
        match self {
            LongDescriptionType::Html => "Html"@,
            LongDescriptionType::MarkdownServerSide => "MarkdownServerSide"@,
        }
    }

    /// The variant's name, as it is shown to users and used in keys.
    pub fn name(self) -> (r: String)
        ensures
            r@ == self.label(),
    {
        match self {
            LongDescriptionType::Html => String::from_str("Html"),
            LongDescriptionType::MarkdownServerSide => String::from_str("MarkdownServerSide"),
        }
    }

    /// The number that stands for this variant.
    pub fn value(self) -> (r: i32)
        ensures
            r == self.code(),
    {
        match self {
            LongDescriptionType::Html => 0,
            LongDescriptionType::MarkdownServerSide => 1,
        }
    }

    /// The variant that `v` stands for, or `None` when no variant has that number.
    pub fn from_value(v: i32) -> (r: Option<LongDescriptionType>)
        ensures
            r == LongDescriptionType::decode(v),
            r matches Some(x) ==> x.code() == v,
    {
        if v == 0 {
            Some(LongDescriptionType::Html)
        } else if v == 1 {
            Some(LongDescriptionType::MarkdownServerSide)
        } else {
            None
        }
    }
}

/// How vote notifications are delivered.
#[derive(Clone, Copy, Debug, PartialEq, Eq, Structural, Hash, Default)]
pub enum WebhookType {
    #[default]
    Vote,
    DiscordIntegration,
    DeprecatedFatesClient,
}

impl WebhookType {
    /// The number that stands for each variant.
    pub open spec fn code(self) -> i32 {
        match self {
            WebhookType::Vote => 0,
            WebhookType::DiscordIntegration => 1,
            WebhookType::DeprecatedFatesClient => 2,
        }
    }

    /// The variant that a number stands for, if any.
    pub open spec fn decode(v: i32) -> Option<WebhookType> {
        if v == 0 {
            Some(WebhookType::Vote)
        } else if v == 1 {
            Some(WebhookType::DiscordIntegration)
        } else if v == 2 {
            Some(WebhookType::DeprecatedFatesClient)
        } else {
            None
        }
    }

    /// The variant's name.
    pub open spec fn label(self) -> Seq<char> {
        match self {
            WebhookType::Vote => "Vote"@,
            WebhookType::DiscordIntegration => "DiscordIntegration"@,
            WebhookType::DeprecatedFatesClient => "DeprecatedFatesClient"@,
        }
    }

    /// The variant's name, as it is shown to users and used in keys.
    pub fn name(self) -> (r: String)
        ensures
            r@ == self.label(),
    {
        match self {
            WebhookType::Vote => String::from_str("Vote"),
            WebhookType::DiscordIntegration => String::from_str("DiscordIntegration"),
            WebhookType::DeprecatedFatesClient => String::from_str("DeprecatedFatesClient"),
        }
    }

    /// The number that stands for this variant.
    pub fn value(self) -> (r: i32)
        ensures
            r == self.code(),
    {
        match self {
            WebhookType::Vote => 0,
            WebhookType::DiscordIntegration => 1,
            WebhookType::DeprecatedFatesClient => 2,
        }
    }

    /// The variant that `v` stands for, or `None` when no variant has that number.
    pub fn from_value(v: i32) -> (r: Option<WebhookType>)
        ensures
            r == WebhookType::decode(v),
            r matches Some(x) ==> x.code() == v,
    {
        if v == 0 {
            Some(WebhookType::Vote)
        } else if v == 1 {
            Some(WebhookType::DiscordIntegration)
        } else if v == 2 {
            Some(WebhookType::DeprecatedFatesClient)
        } else {
            None
        }
    }
}

/// Whether something concerns a bot or a server.
#[derive(Clone, Copy, Debug, PartialEq, Eq, Structural, Hash, Default)]
pub enum TargetType {
    #[default]
    Bot,
    Server,
}

impl TargetType {
    /// The number that stands for each variant.
    pub open spec fn code(self) -> i32 {
        match self {
            TargetType::Bot => 0,
            TargetType::Server => 1,
        }
    }

    /// The variant that a number stands for, if any.
    pub open spec fn decode(v: i32) -> Option<TargetType> {
        if v == 0 {
            Some(TargetType::Bot)
        } else if v == 1 {
            Some(TargetType::Server)
        } else {
            None
        }
    }

    /// The variant's name.
    pub open spec fn label(self) -> Seq<char> {
        match self {
            TargetType::Bot => "Bot"@,
            TargetType::Server => "Server"@,
        }
    }

    /// The variant's name, as it is shown to users and used in keys.
    pub fn name(self) -> (r: String)
        ensures
            r@ == self.label(),
    {
        match self {
            TargetType::Bot => String::from_str("Bot"),
            TargetType::Server => String::from_str("Server"),
        }
    }

    /// The number that stands for this variant.
    pub fn value(self) -> (r: i32)
        ensures
            r == self.code(),
    {
        match self {
            TargetType::Bot => 0,
            TargetType::Server => 1,
        }
    }

    /// The variant that `v` stands for, or `None` when no variant has that number.
    pub fn from_value(v: i32) -> (r: Option<TargetType>)
        ensures
            r == TargetType::decode(v),
            r matches Some(x) ==> x.code() == v,
    {
        if v == 0 {
            Some(TargetType::Bot)
        } else if v == 1 {
            Some(TargetType::Server)
        } else {
            None
        }
    }
}

/// The presence of a Discord user.
#[derive(Clone, Copy, Debug, PartialEq, Eq, Structural, Hash, Default)]
pub enum Status {
    #[default]
    Unknown,
    Online,
    Offline,
    Idle,
    DoNotDisturb,
}

impl Status {
    /// The number that stands for each variant.
    pub open spec fn code(self) -> i32 {
        match self {
            Status::Unknown => 0,
            Status::Online => 1,
            Status::Offline => 2,
            Status::Idle => 3,
            Status::DoNotDisturb => 4,
        }
    }

    /// The variant that a number stands for, if any.
    pub open spec fn decode(v: i32) -> Option<Status> {
        if v == 0 {
            Some(Status::Unknown)
        } else if v == 1 {
            Some(Status::Online)
        } else if v == 2 {
            Some(Status::Offline)
        } else if v == 3 {
            Some(Status::Idle)
        } else if v == 4 {
            Some(Status::DoNotDisturb)
        } else {
            None
        }
    }

    /// The variant's name.
    pub open spec fn label(self) -> Seq<char> {
        match self {
            Status::Unknown => "Unknown"@,
            Status::Online => "Online"@,
            Status::Offline => "Offline"@,
            Status::Idle => "Idle"@,
            Status::DoNotDisturb => "DoNotDisturb"@,
        }
    }

    /// The variant's name, as it is shown to users and used in keys.
    pub fn name(self) -> (r: String)
        ensures
            r@ == self.label(),
    {
        match self {
            Status::Unknown => String::from_str("Unknown"),
            Status::Online => String::from_str("Online"),
            Status::Offline => String::from_str("Offline"),
            Status::Idle => String::from_str("Idle"),
            Status::DoNotDisturb => String::from_str("DoNotDisturb"),
        }
    }

    /// The number that stands for this variant.
    pub fn value(self) -> (r: i32)
        ensures
            r == self.code(),
    {
        match self {
            Status::Unknown => 0,
            Status::Online => 1,
            Status::Offline => 2,
            Status::Idle => 3,
            Status::DoNotDisturb => 4,
        }
    }

    /// The variant that `v` stands for, or `None` when no variant has that number.
    pub fn from_value(v: i32) -> (r: Option<Status>)
        ensures
            r == Status::decode(v),
            r matches Some(x) ==> x.code() == v,
    {
        if v == 0 {
            Some(Status::Unknown)
        } else if v == 1 {
            Some(Status::Online)
        } else if v == 2 {
            Some(Status::Offline)
        } else if v == 3 {
            Some(Status::Idle)
        } else if v == 4 {
            Some(Status::DoNotDisturb)
        } else {
            None
        }
    }
}

impl TargetType {
    /// The word that names the target in gateway channels and archives.
    pub open spec fn arg(self) -> Seq<char> {
        match self {
            TargetType::Bot => "bot"@,
            TargetType::Server => "server"@,
        }
    }

    /// The word that names the target in gateway channels and archives.
    pub fn to_arg(self) -> (r: &'static str)
        ensures
            r@ == self.arg(),
    {
        match self {
            TargetType::Bot => "bot",
            TargetType::Server => "server",
        }
    }
}

impl Ratelimit {
    /// How long the limit lasts, in seconds (the variant's number).
    pub fn seconds(self) -> (r: u64)
        ensures
            r == self.code(),
    {
        match self {
            Ratelimit::Appeal => 30,
            Ratelimit::RoleUpdate => 15,
        }
    }
}

/// Law: every variant's number reads back as that variant, so a value written
/// out as its number and read again is unchanged.
pub proof fn lemma_codes_round_trip()
    ensures
        forall|x: UserExperiments| UserExperiments::decode(#[trigger] x.code()) == Some(x),
        forall|x: Ratelimit| Ratelimit::decode(#[trigger] x.code()) == Some(x),
        forall|x: CommandType| CommandType::decode(#[trigger] x.code()) == Some(x),
        forall|x: PageStyle| PageStyle::decode(#[trigger] x.code()) == Some(x),
        forall|x: EventName| EventName::decode(#[trigger] x.code()) == Some(x),
        forall|x: UserBotAction| UserBotAction::decode(#[trigger] x.code()) == Some(x),
        forall|x: AppealType| AppealType::decode(#[trigger] x.code()) == Some(x),
        forall|x: State| State::decode(#[trigger] x.code()) == Some(x),
        forall|x: UserState| UserState::decode(#[trigger] x.code()) == Some(x),
        forall|x: Flags| Flags::decode(#[trigger] x.code()) == Some(x),
        forall|x: UserFlags| UserFlags::decode(#[trigger] x.code()) == Some(x),
        forall|x: LongDescriptionType| LongDescriptionType::decode(#[trigger] x.code()) == Some(x),
        forall|x: WebhookType| WebhookType::decode(#[trigger] x.code()) == Some(x),
        forall|x: TargetType| TargetType::decode(#[trigger] x.code()) == Some(x),
        forall|x: Status| Status::decode(#[trigger] x.code()) == Some(x),
{
}

} // verus!
