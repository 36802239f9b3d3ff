//! The reference documentation of the API: the tables of its enums and the
//! pages of its routes.
use crate::enums::{
    AppealType, CommandType, EventName, Flags, LongDescriptionType, PageStyle, State, Status, TargetType,
    UserBotAction, UserExperiments, UserFlags, UserState, WebhookType,
};
use crate::models::{EnumDesc, ImportSource, RouteAuthType};
use crate::text::{i64_to_string, int_decimal};
use vstd::prelude::*;
use vstd::string::*;

verus! {

/// One row of an enum table: the variant's name in bold, then its JSON value.
pub open spec fn enum_row(label: Seq<char>, value: Seq<char>) -> Seq<char> {
    "| **"@ + label + "** | "@ + value + " |\n"@
}

/// The rows of an enum table, in order.
pub open spec fn enum_rows(pairs: Seq<(Seq<char>, Seq<char>)>) -> Seq<char>
    decreases pairs.len(),
{
    if pairs.len() == 0 {
        Seq::empty()
    } else {
        enum_rows(pairs.drop_last()) + enum_row(pairs.last().0, pairs.last().1)
    }
}

/// The plain view of (name, value) pairs.
pub open spec fn pairs_text(v: Seq<(String, String)>) -> Seq<(Seq<char>, Seq<char>)> {
    v.map_values(|p: (String, String)| (p.0@, p.1@))
}

/// The rows of an enum table for the given (name, JSON value) pairs.
pub fn enum_table(pairs: &Vec<(String, String)>) -> (r: String)
    ensures
        r@ == enum_rows(pairs_text(pairs@)),
{
    let mut s = String::new();
    let mut i: usize = 0;
    while i < pairs.len()
        invariant
            i <= pairs@.len(),
            s@ == enum_rows(pairs_text(pairs@).subrange(0, i as int)),
        decreases pairs.len() - i,
    {
        proof {
            assert(pairs_text(pairs@).subrange(0, i + 1).drop_last() =~= pairs_text(pairs@).subrange(0, i as int));
            assert(pairs_text(pairs@)[i as int] == (pairs@[i as int].0@, pairs@[i as int].1@));
        }
        s.append("| **");
        s.append(pairs[i].0.as_str());
        s.append("** | ");
        s.append(pairs[i].1.as_str());
        s.append(" |\n");
        i = i + 1;
    }
    proof {
        assert(pairs_text(pairs@).subrange(0, pairs@.len() as int) =~= pairs_text(pairs@));
    }
    s
}

/// The list of JSON keys under which an enum appears.
pub open spec fn key_list(names: Seq<Seq<char>>) -> Seq<char>
    decreases names.len(),
{
    if names.len() == 0 {
        Seq::empty()
    } else {
        key_list(names.drop_last()) + "- ``"@ + names.last() + "``\n"@
    }
}

/// The section of the enum reference that documents one enum.
pub open spec fn enum_section(name: Seq<char>, description: Seq<char>, keys: Seq<char>, docs: Seq<char>) -> Seq<char> {
    "\n    \n### "@ + name + "\n\n"@ + description + "\n\n**Common JSON keys**\n\n"@ + keys
        + "\n\n**Values**\n\n| Name | Value |\n| :--- | :--- |\n"@ + docs + "\n"@
}

/// The section of the enum reference that documents one enum: its name, its
/// description, the JSON keys it appears under, and the table of its values.
pub fn new_enum(data: EnumDesc) -> (r: String)
    ensures
        r@ == enum_section(
            data.name@,
            data.description@,
            key_list(data.alt_names@.map_values(|s: String| s@)),
            data.docs@,
        ),
{
    let mut keys = String::new();
    let mut i: usize = 0;
    let ghost names = data.alt_names@.map_values(|s: String| s@);
    while i < data.alt_names.len()
        invariant
            names == data.alt_names@.map_values(|s: String| s@),
            i <= data.alt_names@.len(),
            keys@ == key_list(names.subrange(0, i as int)),
        decreases data.alt_names.len() - i,
    {
        proof {
            assert(names.subrange(0, i + 1).drop_last() =~= names.subrange(0, i as int));
            assert(names[i as int] == data.alt_names@[i as int]@);
        }
        keys.append("- ``");
        keys.append(data.alt_names[i].as_str());
        keys.append("``\n");
        proof {
            assert(keys@ =~= key_list(names.subrange(0, i as int)) + "- ``"@ + names[i as int] + "``\n"@);
        }
        i = i + 1;
    }
    proof {
        assert(names.subrange(0, data.alt_names@.len() as int) =~= names);
    }
    let mut s = String::from_str("\n    \n### ");
    s.append(data.name.as_str());
    s.append("\n\n");
    s.append(data.description.as_str());
    s.append("\n\n**Common JSON keys**\n\n");
    s.append(keys.as_str());
    s.append("\n\n**Values**\n\n| Name | Value |\n| :--- | :--- |\n");
    s.append(data.docs.as_str());
    s.append("\n");
    s
}

/// The name of an import source as written in the source (what `Debug` prints).
pub open spec fn source_label(src: ImportSource) -> Seq<char> {
    match src {
        ImportSource::Rdl => "Rdl"@,
        ImportSource::Ibl => "Ibl"@,
        ImportSource::Custom => "Custom"@,
        ImportSource::Other => "Other"@,
    }
}


/// The (name, JSON value) pairs of `LongDescriptionType`, in order; its values are written as numbers.
pub open spec fn long_description_type_pairs_text() -> Seq<(Seq<char>, Seq<char>)> {
    seq![(LongDescriptionType::Html.label(), int_decimal(LongDescriptionType::Html.code() as int)), (LongDescriptionType::MarkdownServerSide.label(), int_decimal(LongDescriptionType::MarkdownServerSide.code() as int))]
}

fn long_description_type_pairs() -> (r: Vec<(String, String)>)
    ensures
        pairs_text(r@) == long_description_type_pairs_text(),
{
    let r = vec![
        (LongDescriptionType::Html.name(), i64_to_string(LongDescriptionType::Html.value() as i64)),
        (LongDescriptionType::MarkdownServerSide.name(), i64_to_string(LongDescriptionType::MarkdownServerSide.value() as i64)),
    ];
    proof {
        assert(pairs_text(r@) =~= long_description_type_pairs_text());
    }
    r
}

/// The (name, JSON value) pairs of `State`, in order; its values are written as numbers.
pub open spec fn state_pairs_text() -> Seq<(Seq<char>, Seq<char>)> {
    seq![(State::Approved.label(), int_decimal(State::Approved.code() as int)), (State::Pending.label(), int_decimal(State::Pending.code() as int)), (State::Denied.label(), int_decimal(State::Denied.code() as int)), (State::Hidden.label(), int_decimal(State::Hidden.code() as int)), (State::Banned.label(), int_decimal(State::Banned.code() as int)), (State::UnderReview.label(), int_decimal(State::UnderReview.code() as int)), (State::Certified.label(), int_decimal(State::Certified.code() as int)), (State::Archived.label(), int_decimal(State::Archived.code() as int)), (State::PrivateViewable.label(), int_decimal(State::PrivateViewable.code() as int)), (State::PrivateStaffOnly.label(), int_decimal(State::PrivateStaffOnly.code() as int))]
}

fn state_pairs() -> (r: Vec<(String, String)>)
    ensures
        pairs_text(r@) == state_pairs_text(),
{
    let r = vec![
        (State::Approved.name(), i64_to_string(State::Approved.value() as i64)),
        (State::Pending.name(), i64_to_string(State::Pending.value() as i64)),
        (State::Denied.name(), i64_to_string(State::Denied.value() as i64)),
        (State::Hidden.name(), i64_to_string(State::Hidden.value() as i64)),
        (State::Banned.name(), i64_to_string(State::Banned.value() as i64)),
        (State::UnderReview.name(), i64_to_string(State::UnderReview.value() as i64)),
        (State::Certified.name(), i64_to_string(State::Certified.value() as i64)),
        (State::Archived.name(), i64_to_string(State::Archived.value() as i64)),
        (State::PrivateViewable.name(), i64_to_string(State::PrivateViewable.value() as i64)),
        (State::PrivateStaffOnly.name(), i64_to_string(State::PrivateStaffOnly.value() as i64)),
    ];
    proof {
        assert(pairs_text(r@) =~= state_pairs_text());
    }
    r
}

/// The (name, JSON value) pairs of `UserState`, in order; its values are written as numbers.
pub open spec fn user_state_pairs_text() -> Seq<(Seq<char>, Seq<char>)> {
    seq![(UserState::Normal.label(), int_decimal(UserState::Normal.code() as int)), (UserState::GlobalBan.label(), int_decimal(UserState::GlobalBan.code() as int)), (UserState::ProfileEditBan.label(), int_decimal(UserState::ProfileEditBan.code() as int))]
}

fn user_state_pairs() -> (r: Vec<(String, String)>)
    ensures
        pairs_text(r@) == user_state_pairs_text(),
{
    let r = vec![
        (UserState::Normal.name(), i64_to_string(UserState::Normal.value() as i64)),
        (UserState::GlobalBan.name(), i64_to_string(UserState::GlobalBan.value() as i64)),
        (UserState::ProfileEditBan.name(), i64_to_string(UserState::ProfileEditBan.value() as i64)),
    ];
    proof {
        assert(pairs_text(r@) =~= user_state_pairs_text());
    }
    r
}

/// The (name, JSON value) pairs of `Flags`, in order; its values are written as numbers.
pub open spec fn flags_pairs_text() -> Seq<(Seq<char>, Seq<char>)> {
    seq![(Flags::Unlocked.label(), int_decimal(Flags::Unlocked.code() as int)), (Flags::EditLocked.label(), int_decimal(Flags::EditLocked.code() as int)), (Flags::StaffLocked.label(), int_decimal(Flags::StaffLocked.code() as int)), (Flags::StatsLocked.label(), int_decimal(Flags::StatsLocked.code() as int)), (Flags::VoteLocked.label(), int_decimal(Flags::VoteLocked.code() as int)), (Flags::System.label(), int_decimal(Flags::System.code() as int)), (Flags::WhitelistOnly.label(), int_decimal(Flags::WhitelistOnly.code() as int)), (Flags::KeepBannerDecor.label(), int_decimal(Flags::KeepBannerDecor.code() as int)), (Flags::NSFW.label(), int_decimal(Flags::NSFW.code() as int)), (Flags::LoginRequired.label(), int_decimal(Flags::LoginRequired.code() as int))]
}

fn flags_pairs() -> (r: Vec<(String, String)>)
    ensures
        pairs_text(r@) == flags_pairs_text(),
{
    let r = vec![
        (Flags::Unlocked.name(), i64_to_string(Flags::Unlocked.value() as i64)),
        (Flags::EditLocked.name(), i64_to_string(Flags::EditLocked.value() as i64)),
        (Flags::StaffLocked.name(), i64_to_string(Flags::StaffLocked.value() as i64)),
        (Flags::StatsLocked.name(), i64_to_string(Flags::StatsLocked.value() as i64)),
        (Flags::VoteLocked.name(), i64_to_string(Flags::VoteLocked.value() as i64)),
        (Flags::System.name(), i64_to_string(Flags::System.value() as i64)),
        (Flags::WhitelistOnly.name(), i64_to_string(Flags::WhitelistOnly.value() as i64)),
        (Flags::KeepBannerDecor.name(), i64_to_string(Flags::KeepBannerDecor.value() as i64)),
        (Flags::NSFW.name(), i64_to_string(Flags::NSFW.value() as i64)),
        (Flags::LoginRequired.name(), i64_to_string(Flags::LoginRequired.value() as i64)),
    ];
    proof {
        assert(pairs_text(r@) =~= flags_pairs_text());
    }
    r
}

/// The (name, JSON value) pairs of `UserFlags`, in order; its values are written as numbers.
pub open spec fn user_flags_pairs_text() -> Seq<(Seq<char>, Seq<char>)> {
    seq![(UserFlags::Unknown.label(), int_decimal(UserFlags::Unknown.code() as int)), (UserFlags::VotesPrivate.label(), int_decimal(UserFlags::VotesPrivate.code() as int)), (UserFlags::Staff.label(), int_decimal(UserFlags::Staff.code() as int)), (UserFlags::AvidVoter.label(), int_decimal(UserFlags::AvidVoter.code() as int))]
}

fn user_flags_pairs() -> (r: Vec<(String, String)>)
    ensures
        pairs_text(r@) == user_flags_pairs_text(),
{
    let r = vec![
        (UserFlags::Unknown.name(), i64_to_string(UserFlags::Unknown.value() as i64)),
        (UserFlags::VotesPrivate.name(), i64_to_string(UserFlags::VotesPrivate.value() as i64)),
        (UserFlags::Staff.name(), i64_to_string(UserFlags::Staff.value() as i64)),
        (UserFlags::AvidVoter.name(), i64_to_string(UserFlags::AvidVoter.value() as i64)),
    ];
    proof {
        assert(pairs_text(r@) =~= user_flags_pairs_text());
    }
    r
}

/// The (name, JSON value) pairs of `UserExperiments`, in order; its values are written as numbers.
pub open spec fn user_experiments_pairs_text() -> Seq<(Seq<char>, Seq<char>)> {
    seq![(UserExperiments::Unknown.label(), int_decimal(UserExperiments::Unknown.code() as int)), (UserExperiments::GetRoleSelector.label(), int_decimal(UserExperiments::GetRoleSelector.code() as int)), (UserExperiments::LynxExperimentRolloutView.label(), int_decimal(UserExperiments::LynxExperimentRolloutView.code() as int)), (UserExperiments::BotReport.label(), int_decimal(UserExperiments::BotReport.code() as int)), (UserExperiments::ServerAppealCertification.label(), int_decimal(UserExperiments::ServerAppealCertification.code() as int)), (UserExperiments::UserVotePrivacy.label(), int_decimal(UserExperiments::UserVotePrivacy.code() as int)), (UserExperiments::DevPortal.label(), int_decimal(UserExperiments::DevPortal.code() as int))]
}

fn user_experiments_pairs() -> (r: Vec<(String, String)>)
    ensures
        pairs_text(r@) == user_experiments_pairs_text(),
{
    let r = vec![
        (UserExperiments::Unknown.name(), i64_to_string(UserExperiments::Unknown.value() as i64)),
        (UserExperiments::GetRoleSelector.name(), i64_to_string(UserExperiments::GetRoleSelector.value() as i64)),
        (UserExperiments::LynxExperimentRolloutView.name(), i64_to_string(UserExperiments::LynxExperimentRolloutView.value() as i64)),
        (UserExperiments::BotReport.name(), i64_to_string(UserExperiments::BotReport.value() as i64)),
        (UserExperiments::ServerAppealCertification.name(), i64_to_string(UserExperiments::ServerAppealCertification.value() as i64)),
        (UserExperiments::UserVotePrivacy.name(), i64_to_string(UserExperiments::UserVotePrivacy.value() as i64)),
        (UserExperiments::DevPortal.name(), i64_to_string(UserExperiments::DevPortal.value() as i64)),
    ];
    proof {
        assert(pairs_text(r@) =~= user_experiments_pairs_text());
    }
    r
}

/// The (name, JSON value) pairs of `Status`, in order; its values are written as numbers.
pub open spec fn status_pairs_text() -> Seq<(Seq<char>, Seq<char>)> {
    seq![(Status::Unknown.label(), int_decimal(Status::Unknown.code() as int)), (Status::Online.label(), int_decimal(Status::Online.code() as int)), (Status::Offline.label(), int_decimal(Status::Offline.code() as int)), (Status::Idle.label(), int_decimal(Status::Idle.code() as int)), (Status::DoNotDisturb.label(), int_decimal(Status::DoNotDisturb.code() as int))]
}

fn status_pairs() -> (r: Vec<(String, String)>)
    ensures
        pairs_text(r@) == status_pairs_text(),
{
    let r = vec![
        (Status::Unknown.name(), i64_to_string(Status::Unknown.value() as i64)),
        (Status::Online.name(), i64_to_string(Status::Online.value() as i64)),
        (Status::Offline.name(), i64_to_string(Status::Offline.value() as i64)),
        (Status::Idle.name(), i64_to_string(Status::Idle.value() as i64)),
        (Status::DoNotDisturb.name(), i64_to_string(Status::DoNotDisturb.value() as i64)),
    ];
    proof {
        assert(pairs_text(r@) =~= status_pairs_text());
    }
    r
}

/// The (name, JSON value) pairs of `CommandType`, in order; its values are written as numbers.
pub open spec fn command_type_pairs_text() -> Seq<(Seq<char>, Seq<char>)> {
    seq![(CommandType::PrefixCommand.label(), int_decimal(CommandType::PrefixCommand.code() as int)), (CommandType::SlashCommandGlobal.label(), int_decimal(CommandType::SlashCommandGlobal.code() as int)), (CommandType::SlashCommandGuild.label(), int_decimal(CommandType::SlashCommandGuild.code() as int))]
}

fn command_type_pairs() -> (r: Vec<(String, String)>)
    ensures
        pairs_text(r@) == command_type_pairs_text(),
{
    let r = vec![
        (CommandType::PrefixCommand.name(), i64_to_string(CommandType::PrefixCommand.value() as i64)),
        (CommandType::SlashCommandGlobal.name(), i64_to_string(CommandType::SlashCommandGlobal.value() as i64)),
        (CommandType::SlashCommandGuild.name(), i64_to_string(CommandType::SlashCommandGuild.value() as i64)),
    ];
    proof {
        assert(pairs_text(r@) =~= command_type_pairs_text());
    }
    r
}

/// The (name, JSON value) pairs of `ImportSource`, in order; its values are written as JSON strings.
pub open spec fn import_source_pairs_text() -> Seq<(Seq<char>, Seq<char>)> {
    seq![(source_label(ImportSource::Rdl), "\"Rdl\""@), (source_label(ImportSource::Ibl), "\"Ibl\""@), (source_label(ImportSource::Custom), "\"Custom\""@), (source_label(ImportSource::Other), "\"Other\""@)]
}

fn import_source_pairs() -> (r: Vec<(String, String)>)
    ensures
        pairs_text(r@) == import_source_pairs_text(),
{
    let r = vec![
        (String::from_str("Rdl"), String::from_str("\"Rdl\"")),
        (String::from_str("Ibl"), String::from_str("\"Ibl\"")),
        (String::from_str("Custom"), String::from_str("\"Custom\"")),
        (String::from_str("Other"), String::from_str("\"Other\"")),
    ];
    proof {
        assert(pairs_text(r@) =~= import_source_pairs_text());
    }
    r
}

/// The (name, JSON value) pairs of `PageStyle`, in order; its values are written as numbers.
pub open spec fn page_style_pairs_text() -> Seq<(Seq<char>, Seq<char>)> {
    seq![(PageStyle::Tabs.label(), int_decimal(PageStyle::Tabs.code() as int)), (PageStyle::SingleScroll.label(), int_decimal(PageStyle::SingleScroll.code() as int))]
}

fn page_style_pairs() -> (r: Vec<(String, String)>)
    ensures
        pairs_text(r@) == page_style_pairs_text(),
{
    let r = vec![
        (PageStyle::Tabs.name(), i64_to_string(PageStyle::Tabs.value() as i64)),
        (PageStyle::SingleScroll.name(), i64_to_string(PageStyle::SingleScroll.value() as i64)),
    ];
    proof {
        assert(pairs_text(r@) =~= page_style_pairs_text());
    }
    r
}

/// The (name, JSON value) pairs of `WebhookType`, in order; its values are written as numbers.
pub open spec fn webhook_type_pairs_text() -> Seq<(Seq<char>, Seq<char>)> {
    seq![(WebhookType::Vote.label(), int_decimal(WebhookType::Vote.code() as int)), (WebhookType::DiscordIntegration.label(), int_decimal(WebhookType::DiscordIntegration.code() as int)), (WebhookType::DeprecatedFatesClient.label(), int_decimal(WebhookType::DeprecatedFatesClient.code() as int))]
}

fn webhook_type_pairs() -> (r: Vec<(String, String)>)
    ensures
        pairs_text(r@) == webhook_type_pairs_text(),
{
    let r = vec![
        (WebhookType::Vote.name(), i64_to_string(WebhookType::Vote.value() as i64)),
        (WebhookType::DiscordIntegration.name(), i64_to_string(WebhookType::DiscordIntegration.value() as i64)),
        (WebhookType::DeprecatedFatesClient.name(), i64_to_string(WebhookType::DeprecatedFatesClient.value() as i64)),
    ];
    proof {
        assert(pairs_text(r@) =~= webhook_type_pairs_text());
    }
    r
}

/// The (name, JSON value) pairs of `EventName`, in order; its values are written as numbers.
pub open spec fn event_name_pairs_text() -> Seq<(Seq<char>, Seq<char>)> {
    seq![(EventName::BotVote.label(), int_decimal(EventName::BotVote.code() as int)), (EventName::BotEdit.label(), int_decimal(EventName::BotEdit.code() as int)), (EventName::BotDelete.label(), int_decimal(EventName::BotDelete.code() as int)), (EventName::BotClaim.label(), int_decimal(EventName::BotClaim.code() as int)), (EventName::BotApprove.label(), int_decimal(EventName::BotApprove.code() as int)), (EventName::BotDeny.label(), int_decimal(EventName::BotDeny.code() as int)), (EventName::BotBan.label(), int_decimal(EventName::BotBan.code() as int)), (EventName::BotUnban.label(), int_decimal(EventName::BotUnban.code() as int)), (EventName::BotRequeue.label(), int_decimal(EventName::BotRequeue.code() as int)), (EventName::BotCertify.label(), int_decimal(EventName::BotCertify.code() as int)), (EventName::BotUncertify.label(), int_decimal(EventName::BotUncertify.code() as int)), (EventName::BotTransfer.label(), int_decimal(EventName::BotTransfer.code() as int)), (EventName::BotUnverify.label(), int_decimal(EventName::BotUnverify.code() as int)), (EventName::BotView.label(), int_decimal(EventName::BotView.code() as int)), (EventName::BotInvite.label(), int_decimal(EventName::BotInvite.code() as int)), (EventName::BotUnclaim.label(), int_decimal(EventName::BotUnclaim.code() as int)), (EventName::BotVoteReset.label(), int_decimal(EventName::BotVoteReset.code() as int)), (EventName::BotLock.label(), int_decimal(EventName::BotLock.code() as int)), (EventName::BotUnlock.label(), int_decimal(EventName::BotUnlock.code() as int)), (EventName::ReviewVote.label(), int_decimal(EventName::ReviewVote.code() as int)), (EventName::ReviewAdd.label(), int_decimal(EventName::ReviewAdd.code() as int)), (EventName::ReviewEdit.label(), int_decimal(EventName::ReviewEdit.code() as int)), (EventName::ReviewDelete.label(), int_decimal(EventName::ReviewDelete.code() as int)), (EventName::ResourceAdd.label(), int_decimal(EventName::ResourceAdd.code() as int)), (EventName::ResourceDelete.label(), int_decimal(EventName::ResourceDelete.code() as int)), (EventName::CommandAdd.label(), int_decimal(EventName::CommandAdd.code() as int)), (EventName::CommandDelete.label(), int_decimal(EventName::CommandDelete.code() as int)), (EventName::ServerView.label(), int_decimal(EventName::ServerView.code() as int)), (EventName::ServerVote.label(), int_decimal(EventName::ServerVote.code() as int)), (EventName::ServerInvite.label(), int_decimal(EventName::ServerInvite.code() as int))]
}

fn event_name_pairs() -> (r: Vec<(String, String)>)
    ensures
        pairs_text(r@) == event_name_pairs_text(),
{
    let r = vec![
        (EventName::BotVote.name(), i64_to_string(EventName::BotVote.value() as i64)),
        (EventName::BotEdit.name(), i64_to_string(EventName::BotEdit.value() as i64)),
        (EventName::BotDelete.name(), i64_to_string(EventName::BotDelete.value() as i64)),
        (EventName::BotClaim.name(), i64_to_string(EventName::BotClaim.value() as i64)),
        (EventName::BotApprove.name(), i64_to_string(EventName::BotApprove.value() as i64)),
        (EventName::BotDeny.name(), i64_to_string(EventName::BotDeny.value() as i64)),
        (EventName::BotBan.name(), i64_to_string(EventName::BotBan.value() as i64)),
        (EventName::BotUnban.name(), i64_to_string(EventName::BotUnban.value() as i64)),
        (EventName::BotRequeue.name(), i64_to_string(EventName::BotRequeue.value() as i64)),
        (EventName::BotCertify.name(), i64_to_string(EventName::BotCertify.value() as i64)),
        (EventName::BotUncertify.name(), i64_to_string(EventName::BotUncertify.value() as i64)),
        (EventName::BotTransfer.name(), i64_to_string(EventName::BotTransfer.value() as i64)),
        (EventName::BotUnverify.name(), i64_to_string(EventName::BotUnverify.value() as i64)),
        (EventName::BotView.name(), i64_to_string(EventName::BotView.value() as i64)),
        (EventName::BotInvite.name(), i64_to_string(EventName::BotInvite.value() as i64)),
        (EventName::BotUnclaim.name(), i64_to_string(EventName::BotUnclaim.value() as i64)),
        (EventName::BotVoteReset.name(), i64_to_string(EventName::BotVoteReset.value() as i64)),
        (EventName::BotLock.name(), i64_to_string(EventName::BotLock.value() as i64)),
        (EventName::BotUnlock.name(), i64_to_string(EventName::BotUnlock.value() as i64)),
        (EventName::ReviewVote.name(), i64_to_string(EventName::ReviewVote.value() as i64)),
        (EventName::ReviewAdd.name(), i64_to_string(EventName::ReviewAdd.value() as i64)),
        (EventName::ReviewEdit.name(), i64_to_string(EventName::ReviewEdit.value() as i64)),
        (EventName::ReviewDelete.name(), i64_to_string(EventName::ReviewDelete.value() as i64)),
        (EventName::ResourceAdd.name(), i64_to_string(EventName::ResourceAdd.value() as i64)),
        (EventName::ResourceDelete.name(), i64_to_string(EventName::ResourceDelete.value() as i64)),
        (EventName::CommandAdd.name(), i64_to_string(EventName::CommandAdd.value() as i64)),
        (EventName::CommandDelete.name(), i64_to_string(EventName::CommandDelete.value() as i64)),
        (EventName::ServerView.name(), i64_to_string(EventName::ServerView.value() as i64)),
        (EventName::ServerVote.name(), i64_to_string(EventName::ServerVote.value() as i64)),
        (EventName::ServerInvite.name(), i64_to_string(EventName::ServerInvite.value() as i64)),
    ];
    proof {
        assert(pairs_text(r@) =~= event_name_pairs_text());
    }
    r
}

/// The (name, JSON value) pairs of `UserBotAction`, in order; its values are written as numbers.
pub open spec fn user_bot_action_pairs_text() -> Seq<(Seq<char>, Seq<char>)> {
    seq![(UserBotAction::Approve.label(), int_decimal(UserBotAction::Approve.code() as int)), (UserBotAction::Deny.label(), int_decimal(UserBotAction::Deny.code() as int)), (UserBotAction::Certify.label(), int_decimal(UserBotAction::Certify.code() as int)), (UserBotAction::Ban.label(), int_decimal(UserBotAction::Ban.code() as int)), (UserBotAction::Claim.label(), int_decimal(UserBotAction::Claim.code() as int)), (UserBotAction::Unclaim.label(), int_decimal(UserBotAction::Unclaim.code() as int)), (UserBotAction::TransferOwnership.label(), int_decimal(UserBotAction::TransferOwnership.code() as int)), (UserBotAction::EditBot.label(), int_decimal(UserBotAction::EditBot.code() as int)), (UserBotAction::DeleteBot.label(), int_decimal(UserBotAction::DeleteBot.code() as int)), (UserBotAction::Unban.label(), int_decimal(UserBotAction::Unban.code() as int)), (UserBotAction::Uncertify.label(), int_decimal(UserBotAction::Uncertify.code() as int)), (UserBotAction::Unverify.label(), int_decimal(UserBotAction::Unverify.code() as int)), (UserBotAction::Requeue.label(), int_decimal(UserBotAction::Requeue.code() as int))]
}

fn user_bot_action_pairs() -> (r: Vec<(String, String)>)
    ensures
        pairs_text(r@) == user_bot_action_pairs_text(),
{
    let r = vec![
        (UserBotAction::Approve.name(), i64_to_string(UserBotAction::Approve.value() as i64)),
        (UserBotAction::Deny.name(), i64_to_string(UserBotAction::Deny.value() as i64)),
        (UserBotAction::Certify.name(), i64_to_string(UserBotAction::Certify.value() as i64)),
        (UserBotAction::Ban.name(), i64_to_string(UserBotAction::Ban.value() as i64)),
        (UserBotAction::Claim.name(), i64_to_string(UserBotAction::Claim.value() as i64)),
        (UserBotAction::Unclaim.name(), i64_to_string(UserBotAction::Unclaim.value() as i64)),
        (UserBotAction::TransferOwnership.name(), i64_to_string(UserBotAction::TransferOwnership.value() as i64)),
        (UserBotAction::EditBot.name(), i64_to_string(UserBotAction::EditBot.value() as i64)),
        (UserBotAction::DeleteBot.name(), i64_to_string(UserBotAction::DeleteBot.value() as i64)),
        (UserBotAction::Unban.name(), i64_to_string(UserBotAction::Unban.value() as i64)),
        (UserBotAction::Uncertify.name(), i64_to_string(UserBotAction::Uncertify.value() as i64)),
        (UserBotAction::Unverify.name(), i64_to_string(UserBotAction::Unverify.value() as i64)),
        (UserBotAction::Requeue.name(), i64_to_string(UserBotAction::Requeue.value() as i64)),
    ];
    proof {
        assert(pairs_text(r@) =~= user_bot_action_pairs_text());
    }
    r
}

/// The (name, JSON value) pairs of `AppealType`, in order; its values are written as numbers.
pub open spec fn appeal_type_pairs_text() -> Seq<(Seq<char>, Seq<char>)> {
    seq![(AppealType::Appeal.label(), int_decimal(AppealType::Appeal.code() as int)), (AppealType::Certification.label(), int_decimal(AppealType::Certification.code() as int)), (AppealType::Report.label(), int_decimal(AppealType::Report.code() as int))]
}

fn appeal_type_pairs() -> (r: Vec<(String, String)>)
    ensures
        pairs_text(r@) == appeal_type_pairs_text(),
{
    let r = vec![
        (AppealType::Appeal.name(), i64_to_string(AppealType::Appeal.value() as i64)),
        (AppealType::Certification.name(), i64_to_string(AppealType::Certification.value() as i64)),
        (AppealType::Report.name(), i64_to_string(AppealType::Report.value() as i64)),
    ];
    proof {
        assert(pairs_text(r@) =~= appeal_type_pairs_text());
    }
    r
}

/// The (name, JSON value) pairs of `TargetType`, in order; its values are written as numbers.
pub open spec fn target_type_pairs_text() -> Seq<(Seq<char>, Seq<char>)> {
    seq![(TargetType::Bot.label(), int_decimal(TargetType::Bot.code() as int)), (TargetType::Server.label(), int_decimal(TargetType::Server.code() as int))]
}

fn target_type_pairs() -> (r: Vec<(String, String)>)
    ensures
        pairs_text(r@) == target_type_pairs_text(),
{
    let r = vec![
        (TargetType::Bot.name(), i64_to_string(TargetType::Bot.value() as i64)),
        (TargetType::Server.name(), i64_to_string(TargetType::Server.value() as i64)),
    ];
    proof {
        assert(pairs_text(r@) =~= target_type_pairs_text());
    }
    r
}

/// The start of the enum reference.
pub open spec fn enum_docs_header() -> Seq<char> {
    "Below is a reference of all the enums used in Fates List, \n    \nIt is semi-automatically generated\n"@
}

/// The end of the enum reference.
pub open spec fn enum_docs_footer() -> Seq<char> {
    "To see errors, please see https://github.com/Fates-List/api-v3/blob/main/src/models.rs and search for all ``APIError`` trait implementations"@
}

/// The section of the enum reference on `LongDescriptionType`.
#[verifier::opaque]
pub open spec fn long_description_type_section() -> Seq<char> {
    enum_section("LongDescriptionType"@, "The type of long description that the bot/server has opted for"@, key_list(seq!["long_description_type"@]), enum_rows(long_description_type_pairs_text()))
}

/// The section of the enum reference on `State`.
#[verifier::opaque]
pub open spec fn state_section() -> Seq<char> {
    enum_section("State"@, "The state of the bot or server (approved, denied etc.)"@, key_list(seq!["state"@]), enum_rows(state_pairs_text()))
}

/// The section of the enum reference on `UserState`.
#[verifier::opaque]
pub open spec fn user_state_section() -> Seq<char> {
    enum_section("UserState"@, "The state of the user (normal, banned etc.)"@, key_list(seq!["state"@]), enum_rows(user_state_pairs_text()))
}

/// The section of the enum reference on `Flags`.
#[verifier::opaque]
pub open spec fn flags_section() -> Seq<char> {
    enum_section("Flags"@, "The flags of the bot or server (system bot etc)"@, key_list(seq!["flags"@]), enum_rows(flags_pairs_text()))
}

/// The section of the enum reference on `UserFlags`.
#[verifier::opaque]
pub open spec fn user_flags_section() -> Seq<char> {
    enum_section("UserFlags"@, "The flags of the user (such as vote privacy)"@, key_list(seq!["flags"@]), enum_rows(user_flags_pairs_text()))
}

/// The section of the enum reference on `UserExperiments`.
#[verifier::opaque]
pub open spec fn user_experiments_section() -> Seq<char> {
    enum_section("UserExperiments"@, "All available user experiments"@, key_list(seq!["user_experiments"@]), enum_rows(user_experiments_pairs_text()))
}

/// The section of the enum reference on `Status`.
#[verifier::opaque]
pub open spec fn status_section() -> Seq<char> {
    enum_section("Status"@, "The status of the user. **Due to bugs, this currently shows Unknown only but this will be fixed soon!**"@, key_list(seq!["flags"@]), enum_rows(status_pairs_text()))
}

/// The section of the enum reference on `CommandType`.
#[verifier::opaque]
pub open spec fn command_type_section() -> Seq<char> {
    enum_section("CommandType"@, "The type of the command being posted (prefix, guild-only etc)"@, key_list(seq!["cmd_type"@]), enum_rows(command_type_pairs_text()))
}

/// The section of the enum reference on `ImportSource`.
#[verifier::opaque]
pub open spec fn import_source_section() -> Seq<char> {
    enum_section("ImportSource"@, "The source to import bots from"@, key_list(seq!["src (query parameter)"@]), enum_rows(import_source_pairs_text()))
}

/// The section of the enum reference on `PageStyle`.
#[verifier::opaque]
pub open spec fn page_style_section() -> Seq<char> {
    enum_section("PageStyle"@, "The style/theme of the bot page. Servers always use single-page view"@, key_list(seq!["page_style"@]), enum_rows(page_style_pairs_text()))
}

/// The section of the enum reference on `WebhookType`.
#[verifier::opaque]
pub open spec fn webhook_type_section() -> Seq<char> {
    enum_section("WebhookType"@, "The type of webhook being used"@, key_list(seq!["webhook_type"@]), enum_rows(webhook_type_pairs_text()))
}

/// The section of the enum reference on `EventName`.
#[verifier::opaque]
pub open spec fn event_name_section() -> Seq<char> {
    enum_section("EventName"@, "The name of the event being sent and its corresponding number"@, key_list(seq!["e"@, "...(non-exhaustive list, use context and it should be self-explanatory)"@]), enum_rows(event_name_pairs_text()))
}

/// The section of the enum reference on `UserBotAction`.
#[verifier::opaque]
pub open spec fn user_bot_action_section() -> Seq<char> {
    enum_section("UserBotAction"@, "The name of the event being sent and its corresponding number"@, key_list(seq!["action"@]), enum_rows(user_bot_action_pairs_text()))
}

/// The section of the enum reference on `AppealType`.
#[verifier::opaque]
pub open spec fn appeal_type_section() -> Seq<char> {
    enum_section("AppealType"@, "The type of appeal being sent"@, key_list(seq!["request_type"@]), enum_rows(appeal_type_pairs_text()))
}

/// The section of the enum reference on `TargetType`.
#[verifier::opaque]
pub open spec fn target_type_section() -> Seq<char> {
    enum_section("TargetType"@, "The type of the entity (bot/server)"@, key_list(seq!["target_type"@]), enum_rows(target_type_pairs_text()))
}

/// The enum reference: every enum of the API with its JSON keys and values.
pub open spec fn enum_docs_text() -> Seq<char> {
    enum_docs_header()
        + long_description_type_section()
        + state_section()
        + user_state_section()
        + flags_section()
        + user_flags_section()
        + user_experiments_section()
        + status_section()
        + command_type_section()
        + import_source_section()
        + page_style_section()
        + webhook_type_section()
        + event_name_section()
        + user_bot_action_section()
        + appeal_type_section()
        + target_type_section()
        + enum_docs_footer()
}

fn enum_part(name: &str, keys: &Vec<&str>, description: &str, pairs: Vec<(String, String)>) -> (r: String)
    ensures
        r@ == enum_section(name@, description@, key_list(keys@.map_values(|s: &str| s@)), enum_rows(pairs_text(pairs@))),
{
    let docs = enum_table(&pairs);
    let mut alt_names: Vec<String> = Vec::new();
    let mut i: usize = 0;
    while i < keys.len()
        invariant
            i <= keys@.len(),
            alt_names@.map_values(|s: String| s@) == keys@.map_values(|s: &str| s@).subrange(0, i as int),
        decreases keys.len() - i,
    {
        let ghost before = alt_names@.map_values(|s: String| s@);
        alt_names.push(String::from_str(keys[i]));
        proof {
            assert(alt_names@.map_values(|s: String| s@) =~= before.push(keys@[i as int]@));
            assert(keys@.map_values(|s: &str| s@).subrange(0, i + 1) =~= keys@.map_values(|s: &str| s@).subrange(0, i as int).push(keys@[i as int]@));
        }
        i = i + 1;
    }
    proof {
        assert(keys@.map_values(|s: &str| s@).subrange(0, keys@.len() as int) =~= keys@.map_values(|s: &str| s@));
    }
    new_enum(EnumDesc {
        name: String::from_str(name),
        description: String::from_str(description),
        alt_names,
        docs,
    })
}

fn long_description_type_docs() -> (r: String)
    ensures
        r@ == long_description_type_section(),
{
    let keys = vec!["long_description_type"];
    proof {
        assert(keys@.map_values(|s: &str| s@) =~= seq!["long_description_type"@]);
    }
    let part = enum_part("LongDescriptionType", &keys, "The type of long description that the bot/server has opted for", long_description_type_pairs());
    proof {
        reveal(long_description_type_section);
    }
    part
}

fn state_docs() -> (r: String)
    ensures
        r@ == state_section(),
{
    let keys = vec!["state"];
    proof {
        assert(keys@.map_values(|s: &str| s@) =~= seq!["state"@]);
    }
    let part = enum_part("State", &keys, "The state of the bot or server (approved, denied etc.)", state_pairs());
    proof {
        reveal(state_section);
    }
    part
}

fn user_state_docs() -> (r: String)
    ensures
        r@ == user_state_section(),
{
    let keys = vec!["state"];
    proof {
        assert(keys@.map_values(|s: &str| s@) =~= seq!["state"@]);
    }
    let part = enum_part("UserState", &keys, "The state of the user (normal, banned etc.)", user_state_pairs());
    proof {
        reveal(user_state_section);
    }
    part
}

fn flags_docs() -> (r: String)
    ensures
        r@ == flags_section(),
{
    let keys = vec!["flags"];
    proof {
        assert(keys@.map_values(|s: &str| s@) =~= seq!["flags"@]);
    }
    let part = enum_part("Flags", &keys, "The flags of the bot or server (system bot etc)", flags_pairs());
    proof {
        reveal(flags_section);
    }
    part
}

fn user_flags_docs() -> (r: String)
    ensures
        r@ == user_flags_section(),
{
    let keys = vec!["flags"];
    proof {
        assert(keys@.map_values(|s: &str| s@) =~= seq!["flags"@]);
    }
    let part = enum_part("UserFlags", &keys, "The flags of the user (such as vote privacy)", user_flags_pairs());
    proof {
        reveal(user_flags_section);
    }
    part
}

fn user_experiments_docs() -> (r: String)
    ensures
        r@ == user_experiments_section(),
{
    let keys = vec!["user_experiments"];
    proof {
        assert(keys@.map_values(|s: &str| s@) =~= seq!["user_experiments"@]);
    }
    let part = enum_part("UserExperiments", &keys, "All available user experiments", user_experiments_pairs());
    proof {
        reveal(user_experiments_section);
    }
    part
}

fn status_docs() -> (r: String)
    ensures
        r@ == status_section(),
{
    let keys = vec!["flags"];
    proof {
        assert(keys@.map_values(|s: &str| s@) =~= seq!["flags"@]);
    }
    let part = enum_part("Status", &keys, "The status of the user. **Due to bugs, this currently shows Unknown only but this will be fixed soon!**", status_pairs());
    proof {
        reveal(status_section);
    }
    part
}

fn command_type_docs() -> (r: String)
    ensures
        r@ == command_type_section(),
{
    let keys = vec!["cmd_type"];
    proof {
        assert(keys@.map_values(|s: &str| s@) =~= seq!["cmd_type"@]);
    }
    let part = enum_part("CommandType", &keys, "The type of the command being posted (prefix, guild-only etc)", command_type_pairs());
    proof {
        reveal(command_type_section);
    }
    part
}

fn import_source_docs() -> (r: String)
    ensures
        r@ == import_source_section(),
{
    let keys = vec!["src (query parameter)"];
    proof {
        assert(keys@.map_values(|s: &str| s@) =~= seq!["src (query parameter)"@]);
    }
    let part = enum_part("ImportSource", &keys, "The source to import bots from", import_source_pairs());
    proof {
        reveal(import_source_section);
    }
    part
}

fn page_style_docs() -> (r: String)
    ensures
        r@ == page_style_section(),
{
    let keys = vec!["page_style"];
    proof {
        assert(keys@.map_values(|s: &str| s@) =~= seq!["page_style"@]);
    }
    let part = enum_part("PageStyle", &keys, "The style/theme of the bot page. Servers always use single-page view", page_style_pairs());
    proof {
        reveal(page_style_section);
    }
    part
}

fn webhook_type_docs() -> (r: String)
    ensures
        r@ == webhook_type_section(),
{
    let keys = vec!["webhook_type"];
    proof {
        assert(keys@.map_values(|s: &str| s@) =~= seq!["webhook_type"@]);
    }
    let part = enum_part("WebhookType", &keys, "The type of webhook being used", webhook_type_pairs());
    proof {
        reveal(webhook_type_section);
    }
    part
}

fn event_name_docs() -> (r: String)
    ensures
        r@ == event_name_section(),
{
    let keys = vec!["e", "...(non-exhaustive list, use context and it should be self-explanatory)"];
    proof {
        assert(keys@.map_values(|s: &str| s@) =~= seq!["e"@, "...(non-exhaustive list, use context and it should be self-explanatory)"@]);
    }
    let part = enum_part("EventName", &keys, "The name of the event being sent and its corresponding number", event_name_pairs());
    proof {
        reveal(event_name_section);
    }
    part
}

fn user_bot_action_docs() -> (r: String)
    ensures
        r@ == user_bot_action_section(),
{
    let keys = vec!["action"];
    proof {
        assert(keys@.map_values(|s: &str| s@) =~= seq!["action"@]);
    }
    let part = enum_part("UserBotAction", &keys, "The name of the event being sent and its corresponding number", user_bot_action_pairs());
    proof {
        reveal(user_bot_action_section);
    }
    part
}

fn appeal_type_docs() -> (r: String)
    ensures
        r@ == appeal_type_section(),
{
    let keys = vec!["request_type"];
    proof {
        assert(keys@.map_values(|s: &str| s@) =~= seq!["request_type"@]);
    }
    let part = enum_part("AppealType", &keys, "The type of appeal being sent", appeal_type_pairs());
    proof {
        reveal(appeal_type_section);
    }
    part
}

fn target_type_docs() -> (r: String)
    ensures
        r@ == target_type_section(),
{
    let keys = vec!["target_type"];
    proof {
        assert(keys@.map_values(|s: &str| s@) =~= seq!["target_type"@]);
    }
    let part = enum_part("TargetType", &keys, "The type of the entity (bot/server)", target_type_pairs());
    proof {
        reveal(target_type_section);
    }
    part
}

/// Writes the enum reference (see `enum_docs_text`).
pub fn document_enums() -> (r: String)
    ensures
        r@ == enum_docs_text(),
{
    let mut docs = String::from_str("Below is a reference of all the enums used in Fates List, \n    \nIt is semi-automatically generated\n");
    docs.append(long_description_type_docs().as_str());
    docs.append(state_docs().as_str());
    docs.append(user_state_docs().as_str());
    docs.append(flags_docs().as_str());
    docs.append(user_flags_docs().as_str());
    docs.append(user_experiments_docs().as_str());
    docs.append(status_docs().as_str());
    docs.append(command_type_docs().as_str());
    docs.append(import_source_docs().as_str());
    docs.append(page_style_docs().as_str());
    docs.append(webhook_type_docs().as_str());
    docs.append(event_name_docs().as_str());
    docs.append(user_bot_action_docs().as_str());
    docs.append(appeal_type_docs().as_str());
    docs.append(target_type_docs().as_str());
    docs.append("To see errors, please see https://github.com/Fates-List/api-v3/blob/main/src/models.rs and search for all ``APIError`` trait implementations");
    docs
}

} // verus!
