//! Requests to staff: appeals, certification requests and reports.
use crate::enums::{AppealType, State, TargetType, UserExperiments};
use crate::errors::{opt_view, AppealError};
use crate::models::APIResponse;
use crate::text::{byte_len, has_prefix, starts_with, utf8_len};
use vstd::prelude::*;
use vstd::string::*;

verus! {

/// The experiment a user needs to send a request of this type about a bot or
/// server, if any: reports need the bot report experiment; any request about
/// a server that is not a report needs the server appeal experiment.
pub open spec fn needed_experiment(target: TargetType, request: AppealType) -> Option<UserExperiments> {
    if request == AppealType::Report {
        Some(UserExperiments::BotReport)
    } else if target == TargetType::Server {
        Some(UserExperiments::ServerAppealCertification)
    } else {
        None
    }
}

/// The experiment needed for a request (see `needed_experiment`) that the
/// user lacks, if any.
pub fn missing_experiment(target: TargetType, request: AppealType, enabled: &Vec<UserExperiments>) -> (r: Option<UserExperiments>)
    ensures
        r == match needed_experiment(target, request) {
            Some(x) => if enabled@.contains(x) { None } else { Some(x) },
            None => None,
        },
{
    let needed = if request == AppealType::Report {
        UserExperiments::BotReport
    } else if target == TargetType::Server {
        UserExperiments::ServerAppealCertification
    } else {
        return None;
    };
    let mut i: usize = 0;
    while i < enabled.len()
        invariant
            needed_experiment(target, request) == Some(needed),
            i <= enabled@.len(),
            forall|k: int| 0 <= k < i ==> enabled@[k] != needed,
        decreases enabled.len() - i,
    {
        if enabled[i] == needed {
            assert(enabled@[i as int] == needed);
            return None;
        }
        i = i + 1;
    }
    Some(needed)
}

/// The answer to a user without a needed experiment.
pub fn not_enabled(experiment: UserExperiments) -> (r: APIResponse)
    ensures
        !r.done,
        opt_view(r.reason) == Some("ExpNotEnabled"@),
        opt_view(r.context) == Some(experiment.label()),
{
    APIResponse { done: false, reason: Some(String::from_str("ExpNotEnabled")), context: Some(experiment.name()) }
}

/// A request text of 7 to 4000 bytes.
pub fn appeal_text_ok(text: &str) -> (r: bool)
    ensures
        r == (7 <= byte_len(text@) <= 4000),
{
    let n = utf8_len(text);
    !(n < 7 || n > 4000)
}

/// How a request is shown to staff: the name of its field, the title, and
/// what the user asks for.
pub open spec fn appeal_labels(request: AppealType) -> (Seq<char>, Seq<char>, Seq<char>) {
    match request {
        AppealType::Certification => ("Reason/What's Unique?"@, "Certification Request"@, "certification"@),
        AppealType::Appeal => ("Appeal"@, "Resubmission"@, "an appeal"@),
        AppealType::Report => ("Report"@, "Report"@, "a staff member to look into a report on"@),
    }
}

/// The labels of a request (see `appeal_labels`).
pub fn appeal_words(request: AppealType) -> (r: (&'static str, &'static str, &'static str))
    ensures
        (r.0@, r.1@, r.2@) == appeal_labels(request),
{
    match request {
        AppealType::Certification => ("Reason/What's Unique?", "Certification Request", "certification"),
        AppealType::Appeal => ("Appeal", "Resubmission", "an appeal"),
        AppealType::Report => ("Report", "Report", "a staff member to look into a report on"),
    }
}

/// A banner that certification accepts: set, and starting with `https://`.
pub open spec fn https_banner(b: Option<String>) -> bool {
    match b {
        Some(u) => has_prefix(u@, "https://"@),
        None => false,
    }
}

/// What keeps a bot or server from certification: not approved, no HTTPS
/// card or page banner, or fewer than 100 servers (members for a server).
pub open spec fn certification_refusal(
    target: TargetType,
    state: State,
    banner_card: Option<String>,
    banner_page: Option<String>,
    guild_count: i64,
) -> Option<AppealError> {
    if state != State::Approved {
        Some(AppealError::BotNotApproved)
    } else if !https_banner(banner_card) {
        Some(AppealError::NoBannerCard)
    } else if !https_banner(banner_page) {
        Some(AppealError::NoBannerPage)
    } else if guild_count < 100 {
        Some(if target == TargetType::Bot { AppealError::TooFewGuilds } else { AppealError::TooFewMembers })
    } else {
        None
    }
}

fn https(b: &Option<String>) -> (r: bool)
    ensures
        r == https_banner(*b),
{
    match b {
        Some(u) => starts_with(u.as_str(), "https://"),
        None => false,
    }
}

/// The checks of a certification request (see `certification_refusal`).
pub fn check_certification(
    target: TargetType,
    state: State,
    banner_card: &Option<String>,
    banner_page: &Option<String>,
    guild_count: i64,
) -> (r: Option<AppealError>)
    ensures
        r == certification_refusal(target, state, *banner_card, *banner_page, guild_count),
        r is None ==> state == State::Approved && guild_count >= 100,
        state == State::Approved && (*banner_card matches Some(u) && has_prefix(u@, "https://"@)) && (
        *banner_page matches Some(u) && has_prefix(u@, "https://"@)) && guild_count < 100 ==> r == Some(
            if target == TargetType::Bot { AppealError::TooFewGuilds } else { AppealError::TooFewMembers },
        ),
{
    if state != State::Approved {
        return Some(AppealError::BotNotApproved);
    }
    if !https(banner_card) {
        return Some(AppealError::NoBannerCard);
    }
    if !https(banner_page) {
        return Some(AppealError::NoBannerPage);
    }
    if guild_count < 100 {
        return Some(if target == TargetType::Bot { AppealError::TooFewGuilds } else { AppealError::TooFewMembers });
    }
    None
}

/// Law: only an approved target with HTTPS card and page banners and at
/// least 100 servers (members, for a server) may ask for certification;
/// an approved target with both banners but fewer than 100 is refused as
/// having too few guilds (a bot) or too few members (a server).
pub proof fn lemma_certification_needs_hundred(
    target: TargetType,
    state: State,
    banner_card: Option<String>,
    banner_page: Option<String>,
    guild_count: i64,
)
    ensures
        certification_refusal(target, state, banner_card, banner_page, guild_count) is None ==> {
            &&& state == State::Approved
            &&& guild_count >= 100
            &&& banner_card matches Some(u) && has_prefix(u@, "https://"@)
            &&& banner_page matches Some(u) && has_prefix(u@, "https://"@)
        },
        state == State::Approved && (banner_card matches Some(u) && has_prefix(u@, "https://"@)) && (
        banner_page matches Some(u) && has_prefix(u@, "https://"@)) && guild_count < 100 ==> certification_refusal(
            target,
            state,
            banner_card,
            banner_page,
            guild_count,
        ) == Some(if target == TargetType::Bot { AppealError::TooFewGuilds } else { AppealError::TooFewMembers }),
{
}

} // verus!
