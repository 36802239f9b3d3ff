//! Server listings: who gets an invite to a server, and the view events of
//! bot and server pages.
use crate::enums::{EventName, Flags, State, TargetType};
use crate::errors::GuildInviteError;
use crate::models::{BotViewProp, Event, EventContext, EventMeta, GuildInviteBaypawData};
use crate::text::{i64_to_string, int_decimal, lemma_split_from_len, nat_decimal, parse_i64, parsed_i64, split_at_char, split_char, str_eq, u64_to_string};
use vstd::prelude::*;
use vstd::string::*;

verus! {

/// What the database holds of a server's invite rules.
#[derive(Clone, Debug, PartialEq, Eq, Default)]
pub struct InviteRules {
    pub state: i32,
    pub invite_channel: Option<i64>,
    pub user_whitelist: Vec<i64>,
    pub user_blacklist: Vec<i64>,
    pub flags: Vec<i32>,
    pub whitelist_form: Option<String>,
    pub invite_url: Option<String>,
}

/// Where an invite comes from once the rules let the user in.
#[derive(Clone, Debug, PartialEq, Eq)]
pub enum InviteSource {
    /// The invite URL the server set.
    Fixed(String),
    /// The invite service, asked at this URL, for the given channel.
    Service { url: String, channel: i64 },
}

/// The text that points a user to the whitelist form.
pub open spec fn whitelist_text(form: Option<String>) -> Seq<char> {
    match form {
        None => "There is no form to get access to this server!"@,
        Some(f) => "<a href='"@ + f@ + "'>You can get access to this server here</a>"@,
    }
}

/// The state that a stored number stands for, approved when unknown.
pub open spec fn rules_state(rules: InviteRules) -> State {
    match State::decode(rules.state) {
        Some(s) => s,
        None => State::Approved,
    }
}

/// Whether the rules let `user_id` (`0` for a visitor who is not logged in)
/// get an invite, and if not, why: login is needed on a server that asks for
/// it or takes only whitelisted users; banned and denied servers, and those
/// under staff review, give none; whitelisted users get one; a server that
/// only shows itself gives none; a whitelist-only server points to its form;
/// blacklisted users get none.
pub open spec fn invite_refusal(rules: InviteRules, user_id: i64) -> Option<GuildInviteError> {
    let whitelist_only = rules.flags@.contains(Flags::WhitelistOnly.code());
    let login_required = rules.flags@.contains(Flags::LoginRequired.code()) || whitelist_only;
    let state = rules_state(rules);
    if login_required && user_id == 0 {
        Some(GuildInviteError::LoginRequired)
    } else if state == State::Banned || state == State::Denied {
        Some(GuildInviteError::ServerBanned)
    } else if state == State::PrivateStaffOnly {
        Some(GuildInviteError::StaffReview)
    } else if rules.user_whitelist@.contains(user_id) {
        None
    } else if state == State::PrivateViewable {
        Some(GuildInviteError::NotAcceptingInvites)
    } else if whitelist_only {
        None
    } else if rules.user_blacklist@.contains(user_id) {
        Some(GuildInviteError::Blacklisted)
    } else {
        None
    }
}

/// The rules send the user to the whitelist form.
pub open spec fn sent_to_form(rules: InviteRules, user_id: i64) -> bool {
    let whitelist_only = rules.flags@.contains(Flags::WhitelistOnly.code());
    let state = rules_state(rules);
    invite_refusal(rules, user_id) is None && !(rules.user_whitelist@.contains(user_id)) && state != State::PrivateViewable
        && whitelist_only && !(whitelist_only && user_id == 0)
}

/// The URL of the invite service for a server, user and channel.
pub open spec fn service_url(guild_id: i64, user_id: i64, channel: i64) -> Seq<char> {
    "http://127.0.0.1:1234/guild-invite?gid="@ + int_decimal(guild_id as int) + "&uid="@ + int_decimal(user_id as int)
        + "&cid="@ + int_decimal(channel as int)
}

fn has_code(v: &Vec<i32>, c: i32) -> (r: bool)
    ensures
        r == v@.contains(c),
{
    let mut i: usize = 0;
    while i < v.len()
        invariant
            i <= v@.len(),
            forall|k: int| 0 <= k < i ==> v@[k] != c,
        decreases v.len() - i,
    {
        if v[i] == c {
            assert(v@[i as int] == c);
            return true;
        }
        i = i + 1;
    }
    false
}

fn has_id(v: &Vec<i64>, c: i64) -> (r: bool)
    ensures
        r == v@.contains(c),
{
    let mut i: usize = 0;
    while i < v.len()
        invariant
            i <= v@.len(),
            forall|k: int| 0 <= k < i ==> v@[k] != c,
        decreases v.len() - i,
    {
        if v[i] == c {
            assert(v@[i as int] == c);
            return true;
        }
        i = i + 1;
    }
    false
}

/// Decides whether `user_id` gets an invite to server `guild_id` (see
/// `invite_refusal`), and where it comes from: the server's own invite URL
/// when it set one, else the invite service.
pub fn guild_invite(rules: &InviteRules, guild_id: i64, user_id: i64) -> (r: Result<InviteSource, GuildInviteError>)
    ensures
        sent_to_form(*rules, user_id) ==> (r matches Err(GuildInviteError::WhitelistRequired(t)) && t@ == whitelist_text(
            rules.whitelist_form,
        )),
        !sent_to_form(*rules, user_id) && invite_refusal(*rules, user_id) is Some ==> r == Err::<InviteSource, GuildInviteError>(
            invite_refusal(*rules, user_id)->0,
        ),
        !sent_to_form(*rules, user_id) && invite_refusal(*rules, user_id) is None ==> (match rules.invite_url {
            Some(u) if u@.len() > 0 => r == Ok::<InviteSource, GuildInviteError>(InviteSource::Fixed(u)),
            _ => r matches Ok(InviteSource::Service { url, channel }) && channel == (match rules.invite_channel {
                Some(c) => c,
                None => 0,
            }) && url@ == service_url(guild_id, user_id, channel),
        }),
{
    let whitelist_only = has_code(&rules.flags, Flags::WhitelistOnly.value());
    let login_required = has_code(&rules.flags, Flags::LoginRequired.value()) || whitelist_only;
    if login_required && user_id == 0 {
        return Err(GuildInviteError::LoginRequired);
    }
    let state = match State::from_value(rules.state) {
        Some(s) => s,
        None => State::Approved,
    };
    if state == State::Banned || state == State::Denied {
        return Err(GuildInviteError::ServerBanned);
    } else if state == State::PrivateStaffOnly {
        return Err(GuildInviteError::StaffReview);
    }
    if !has_id(&rules.user_whitelist, user_id) {
        if state == State::PrivateViewable {
            return Err(GuildInviteError::NotAcceptingInvites);
        } else if whitelist_only {
            let text = match &rules.whitelist_form {
                None => String::from_str("There is no form to get access to this server!"),
                Some(f) => {
                    let mut t = String::from_str("<a href='");
                    t.append(f.as_str());
                    t.append("'>You can get access to this server here</a>");
                    t
                },
            };
            return Err(GuildInviteError::WhitelistRequired(text));
        } else if has_id(&rules.user_blacklist, user_id) {
            return Err(GuildInviteError::Blacklisted);
        }
    }
    match &rules.invite_url {
        Some(u) => {
            if u.unicode_len() > 0 {
                return Ok(InviteSource::Fixed(u.clone()));
            }
        },
        None => {},
    }
    let channel = match rules.invite_channel {
        Some(c) => c,
        None => 0,
    };
    let mut url = String::from_str("http://127.0.0.1:1234/guild-invite?gid=");
    url.append(i64_to_string(guild_id).as_str());
    url.append("&uid=");
    url.append(i64_to_string(user_id).as_str());
    url.append("&cid=");
    url.append(i64_to_string(channel).as_str());
    Ok(InviteSource::Service { url, channel })
}

/// What the invite service answered.
#[derive(Debug, PartialEq, Eq)]
pub enum ServiceReply {
    /// The request failed; the error's message.
    Failed(String),
    /// The service answered with a status other than success.
    Refused,
    /// The service answered with success, and the body read as this (or the
    /// decoding error's message).
    Answered(Result<GuildInviteBaypawData, String>),
}

/// The invite that the service's answer gives, and the channel to store when
/// the service used another one than `channel` (compared as text, as the
/// service and the database write them).
pub fn service_invite(reply: ServiceReply, channel: i64) -> (r: (Result<String, GuildInviteError>, Option<i64>))
    ensures
        reply matches ServiceReply::Failed(m) ==> r == (Err::<String, GuildInviteError>(GuildInviteError::RequestError(m)), None::<i64>),
        reply matches ServiceReply::Refused ==> r == (Err::<String, GuildInviteError>(GuildInviteError::NoChannelFound), None::<i64>),
        reply matches ServiceReply::Answered(Err(m)) ==> r == (Err::<String, GuildInviteError>(GuildInviteError::RequestError(m)), None::<i64>),
        reply matches ServiceReply::Answered(Ok(d)) ==> r.0 == Ok::<String, GuildInviteError>(d.url) && (r.1 is Some <==> nat_decimal(
            d.cid as nat,
        ) != int_decimal(channel as int)) && (r.1 matches Some(c) ==> c == d.cid as i64),
{
    match reply {
        ServiceReply::Failed(m) => (Err(GuildInviteError::RequestError(m)), None),
        ServiceReply::Refused => (Err(GuildInviteError::NoChannelFound), None),
        ServiceReply::Answered(Err(m)) => (Err(GuildInviteError::RequestError(m)), None),
        ServiceReply::Answered(Ok(d)) => {
            let changed = !str_eq(u64_to_string(d.cid).as_str(), i64_to_string(channel).as_str());
            let store = if changed {
                Some(d.cid as i64)
            } else {
                None
            };
            (Ok(d.url), store)
        },
    }
}

/// The user and token of a `Frostpaw-Auth` header (`<user id>|<token>`): the
/// pieces before and after the first `|` (empty when missing), and the user
/// id as a number (`0` when it is not one).
pub fn frostpaw_auth(header: &str) -> (r: (String, i64, String))
    ensures
        r.0@ == split_at_char(header@, '|')[0],
        r.1 == (match parsed_i64(r.0@) { Some(n) => n, None => 0 }),
        r.2@ == (if split_at_char(header@, '|').len() > 1 { split_at_char(header@, '|')[1] } else { Seq::<char>::empty() }),
{
    let pieces = split_char(header, '|');
    proof {
        lemma_split_from_len(Seq::empty(), header@, '|');
        assert(pieces@.map_values(|p: String| p@)[0] == pieces@[0]@);
        if pieces@.len() > 1 {
            assert(pieces@.map_values(|p: String| p@)[1] == pieces@[1]@);
        }
    }
    let user = pieces[0].clone();
    let token = if pieces.len() > 1 {
        pieces[1].clone()
    } else {
        String::new()
    };
    let id = match parse_i64(user.as_str()) {
        Some(n) => n,
        None => 0,
    };
    (user, id, token)
}

/// The gateway event of a view of a bot or server page.
pub fn view_event(target_type: TargetType, target_id: i64, user: Option<String>, vote_page: bool, invite: bool, event_id: &str, now: i64) -> (r: Event<
    BotViewProp,
>)
    ensures
        r.m.e == (if target_type == TargetType::Bot { EventName::BotView } else { EventName::ServerView }),
        r.m.eid@ == event_id@,
        r.ctx.target@ == int_decimal(target_id as int),
        r.ctx.target_type == target_type,
        r.ctx.user == user,
        r.ctx.ts == now,
        r.props == (BotViewProp { widget: false, vote_page, invite }),
{
    Event {
        m: EventMeta {
            e: if target_type == TargetType::Bot { EventName::BotView } else { EventName::ServerView },
            eid: String::from_str(event_id),
        },
        ctx: EventContext { target: i64_to_string(target_id), target_type, user, ts: now },
        props: BotViewProp { widget: false, vote_page, invite },
    }
}

/// The gateway channel of a target: its kind, `-`, then its id.
pub fn event_channel(target_type: TargetType, target: &str) -> (r: String)
    ensures
        r@ == target_type.arg() + "-"@ + target@,
{
    let mut s = String::from_str(target_type.to_arg());
    s.append("-");
    s.append(target);
    s
}

} // verus!
