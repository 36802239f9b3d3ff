//! Votes: when a vote must wait, what a vote sends to the owner's webhook,
//! who earns the avid voter flag and what "has voted" answers.
use crate::enums::{EventName, Flags, TargetType, UserFlags, WebhookType};
use crate::errors::VoteBotError;
use crate::models::{APIResponse, BotVoteProp, Event, EventContext, EventMeta, UserVoted, VoteWebhookEvent};
use crate::text::{i64_to_string, int_decimal, nat_decimal};
use vstd::prelude::*;
use vstd::string::*;

verus! {

/// Integer division rounding toward zero, as Rust's `/` does.
pub open spec fn tdiv(a: int, b: int) -> int {
    if a >= 0 {
        a / b
    } else {
        -((-a) / b)
    }
}

/// The remainder of `tdiv`, with the sign of `a`, as Rust's `%` does.
pub open spec fn trem(a: int, b: int) -> int {
    a - tdiv(a, b) * b
}

/// How long a voter still has to wait, `t` seconds, in words.
pub open spec fn wait_text(t: int) -> Seq<char> {
    int_decimal(tdiv(tdiv(t, 60), 60)) + " hours, "@ + int_decimal(trem(tdiv(t, 60), 60)) + " minutes, "@
        + int_decimal(trem(t, 60)) + " seconds"@
}

fn signed(neg: bool, x: u64) -> (r: i64)
    requires
        x <= i64::MAX,
    ensures
        r == (if neg { -(x as int) } else { x as int }),
{
    if neg {
        -(x as i64)
    } else {
        x as i64
    }
}

/// The time left before the next vote, `time_left` seconds, as
/// `"<h> hours, <m> minutes, <s> seconds"`.
pub fn wait_message(time_left: i64) -> (r: String)
    ensures
        r@ == wait_text(time_left as int),
{
    let neg = time_left < 0;
    let mag: u64 = if time_left == i64::MIN {
        0x8000_0000_0000_0000u64
    } else if neg {
        (-time_left) as u64
    } else {
        time_left as u64
    };
    let minutes_total = mag / 60;
    let seconds = mag % 60;
    let minutes = minutes_total % 60;
    let hours = minutes_total / 60;
    proof {
        let t = time_left as int;
        assert(mag as int == if t < 0 { -t } else { t });
        assert(tdiv(t, 60) == if neg { -(minutes_total as int) } else { minutes_total as int });
        assert(trem(t, 60) == if neg { -(seconds as int) } else { seconds as int });
        let q = tdiv(t, 60);
        assert(tdiv(q, 60) == if neg { -(hours as int) } else { hours as int });
        assert(trem(q, 60) == if neg { -(minutes as int) } else { minutes as int });
    }
    let mut s = i64_to_string(signed(neg, hours));
    s.append(" hours, ");
    s.append(i64_to_string(signed(neg, minutes)).as_str());
    s.append(" minutes, ");
    s.append(i64_to_string(signed(neg, seconds)).as_str());
    s.append(" seconds");
    s
}

/// Why a vote is refused while an earlier one has not expired: the wait
/// until `expires_on` (seconds since the epoch) from `now`, or an unknown
/// error when the expiry could not be read.
pub fn vote_refusal(expires_on: Option<i64>, now: i64) -> (r: VoteBotError)
    requires
        expires_on matches Some(e) ==> i64::MIN <= e - now <= i64::MAX,
    ensures
        expires_on is None ==> (r matches VoteBotError::UnknownError(m) && m@ == "Failed to get expiry time"@),
        expires_on matches Some(e) ==> (r matches VoteBotError::Wait(m) && m@ == wait_text(e - now)),
{
    match expires_on {
        None => VoteBotError::UnknownError(String::from_str("Failed to get expiry time")),
        Some(e) => VoteBotError::Wait(wait_message(e - now)),
    }
}

/// The user that a vote webhook names: a fixed test user for test votes.
pub open spec fn webhook_voter(user_id: i64, test: bool) -> i64 {
    if test {
        519850436899897346
    } else {
        user_id
    }
}

/// What the database holds of a voted bot or server for its webhook.
#[derive(Clone, Debug, PartialEq, Eq, Default)]
pub struct VoteTarget {
    pub votes: Option<i64>,
    pub webhook: Option<String>,
    pub webhook_secret: Option<String>,
    pub webhook_type: Option<i32>,
    pub webhook_hmac_only: Option<bool>,
    pub api_token: Option<String>,
}

/// How a vote reaches the owner.
#[derive(Clone, Debug, PartialEq, Eq)]
pub enum VoteDelivery {
    /// Post an embed to a Discord webhook.
    Discord { webhook: String, event: VoteWebhookEvent },
    /// Post the event as JSON, signed with `token`.
    Http { webhook: String, token: String, hmac_only: bool, event: VoteWebhookEvent },
}

/// The token that signs a webhook: the webhook secret when it is set and not
/// empty, else the API token.
pub open spec fn webhook_token(target: VoteTarget) -> Option<String> {
    match target.webhook_secret {
        Some(s) => if s@.len() > 0 { Some(s) } else { target.api_token },
        None => target.api_token,
    }
}

/// The number of votes stored, zero when none is.
pub open spec fn vote_count(target: VoteTarget) -> i64 {
    match target.votes {
        Some(v) => v,
        None => 0,
    }
}

/// The event a vote webhook carries.
pub open spec fn webhook_event_ok(
    ev: VoteWebhookEvent,
    target: VoteTarget,
    user_id: i64,
    test: bool,
    event_id: Seq<char>,
    now: i64,
) -> bool {
    &&& ev.eid@ == event_id
    &&& ev.id@ == int_decimal(webhook_voter(user_id, test) as int)
    &&& ev.user@ == int_decimal(webhook_voter(user_id, test) as int)
    &&& ev.votes == vote_count(target)
    &&& ev.ts == now
    &&& ev.test == test
}

/// Decides how a vote is delivered to the owner: not at all without a
/// webhook; an error when the webhook type is unknown; through Discord for a
/// Discord-integration webhook; else over HTTP, signed with the webhook
/// token (see `webhook_token`).
pub fn vote_delivery(target: VoteTarget, user_id: i64, test: bool, event_id: &str, now: i64) -> (r: Result<
    Option<VoteDelivery>,
    VoteBotError,
>)
    requires
        target.webhook is Some ==> webhook_token(target) is Some,
    ensures
        target.webhook is None ==> r == Ok::<Option<VoteDelivery>, VoteBotError>(None),
        target.webhook is Some && target.webhook_type is None ==> (r matches Err(VoteBotError::UnknownError(m))
            && m@ == "Failed to get webhook type"@),
        target.webhook is Some && target.webhook_type == Some(WebhookType::DiscordIntegration.code())
            ==> (r matches Ok(Some(VoteDelivery::Discord { webhook, event })) && webhook == target.webhook->0
            && webhook_event_ok(event, target, user_id, test, event_id@, now)),
        target.webhook is Some && target.webhook_type is Some && target.webhook_type != Some(
            WebhookType::DiscordIntegration.code(),
        ) ==> (r matches Ok(Some(VoteDelivery::Http { webhook, token, hmac_only, event }))
            && webhook == target.webhook->0 && token == webhook_token(target)->0
            && hmac_only == (match target.webhook_hmac_only { Some(h) => h, None => false })
            && webhook_event_ok(event, target, user_id, test, event_id@, now)),
        r matches Ok(Some(VoteDelivery::Http { token, .. })) ==> (target.webhook_secret is Some
            && target.webhook_secret->0@.len() > 0 ==> token == target.webhook_secret->0),
{
    let webhook = match target.webhook {
        None => {
            return Ok(None);
        },
        Some(w) => w,
    };
    let token = match target.webhook_secret {
        Some(s) => if s.unicode_len() > 0 {
            s
        } else {
            match target.api_token {
                Some(t) => t,
                None => String::new(),
            }
        },
        None => match target.api_token {
            Some(t) => t,
            None => String::new(),
        },
    };
    let voter = if test { 519850436899897346i64 } else { user_id };
    let votes = match target.votes {
        Some(v) => v,
        None => 0,
    };
    let event = VoteWebhookEvent {
        eid: String::from_str(event_id),
        id: i64_to_string(voter),
        user: i64_to_string(voter),
        votes,
        ts: now,
        test,
    };
    match target.webhook_type {
        None => Err(VoteBotError::UnknownError(String::from_str("Failed to get webhook type"))),
        Some(t) => {
            if t == WebhookType::DiscordIntegration.value() {
                Ok(Some(VoteDelivery::Discord { webhook, event }))
            } else {
                let hmac_only = match target.webhook_hmac_only {
                    Some(h) => h,
                    None => false,
                };
                Ok(Some(VoteDelivery::Http { webhook, token, hmac_only, event }))
            }
        },
    }
}

/// The gateway event of a vote.
pub fn vote_event(target_type: TargetType, target_id: i64, user_id: i64, test: bool, votes: i64, event_id: &str, now: i64) -> (r: Event<
    BotVoteProp,
>)
    ensures
        r.m.e == (if target_type == TargetType::Bot { EventName::BotVote } else { EventName::ServerVote }),
        r.m.eid@ == event_id@,
        r.ctx.target@ == int_decimal(target_id as int),
        r.ctx.target_type == target_type,
        r.ctx.user matches Some(u) && u@ == int_decimal(user_id as int),
        r.ctx.ts == now,
        r.props == (BotVoteProp { test, votes }),
{
    Event {
        m: EventMeta {
            e: if target_type == TargetType::Bot { EventName::BotVote } else { EventName::ServerVote },
            eid: String::from_str(event_id),
        },
        ctx: EventContext { target: i64_to_string(target_id), target_type, user: Some(i64_to_string(user_id)), ts: now },
        props: BotVoteProp { test, votes },
    }
}

/// The first test of the avid voter flag: votes for at least five bots,
/// one of them voted for at least three times (`vote_counts` holds how many
/// times each bot was voted for).
pub open spec fn avid_bot_voter(vote_counts: Seq<usize>) -> bool {
    vote_counts.len() >= 5 && exists|i: int| 0 <= i < vote_counts.len() && vote_counts[i] >= 3
}

/// Whether a user's votes for bots qualify for the avid voter flag.
pub fn votes_enough_bots(vote_counts: &Vec<usize>) -> (r: bool)
    ensures
        r == avid_bot_voter(vote_counts@),
{
    if vote_counts.len() < 5 {
        return false;
    }
    let mut i: usize = 0;
    while i < vote_counts.len()
        invariant
            vote_counts@.len() >= 5,
            i <= vote_counts@.len(),
            forall|k: int| 0 <= k < i ==> vote_counts@[k] < 3,
        decreases vote_counts.len() - i,
    {
        if vote_counts[i] >= 3 {
            assert(vote_counts@[i as int] >= 3);
            return true;
        }
        i = i + 1;
    }
    false
}

/// Whether a user who passed the bot test also voted for enough servers (at
/// least three) to earn the avid voter flag.
pub fn votes_enough_servers(server_count: usize) -> (r: bool)
    ensures
        r == (server_count >= 3),
{
    server_count >= 3
}

/// The answer to a vote for a system bot or server, which cannot be voted
/// for; `None` when the target can be voted for.
pub fn system_vote_refusal(flags: &Vec<i32>, target_type: TargetType) -> (r: Option<APIResponse>)
    ensures
        r is Some <==> flags@.contains(Flags::System.code()),
        r matches Some(a) ==> !a.done && a.context is None && (a.reason matches Some(m) && m@ == (
            if target_type == TargetType::Bot { "You can't vote for system bots!"@ } else { "You can't vote for system servers!"@ })),
{
    let sys = Flags::System.value();
    let mut i: usize = 0;
    while i < flags.len()
        invariant
            sys == Flags::System.code(),
            i <= flags@.len(),
            forall|k: int| 0 <= k < i ==> flags@[k] != sys,
        decreases flags.len() - i,
    {
        if flags[i] == sys {
            assert(flags@[i as int] == sys);
            let reason = if target_type == TargetType::Bot {
                String::from_str("You can't vote for system bots!")
            } else {
                String::from_str("You can't vote for system servers!")
            };
            return Some(APIResponse { done: false, reason: Some(reason), context: None });
        }
        i = i + 1;
    }
    None
}

/// Whether a user hides who they voted for.
pub fn votes_private(flags: &Vec<UserFlags>) -> (r: bool)
    ensures
        r == flags@.contains(UserFlags::VotesPrivate),
{
    let mut i: usize = 0;
    while i < flags.len()
        invariant
            i <= flags@.len(),
            forall|k: int| 0 <= k < i ==> flags@[k] != UserFlags::VotesPrivate,
        decreases flags.len() - i,
    {
        if flags[i] == UserFlags::VotesPrivate {
            return true;
        }
        i = i + 1;
    }
    false
}

/// Whether and when a user voted: the number of votes is the number of
/// recorded vote times, and they may vote again once `now` is past `expiry`.
/// A user who hides their votes is answered that they may vote right now,
/// with nothing else.
pub fn user_voted(private: bool, timestamps: Vec<i64>, expiry: u64, now: u64) -> (r: UserVoted)
    requires
        timestamps@.len() <= i64::MAX,
    ensures
        private ==> r.vote_right_now && r.votes == 0 && !r.voted && r.expiry == 0 && r.timestamps@.len() == 0,
        !private ==> {
            &&& r.votes == timestamps@.len()
            &&& r.voted == (timestamps@.len() > 0)
            &&& r.expiry == expiry
            &&& r.vote_right_now == (now > expiry)
            &&& r.timestamps@ == timestamps@
        },
{
    if private {
        return UserVoted { votes: 0, voted: false, vote_right_now: true, expiry: 0, timestamps: Vec::new() };
    }
    let n = timestamps.len() as i64;
    UserVoted { votes: n, voted: n > 0, vote_right_now: now > expiry, expiry, timestamps }
}

/// Law: a vote webhook is signed with the owner's webhook secret whenever
/// one is set and not empty; only without one (missing or empty) is the
/// bot's or server's API token used.
pub proof fn lemma_webhook_signed_with_secret(target: VoteTarget)
    ensures
        target.webhook_secret is Some && target.webhook_secret->0@.len() > 0 ==> webhook_token(target)
            == target.webhook_secret,
        target.webhook_secret is None ==> webhook_token(target) == target.api_token,
        target.webhook_secret is Some && target.webhook_secret->0@.len() == 0 ==> webhook_token(target)
            == target.api_token,
{
}

} // verus!
