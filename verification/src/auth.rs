//! Reading the tokens that requests carry, and the keys of rate limits.
use crate::enums::{Ratelimit, Status, UserExperiments, UserState};
use crate::errors::OauthError;
use crate::models::{OauthUser, OauthUserLogin, User};
use crate::text::{has_prefix, int_decimal, i64_to_string, replace_all, replaced, starts_with};
use vstd::prelude::*;
use vstd::string::*;

verus! {

/// How a user token is checked.
#[derive(Clone, Debug, PartialEq, Eq)]
pub enum UserAuth {
    /// No token: refused.
    Refuse,
    /// An access token of a custom client, looked up as it is.
    Client(String),
    /// A user token, compared with the stored one.
    Token(String),
}

/// Reads a user token: an empty one is refused, one that starts with
/// `Frostpaw.` is a custom client's access token, any other is a user token
/// with every `User ` taken out.
pub fn user_auth(token: &str) -> (r: UserAuth)
    ensures
        token@.len() == 0 ==> r == UserAuth::Refuse,
        token@.len() > 0 && has_prefix(token@, "Frostpaw."@) ==> (r matches UserAuth::Client(t) && t@ == token@),
        token@.len() > 0 && !has_prefix(token@, "Frostpaw."@) ==> (r matches UserAuth::Token(t) && t@ == replaced(
            token@,
            "User "@,
            ""@,
        )),
{
    if token.unicode_len() == 0 {
        return UserAuth::Refuse;
    }
    if starts_with(token, "Frostpaw.") {
        return UserAuth::Client(String::from_str(token));
    }
    proof {
        reveal_strlit("User ");
    }
    UserAuth::Token(replace_all(token, "User ", ""))
}

/// Whether a custom client's access token, issued to `token_user`, may act
/// for `user_id`.
pub fn client_matches(token_user: i64, user_id: i64) -> (r: bool)
    ensures
        r == (token_user == user_id),
{
    token_user == user_id
}

/// Reads a bot token: none when empty, else with every `Bot ` taken out.
pub fn bot_token(token: &str) -> (r: Option<String>)
    ensures
        token@.len() == 0 ==> r is None,
        token@.len() > 0 ==> (r matches Some(t) && t@ == replaced(token@, "Bot "@, ""@)),
{
    if token.unicode_len() == 0 {
        return None;
    }
    proof {
        reveal_strlit("Bot ");
    }
    Some(replace_all(token, "Bot ", ""))
}

/// Reads a server token: none when empty, else with every `Server ` taken out.
pub fn server_token(token: &str) -> (r: Option<String>)
    ensures
        token@.len() == 0 ==> r is None,
        token@.len() > 0 ==> (r matches Some(t) && t@ == replaced(token@, "Server "@, ""@)),
{
    if token.unicode_len() == 0 {
        return None;
    }
    proof {
        reveal_strlit("Server ");
    }
    Some(replace_all(token, "Server ", ""))
}

/// The key under which a rate limit of a user is kept.
pub fn ratelimit_key(limit: Ratelimit, user_id: i64) -> (r: String)
    ensures
        r@ == "rlratelimit:"@ + limit.label() + ":"@ + int_decimal(user_id as int),
{
    let mut s = String::from_str("rlratelimit:");
    s.append(limit.name().as_str());
    s.append(":");
    s.append(i64_to_string(user_id).as_str());
    s
}

/// Whether a rate limit still runs: its time to live is known and positive.
pub fn rate_limited(ttl: Option<i64>) -> (r: Option<i64>)
    ensures
        r == (match ttl {
            Some(t) => if t > 0 { Some(t) } else { None },
            None => None,
        }),
{
    match ttl {
        Some(t) => if t > 0 {
            Some(t)
        } else {
            None
        },
        None => None,
    }
}

/// The Discord link that starts a login, for a site at `domain` and the
/// random `state` of the attempt.
pub fn oauth_url(client_id: &str, domain: &str, state: &str) -> (r: String)
    ensures
        r@ == "https://discord.com/oauth2/authorize?client_id="@ + client_id@ + "&redirect_uri="@ + domain@
            + "/frostpaw/login&state="@ + state@ + "&scope=identify&response_type=code"@,
{
    let mut s = String::from_str("https://discord.com/oauth2/authorize?client_id=");
    s.append(client_id);
    s.append("&redirect_uri=");
    s.append(domain);
    s.append("/frostpaw/login&state=");
    s.append(state);
    s.append("&scope=identify&response_type=code");
    s
}

/// Where Discord sends a user back after login, for a site at `domain`.
pub fn login_redirect(domain: &str) -> (r: String)
    ensures
        r@ == domain@ + "/frostpaw/login"@,
{
    String::from_str(domain).concat("/frostpaw/login")
}

/// A Discord answer with a status other than success ends a login with its body.
pub fn exchange_refusal(success: bool, body: String) -> (r: Option<OauthError>)
    ensures
        success ==> r is None,
        !success ==> r == Some(OauthError::BadExchangeJson(body)),
{
    if success {
        None
    } else {
        Some(OauthError::BadExchangeJson(body))
    }
}

/// What the database already holds of a user who logs in.
#[derive(Clone, Debug, PartialEq, Eq, Default)]
pub struct KnownUser {
    pub state: i32,
    pub api_token: String,
    pub user_css: Option<String>,
    pub site_lang: Option<String>,
}

/// The login of a Discord user: a known user keeps their token, language,
/// CSS and state (normal when unknown); a new user gets `new_token`,
/// English and an empty CSS. The default avatar stands in for a missing one.
pub fn oauth_login(user: OauthUser, known: Option<KnownUser>, new_token: String, experiments: Vec<UserExperiments>) -> (r: OauthUserLogin)
    ensures
        r.user.id == user.id,
        r.user.username == user.username,
        r.user.disc == user.discriminator,
        r.user.avatar@ == (match user.avatar { Some(a) => a@, None => "https://api.fateslist.xyz/static/botlisticon.webp"@ }),
        !r.user.bot,
        r.user.status == Status::Unknown,
        r.refresh_token is None,
        r.user_experiments == experiments,
        match known {
            Some(k) => {
                &&& r.token == k.api_token
                &&& r.state == (match UserState::decode(k.state) { Some(s) => s, None => UserState::Normal })
                &&& r.css == k.user_css
                &&& r.site_lang@ == (match k.site_lang { Some(l) => l@, None => "en"@ })
            },
            None => {
                &&& r.token == new_token
                &&& r.state == UserState::Normal
                &&& r.css matches Some(c) && c@.len() == 0
                &&& r.site_lang@ == "en"@
            },
        },
{
    let (token, state, css, site_lang) = match known {
        Some(k) => (
            k.api_token,
            match UserState::from_value(k.state) {
                Some(s) => s,
                None => UserState::Normal,
            },
            k.user_css,
            k.site_lang,
        ),
        None => (new_token, UserState::Normal, Some(String::new()), Some(String::from_str("en"))),
    };
    OauthUserLogin {
        user: User {
            id: user.id,
            username: user.username,
            disc: user.discriminator,
            avatar: match user.avatar {
                Some(a) => a,
                None => String::from_str("https://api.fateslist.xyz/static/botlisticon.webp"),
            },
            bot: false,
            status: Status::Unknown,
        },
        refresh_token: None,
        user_experiments: experiments,
        token,
        state,
        site_lang: match site_lang {
            Some(l) => l,
            None => String::from_str("en"),
        },
        css,
    }
}

} // verus!
