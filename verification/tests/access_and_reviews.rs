use lightleap::auth::{
    bot_token, client_matches, exchange_refusal, login_redirect, oauth_login, oauth_url, rate_limited, ratelimit_key,
    server_token, user_auth, KnownUser, UserAuth,
};
use lightleap::enums::{Ratelimit, State, TargetType, UserExperiments, UserState};
use lightleap::errors::{GuildInviteError, OauthError, PackCheckError};
use lightleap::gateway::{gateway_channel, gateway_command, GatewayAction};
use lightleap::models::{BotPack, OauthUser, ParsedReviewVotes, ResolvedPackBot, User, WsMode};
use lightleap::packs::{pack_check_finish, pack_check_start, pack_id, pack_owner_refusal, read_uuid};
use lightleap::reviews::{
    new_review_refusal, repeat_vote_refusal, review_content_refusal, review_owner_refusal, review_page,
    review_path_id, review_voter,
};
use lightleap::servers::{guild_invite, InviteRules, InviteSource};

#[test]
fn user_tokens() {
    assert_eq!(user_auth(""), UserAuth::Refuse);
    assert_eq!(user_auth("Frostpaw.abc"), UserAuth::Client("Frostpaw.abc".to_string()));
    assert_eq!(user_auth("User abc"), UserAuth::Token("abc".to_string()));
    assert_eq!(bot_token("Bot xyz"), Some("xyz".to_string()));
    assert_eq!(bot_token(""), None);
    assert_eq!(server_token("Server s1"), Some("s1".to_string()));
    assert!(client_matches(4, 4));
    assert!(!client_matches(4, 5));
}

#[test]
fn ratelimits() {
    assert_eq!(ratelimit_key(Ratelimit::Appeal, 99), "rlratelimit:Appeal:99");
    assert_eq!(rate_limited(Some(12)), Some(12));
    assert_eq!(rate_limited(Some(0)), None);
    assert_eq!(rate_limited(Some(-2)), None);
    assert_eq!(rate_limited(None), None);
}

#[test]
fn oauth_links() {
    assert_eq!(
        oauth_url("1", "https://fateslist.xyz", "st"),
        "https://discord.com/oauth2/authorize?client_id=1&redirect_uri=https://fateslist.xyz/frostpaw/login&state=st&scope=identify&response_type=code"
    );
    assert_eq!(login_redirect("https://a.b"), "https://a.b/frostpaw/login");
    assert_eq!(exchange_refusal(true, "x".to_string()), None);
    assert_eq!(exchange_refusal(false, "bad".to_string()), Some(OauthError::BadExchangeJson("bad".to_string())));
}

#[test]
fn oauth_login_new_and_known_user() {
    let u = OauthUser { id: "5".to_string(), username: "eve".to_string(), discriminator: "0001".to_string(), avatar: None };
    let fresh = oauth_login(u.clone(), None, "newtok".to_string(), vec![UserExperiments::DevPortal]);
    assert_eq!(fresh.token, "newtok");
    assert_eq!(fresh.state, UserState::Normal);
    assert_eq!(fresh.site_lang, "en");
    assert_eq!(fresh.css, Some(String::new()));
    assert_eq!(fresh.user.avatar, "https://api.fateslist.xyz/static/botlisticon.webp");
    let known = KnownUser { state: 2, api_token: "old".to_string(), user_css: None, site_lang: Some("fr".to_string()) };
    let back = oauth_login(u, Some(known), "newtok".to_string(), vec![]);
    assert_eq!(back.token, "old");
    assert_eq!(back.state, UserState::ProfileEditBan);
    assert_eq!(back.site_lang, "fr");
    assert_eq!(back.css, None);
}

fn rules() -> InviteRules {
    InviteRules {
        state: 0,
        invite_channel: Some(77),
        user_whitelist: vec![],
        user_blacklist: vec![],
        flags: vec![],
        whitelist_form: None,
        invite_url: None,
    }
}

#[test]
fn guild_invite_from_service() {
    assert_eq!(
        guild_invite(&rules(), 10, 20),
        Ok(InviteSource::Service { url: "http://127.0.0.1:1234/guild-invite?gid=10&uid=20&cid=77".to_string(), channel: 77 })
    );
    let mut fixed = rules();
    fixed.invite_url = Some("https://discord.gg/abc".to_string());
    assert_eq!(guild_invite(&fixed, 10, 20), Ok(InviteSource::Fixed("https://discord.gg/abc".to_string())));
}

#[test]
fn guild_invite_refusals() {
    let mut login = rules();
    login.flags = vec![9];
    assert_eq!(guild_invite(&login, 1, 0), Err(GuildInviteError::LoginRequired));
    let mut banned = rules();
    banned.state = 4;
    assert_eq!(guild_invite(&banned, 1, 2), Err(GuildInviteError::ServerBanned));
    let mut staff = rules();
    staff.state = 9;
    assert_eq!(guild_invite(&staff, 1, 2), Err(GuildInviteError::StaffReview));
    let mut black = rules();
    black.user_blacklist = vec![2];
    assert_eq!(guild_invite(&black, 1, 2), Err(GuildInviteError::Blacklisted));
    let mut private = rules();
    private.state = 8;
    assert_eq!(guild_invite(&private, 1, 2), Err(GuildInviteError::NotAcceptingInvites));
    private.user_whitelist = vec![2];
    assert!(guild_invite(&private, 1, 2).is_ok());
    let mut wl = rules();
    wl.flags = vec![6];
    wl.whitelist_form = Some("https://form".to_string());
    assert_eq!(
        guild_invite(&wl, 1, 2),
        Err(GuildInviteError::WhitelistRequired(
            "<a href='https://form'>You can get access to this server here</a>".to_string()
        ))
    );
    let _ = State::Approved;
}

#[test]
fn gateway_commands() {
    assert_eq!(gateway_command(false, "PING"), GatewayAction::Heartbeat);
    assert_eq!(gateway_command(false, "SUB"), GatewayAction::Subscribe);
    assert_eq!(gateway_command(false, "ARCHIVE"), GatewayAction::Archive);
    assert_eq!(gateway_command(true, "ENDGWTASK"), GatewayAction::EndTask);
    assert_eq!(
        gateway_command(true, "SUB"),
        GatewayAction::Close(4001, "You can only have one gateway task per session at any given time".to_string())
    );
    assert_eq!(
        gateway_command(false, "ENDGWTASK"),
        GatewayAction::Close(4002, "You can only unsubscribe if you actually have a gateway task running".to_string())
    );
    assert_eq!(gateway_command(true, "hello"), GatewayAction::Ignore);
    assert_eq!(gateway_channel(WsMode::Bot, 12), "bot-12");
    assert_eq!(gateway_channel(WsMode::Server, 3), "server-3");
}

#[test]
fn uuid_reading() {
    assert_eq!(read_uuid("67e55044-10b1-426f-9247-bb680e5fe0c8"), Some(0x67e5504410b1426f9247bb680e5fe0c8u128));
    assert_eq!(read_uuid("not-a-uuid"), None);
    assert_eq!(pack_id("zzz"), Err(PackCheckError::InvalidPackId));
    assert_eq!(pack_id("00000000-0000-0000-0000-000000000001"), Ok(1));
}

fn pack_bot(id: &str) -> ResolvedPackBot {
    ResolvedPackBot { user: User { id: id.to_string(), ..Default::default() }, description: String::new() }
}

#[test]
fn pack_checks() {
    let mut pack = BotPack {
        description: "A nice pack of bots".to_string(),
        resolved_bots: vec![pack_bot("1"), pack_bot("2")],
        ..Default::default()
    };
    assert_eq!(pack_check_start(&pack), Ok(vec![1, 2]));
    let mut short = pack.clone();
    short.description = "short".to_string();
    assert_eq!(pack_check_start(&short), Err(PackCheckError::DescriptionTooShort));
    let mut bad = pack.clone();
    bad.resolved_bots = vec![pack_bot("x")];
    assert_eq!(pack_check_start(&bad), Err(PackCheckError::InvalidBotId));
    assert_eq!(pack_check_finish(&mut pack, vec![pack_bot("1")]), Err(PackCheckError::TooFewBots));
    pack.icon = "http://icon".to_string();
    assert_eq!(pack_check_finish(&mut pack, vec![pack_bot("1"), pack_bot("2")]), Err(PackCheckError::InvalidIcon));
    assert_eq!(pack.resolved_bots.len(), 2);
    pack.icon = String::new();
    assert_eq!(pack_check_finish(&mut pack, vec![pack_bot("1"), pack_bot("2")]), Ok(()));
    assert!(pack_owner_refusal(Some(3), 3).is_none());
    assert!(pack_owner_refusal(Some(3), 4).is_some());
    assert!(pack_owner_refusal(None, 4).is_some());
}

#[test]
fn review_content_checks() {
    let text = "This bot is really good.";
    assert!(review_content_refusal("5.5", text).is_none());
    assert!(review_content_refusal("10", text).is_none());
    assert!(review_content_refusal("0", text).is_none());
    let high = review_content_refusal("10.01", text).unwrap();
    assert_eq!(high.reason, Some("Star rating must be in range 1 to 10".to_string()));
    assert!(review_content_refusal("-1", text).is_some());
    assert!(review_content_refusal("abc", text).is_some());
    let short = review_content_refusal("5", "short").unwrap();
    assert_eq!(short.reason, Some("Review text must be between 10 and 20000 characters".to_string()));
}

#[test]
fn review_route_checks() {
    assert!(new_review_refusal(false, true, false).is_some());
    assert!(new_review_refusal(true, false, false).is_some());
    assert!(new_review_refusal(true, true, true).is_none());
    assert!(review_owner_refusal(Some("12"), 12).is_none());
    assert_eq!(
        review_owner_refusal(Some("12"), 13).unwrap().reason,
        Some("You do not own this review".to_string())
    );
    assert!(review_owner_refusal(None, 12).is_some());
    assert_eq!(review_page(None), Ok(0));
    assert_eq!(review_page(Some(3)), Ok(18));
    assert!(review_page(Some(0)).is_err());
    assert!(review_path_id("nope").is_err());
    assert_eq!(review_voter("42"), Ok(42));
    assert!(review_voter("x").is_err());
    let votes = ParsedReviewVotes { upvotes: vec!["7".to_string()], downvotes: vec![] };
    assert!(repeat_vote_refusal(&votes, "7", true).is_some());
    assert!(repeat_vote_refusal(&votes, "7", false).is_none());
    let _ = TargetType::Bot;
}
