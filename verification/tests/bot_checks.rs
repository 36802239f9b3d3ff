use indexmap::IndexMap;
use lightleap::bot_checks::{
    check_banner_img, check_invite, check_links, judge_banner, keep_features, keep_tags, BannerReply, BotCheck,
    CheckAction, CheckEvent, CheckStage, ExistingBot,
};
use lightleap::enums::State;
use lightleap::errors::{BannerCheckError, CheckBotError};
use lightleap::models::{
    Bot, BotActionMode, BotOwner, Feature, JAPIAppData, JAPIAppDataApp, JAPIAppDataBot, JAPIApplication, Tag, User,
};

fn tag(id: &str) -> Tag {
    Tag { id: id.to_string(), name: id.to_string(), ..Default::default() }
}

fn feature(id: &str) -> Feature {
    Feature { id: id.to_string(), ..Default::default() }
}

fn user(id: &str) -> User {
    User { id: id.to_string(), username: "someone".to_string(), ..Default::default() }
}

fn good_bot() -> Bot {
    let mut bot = Bot::default();
    bot.user = user("123");
    bot.vanity = "mybot".to_string();
    bot.description = "A bot that plays music.".to_string();
    bot.long_description = "x".repeat(250);
    bot.invite = None;
    bot.prefix = Some("!".to_string());
    bot.tags = vec![tag("music")];
    bot.features = vec![];
    bot.owners = vec![];
    bot.extra_links = IndexMap::new();
    bot.banner_card = None;
    bot.banner_page = None;
    bot
}

fn application(id: &str, public: bool, guilds: i64) -> JAPIApplication {
    JAPIApplication {
        data: JAPIAppData {
            application: JAPIAppDataApp { id: id.to_string(), bot_public: public },
            bot: JAPIAppDataBot { id: id.to_string(), approximate_guild_count: guilds },
        },
    }
}

fn run_add_until_vanity(bot: Bot) -> BotCheck {
    let (mut c, a) = BotCheck::start(BotActionMode::Add, bot);
    assert_eq!(a, CheckAction::FetchExisting(123));
    assert_eq!(c.step(CheckEvent::Existing(None)), CheckAction::FetchApplication(123));
    assert_eq!(c.step(CheckEvent::ApplicationStatus(Ok(200))), CheckAction::ReadApplication);
    assert_eq!(
        c.step(CheckEvent::ApplicationBody(Ok(application("123", true, 42)))),
        CheckAction::ResolveVanity("mybot".to_string())
    );
    c
}

#[test]
fn add_check_accepts_good_bot() {
    let mut c = run_add_until_vanity(good_bot());
    assert_eq!(c.step(CheckEvent::Vanity(None)), CheckAction::FetchUser(123));
    assert_eq!(c.step(CheckEvent::User(user("123"))), CheckAction::FetchTags);
    let a = c.step(CheckEvent::Tags(vec![tag("music"), tag("fun")]));
    assert_eq!(a, CheckAction::Finish(Ok(())));
    assert_eq!(c.stage, CheckStage::Finished);
    assert_eq!(c.bot.guild_count, 42);
    assert_eq!(c.bot.tags.len(), 1);
    assert_eq!(c.bot.tags[0].id, "music");
    assert_eq!(c.bot.user.username, "someone");
}

#[test]
fn add_check_refuses_existing_bot() {
    let (mut c, _) = BotCheck::start(BotActionMode::Add, good_bot());
    let a = c.step(CheckEvent::Existing(Some(ExistingBot { state: State::Approved, client_id: String::new() })));
    assert_eq!(a, CheckAction::Finish(Err(CheckBotError::AlreadyExists)));
    let (mut c2, _) = BotCheck::start(BotActionMode::Add, good_bot());
    let a2 = c2.step(CheckEvent::Existing(Some(ExistingBot { state: State::Banned, client_id: String::new() })));
    assert_eq!(a2, CheckAction::Finish(Err(CheckBotError::BotBannedOrDenied(State::Banned))));
}

#[test]
fn check_refuses_bad_user_id() {
    let mut bot = good_bot();
    bot.user.id = "abc".to_string();
    let (c, a) = BotCheck::start(BotActionMode::Add, bot);
    assert_eq!(a, CheckAction::Finish(Err(CheckBotError::BotNotFound)));
    assert_eq!(c.stage, CheckStage::Finished);
}

#[test]
fn check_refuses_private_bot_and_status() {
    let (mut c, _) = BotCheck::start(BotActionMode::Add, good_bot());
    c.step(CheckEvent::Existing(None));
    assert_eq!(
        c.step(CheckEvent::ApplicationStatus(Ok(404))),
        CheckAction::Finish(Err(CheckBotError::ClientIDNeeded))
    );
    let (mut c2, _) = BotCheck::start(BotActionMode::Add, good_bot());
    c2.step(CheckEvent::Existing(None));
    c2.step(CheckEvent::ApplicationStatus(Ok(200)));
    assert_eq!(
        c2.step(CheckEvent::ApplicationBody(Ok(application("123", false, 1)))),
        CheckAction::Finish(Err(CheckBotError::PrivateBot))
    );
}

#[test]
fn check_refuses_taken_vanity_and_short_description() {
    let mut c = run_add_until_vanity(good_bot());
    assert_eq!(
        c.step(CheckEvent::Vanity(Some("999".to_string()))),
        CheckAction::Finish(Err(CheckBotError::VanityTaken))
    );
    let mut bot = good_bot();
    bot.description = "short".to_string();
    let mut c2 = run_add_until_vanity(bot);
    assert_eq!(
        c2.step(CheckEvent::Vanity(None)),
        CheckAction::Finish(Err(CheckBotError::ShortDescLengthErr))
    );
}

#[test]
fn check_refuses_long_prefix_and_missing_vanity() {
    let mut bot = good_bot();
    bot.prefix = Some("0123456789".to_string());
    let (mut c, _) = BotCheck::start(BotActionMode::Edit, bot);
    assert_eq!(
        c.step(CheckEvent::Existing(None)),
        CheckAction::Finish(Err(CheckBotError::PrefixTooLong))
    );
    let mut bot2 = good_bot();
    bot2.vanity = "a".to_string();
    let (mut c2, _) = BotCheck::start(BotActionMode::Edit, bot2);
    assert_eq!(c2.step(CheckEvent::Existing(None)), CheckAction::Finish(Err(CheckBotError::NoVanity)));
}

#[test]
fn edit_check_keeps_client_id() {
    let mut bot = good_bot();
    bot.client_id = "5".to_string();
    let (mut c, _) = BotCheck::start(BotActionMode::Edit, bot);
    let a = c.step(CheckEvent::Existing(Some(ExistingBot { state: State::Approved, client_id: "6".to_string() })));
    assert_eq!(a, CheckAction::Finish(Err(CheckBotError::ClientIDImmutable)));
}

#[test]
fn edit_check_refuses_locked_bot() {
    let mut bot = good_bot();
    bot.flags = vec![1];
    let (mut c, _) = BotCheck::start(BotActionMode::Edit, bot);
    assert_eq!(c.step(CheckEvent::Existing(None)), CheckAction::Finish(Err(CheckBotError::EditLocked)));
}

#[test]
fn edit_check_with_vanity_of_same_bot_and_owners() {
    let mut bot = good_bot();
    bot.owners = vec![
        BotOwner { user: user("7"), main: false },
        BotOwner { user: user("7"), main: false },
        BotOwner { user: user("8"), main: false },
    ];
    bot.banner_card = Some("https://example.com/card.png".to_string());
    let (mut c, _) = BotCheck::start(BotActionMode::Edit, bot);
    assert_eq!(c.step(CheckEvent::Existing(None)), CheckAction::ResolveVanity("mybot".to_string()));
    assert_eq!(c.step(CheckEvent::Vanity(Some("123".to_string()))), CheckAction::FetchUser(123));
    assert_eq!(c.step(CheckEvent::User(user("123"))), CheckAction::FetchTags);
    assert_eq!(
        c.step(CheckEvent::Tags(vec![tag("music")])),
        CheckAction::FetchBanner("https://example.com/card.png".to_string())
    );
    let ok = BannerReply::Answered { status: 200, status_text: "200 OK".to_string(), content_type: "image/png".to_string() };
    assert_eq!(c.step(CheckEvent::Banner(ok)), CheckAction::FetchUser(7));
    assert_eq!(c.step(CheckEvent::User(user("7"))), CheckAction::FetchUser(8));
    assert_eq!(c.step(CheckEvent::User(user("8"))), CheckAction::Finish(Ok(())));
    assert_eq!(c.bot.owners.len(), 2);
    assert!(c.bot.owners.iter().all(|o| !o.main));
    assert_eq!(c.bot.owners[0].user.id, "7");
    assert_eq!(c.bot.owners[1].user.id, "8");
}

#[test]
fn check_refuses_main_owner_in_list_and_bad_banner() {
    let mut bot = good_bot();
    bot.owners = vec![BotOwner { user: user("7"), main: true }];
    let (mut c, _) = BotCheck::start(BotActionMode::Edit, bot);
    c.step(CheckEvent::Existing(None));
    c.step(CheckEvent::Vanity(None));
    c.step(CheckEvent::User(user("123")));
    assert_eq!(
        c.step(CheckEvent::Tags(vec![tag("music")])),
        CheckAction::Finish(Err(CheckBotError::MainOwnerAddAttempt))
    );

    let mut bot2 = good_bot();
    bot2.banner_page = Some("https://example.com/page".to_string());
    let (mut c2, _) = BotCheck::start(BotActionMode::Edit, bot2);
    c2.step(CheckEvent::Existing(None));
    c2.step(CheckEvent::Vanity(None));
    c2.step(CheckEvent::User(user("123")));
    assert_eq!(
        c2.step(CheckEvent::Tags(vec![tag("music")])),
        CheckAction::FetchBanner("https://example.com/page".to_string())
    );
    let html = BannerReply::Answered { status: 200, status_text: "200 OK".to_string(), content_type: "text/html".to_string() };
    assert_eq!(
        c2.step(CheckEvent::Banner(html)),
        CheckAction::Finish(Err(CheckBotError::BannerPageError(BannerCheckError::BadContentType(
            "text/html".to_string()
        ))))
    );
}

#[test]
fn check_refuses_unknown_tags_and_too_many_features() {
    let mut c = run_add_until_vanity(good_bot());
    c.step(CheckEvent::Vanity(None));
    c.step(CheckEvent::User(user("123")));
    assert_eq!(c.step(CheckEvent::Tags(vec![tag("fun")])), CheckAction::Finish(Err(CheckBotError::NoTags)));

    let mut bot = good_bot();
    bot.features = (0..6).map(|i| feature(&i.to_string())).collect();
    let mut c2 = run_add_until_vanity(bot);
    c2.step(CheckEvent::Vanity(None));
    c2.step(CheckEvent::User(user("123")));
    assert_eq!(
        c2.step(CheckEvent::Tags(vec![tag("music")])),
        CheckAction::Finish(Err(CheckBotError::TooManyFeatures))
    );
}

#[test]
fn check_keeps_known_features() {
    let mut bot = good_bot();
    bot.features = vec![feature("a"), feature("zz"), feature("b")];
    let mut c = run_add_until_vanity(bot);
    c.step(CheckEvent::Vanity(None));
    c.step(CheckEvent::User(user("123")));
    assert_eq!(c.step(CheckEvent::Tags(vec![tag("music")])), CheckAction::FetchFeatures);
    assert_eq!(
        c.step(CheckEvent::Features(vec![feature("a"), feature("b")])),
        CheckAction::Finish(Ok(()))
    );
    let ids: Vec<String> = c.bot.features.iter().map(|f| f.id.clone()).collect();
    assert_eq!(ids, vec!["a".to_string(), "b".to_string()]);
}

#[test]
fn expects_only_the_awaited_event() {
    let (c, _) = BotCheck::start(BotActionMode::Add, good_bot());
    assert!(c.expects(&CheckEvent::Existing(None)));
    assert!(!c.expects(&CheckEvent::Vanity(None)));
    assert!(!c.expects(&CheckEvent::Tags(vec![])));
}

#[test]
fn keep_tags_dedups_and_filters() {
    let kept = keep_tags(&vec![tag("a"), tag("x"), tag("a"), tag("b")], &vec![tag("a"), tag("b")]);
    let ids: Vec<String> = kept.iter().map(|t| t.id.clone()).collect();
    assert_eq!(ids, vec!["a".to_string(), "b".to_string()]);
    let kf = keep_features(&vec![feature("q"), feature("r")], &vec![feature("r")]);
    assert_eq!(kf.len(), 1);
    assert_eq!(kf[0].id, "r");
}

#[test]
fn invite_checks() {
    assert_eq!(check_invite(&None), None);
    assert_eq!(check_invite(&Some("P:8".to_string())), None);
    assert_eq!(check_invite(&Some("P:abc".to_string())), Some(CheckBotError::InvalidInvitePermNum));
    assert_eq!(check_invite(&Some("\"https://discord.gg/x\"".to_string())), None);
    assert_eq!(check_invite(&Some("http://discord.gg/x".to_string())), Some(CheckBotError::InvalidInvite));
}

#[test]
fn link_checks() {
    let s = |a: &str, b: &str| (a.to_string(), b.to_string());
    assert_eq!(check_links(&vec![s("Website", "https://a.b")]), None);
    assert_eq!(check_links(&vec![s("_hidden", "not a link")]), None);
    assert_eq!(check_links(&vec![s("Website", "http://a.b")]), Some(CheckBotError::ExtraLinkValueNotHTTPS));
    assert_eq!(
        check_links(&vec![s("a_very_long_key_name_here", "https://a.b")]),
        Some(CheckBotError::ExtraLinkKeyTooLong)
    );
    let many: Vec<(String, String)> = (0..11).map(|i| s(&format!("k{}", i), "https://a.b")).collect();
    assert_eq!(check_links(&many), Some(CheckBotError::ExtraLinksTooManyRendered));
    let hidden: Vec<(String, String)> = (0..21).map(|i| s(&format!("_k{}", i), "x")).collect();
    assert_eq!(check_links(&hidden), Some(CheckBotError::ExtraLinksTooMany));
}

#[test]
fn banner_judgement() {
    assert_eq!(
        judge_banner(BannerReply::SendFailed("dns".to_string())),
        Err(BannerCheckError::BadURL("dns".to_string()))
    );
    assert_eq!(
        judge_banner(BannerReply::Answered {
            status: 404,
            status_text: "404 Not Found".to_string(),
            content_type: "image/png".to_string()
        }),
        Err(BannerCheckError::StatusError("404 Not Found".to_string()))
    );
    assert_eq!(
        judge_banner(BannerReply::Answered { status: 200, status_text: "200 OK".to_string(), content_type: "image/webp".to_string() }),
        Ok(())
    );
    assert_eq!(check_banner_img("", None), Ok(()));
    assert_eq!(
        BannerCheckError::StatusError("404 Not Found".to_string()).to_string(),
        "Got status code: 404 Not Found when requesting this banner"
    );
}
