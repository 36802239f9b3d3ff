use indexmap::IndexMap;
use lightleap::appeals::{appeal_text_ok, appeal_words, check_certification, missing_experiment, not_enabled};
use lightleap::bot_actions::{
    add_main_owner, check_transfer, is_main_owner, is_owner, kept_flags, may_see_settings, merged_flags, metro_link,
};
use lightleap::commands::{command_deletion, command_refusal};
use lightleap::docs::{document_enums, enum_table, new_enum};
use lightleap::enums::{AppealType, State, TargetType, UserExperiments, UserFlags};
use lightleap::errors::{APIError, AppealError, CheckBotError, GenericError, StatsError, VoteBotError};
use lightleap::imports::{import_bot, import_source_label, import_url, ImportError, ImportValue};
use lightleap::ipc::{call_message, guild_invite_args, invite_reply};
use lightleap::links::{links_from_pairs, links_get, links_len};
use lightleap::models::{
    APIResponse, Bot, BotCommand, BotOwner, CommandDeleteQuery, EnumDesc, ImportSource, Index, IndexBot, JAPIAppData,
    JAPIAppDataApp, JAPIAppDataBot, JAPIApplication, Resource, RouteAuthType, User,
};
use lightleap::notifs::subscription_refusal;
use lightleap::profiles::{profile_flags_refusal, profile_links_stored, role_update};
use lightleap::records::{
    random_bot_shown, random_server_shown, banner_or_default, decode_user_flags, search_key, search_pattern, user_cache_key, user_cache_seconds,
    vanity_from_stored, vanity_hidden,
};
use lightleap::resources::{resource_id, resource_refusal};
use lightleap::route_docs::{auth_needed, body, doc, Route, RouteList};
use lightleap::stats::{stats_status, stats_verdict};

#[test]
fn api_responses() {
    let ok = APIResponse::ok();
    assert!(ok.done && ok.reason.is_none() && ok.context.is_none());
    let e = APIResponse::err_small(&CheckBotError::AlreadyExists);
    assert!(!e.done);
    assert_eq!(e.reason, Some("CheckBotError.AlreadyExists".to_string()));
    assert_eq!(e.context, None);
    let w = APIResponse::err_small(&VoteBotError::Wait("1 hours".to_string()));
    assert_eq!(w.context, Some("Please wait 1 hours!".to_string()));
    assert_eq!(APIResponse::err("nope").reason, Some("nope".to_string()));
    let b = APIResponse::banned("VoteBan");
    assert_eq!(b.context, Some("VoteBan".to_string()));
    assert_eq!(APIResponse::rl(30).reason, Some("You have been rate limited for 30 seconds".to_string()));
}

#[test]
fn error_text() {
    assert_eq!(GenericError::Forbidden.error(), format!("{}: ", GenericError::Forbidden.name()));
}

#[test]
fn enum_round_trips() {
    for v in 0..10 {
        let s = State::from_value(v).unwrap();
        assert_eq!(s.value(), v);
    }
    assert_eq!(State::from_value(10), None);
    assert_eq!(State::Certified.value(), 6);
    assert_eq!(UserFlags::from_value(1), Some(UserFlags::VotesPrivate));
}

#[test]
fn import_source_names() {
    assert_eq!(ImportSource::Rdl.source_name(), "Rovel Discord List");
    assert_eq!(ImportSource::Other.source_name(), "Unknown Source");
    assert_eq!(import_source_label(ImportSource::Ibl, &None), "Infinity Bot List");
    assert_eq!(import_url(ImportSource::Rdl, 5), Some("https://discord.rovelstars.com/api/bots/5".to_string()));
    assert_eq!(import_url(ImportSource::Custom, 5), None);
}

fn text(k: &str, v: &str) -> (String, ImportValue) {
    (k.to_string(), ImportValue::Text(v.to_string()))
}

#[test]
fn import_from_rovel() {
    let fields = vec![
        text("short", "A short description"),
        text("desc", "The long description"),
        text("prefix", "!"),
        text("lib", "discord.py"),
        text("invite", "https://discord.gg/x"),
        text("username", "Cool Bot"),
        text("website", "https://cool.bot"),
        text("github", "null"),
        ("owners".to_string(), ImportValue::List(vec![Some("10".to_string()), Some("11".to_string())])),
    ];
    let bot = import_bot(ImportSource::Rdl, 10, 77, Some(fields)).unwrap();
    assert_eq!(bot.user.id, "77");
    assert_eq!(bot.description, "A short description");
    assert_eq!(bot.long_description, "The long description");
    assert_eq!(bot.library, "discord.py");
    assert_eq!(bot.prefix, Some("!".to_string()));
    assert_eq!(bot.owners.len(), 1);
    assert_eq!(bot.owners[0].user.id, "11");
    assert!(!bot.owners[0].main);
    assert_eq!(bot.tags.len(), 1);
    assert_eq!(bot.tags[0].id, "utility");
    assert_eq!(links_len(&bot.extra_links), 1);
    assert_eq!(links_get(&bot.extra_links, "Website"), Some("https://cool.bot".to_string()));
    assert!(bot.vanity.starts_with("_Cool Bot-"));
    assert_eq!(bot.vanity.len(), "_Cool Bot-".len() + 32);
    assert!(bot.vanity["_Cool Bot-".len()..].chars().all(|c| c.is_ascii_alphanumeric()));
}

#[test]
fn import_refusals() {
    let owners = ("owners".to_string(), ImportValue::List(vec![Some("11".to_string())]));
    assert_eq!(import_bot(ImportSource::Rdl, 10, 77, Some(vec![owners.clone()])).err(), Some(ImportError::NotOwner));
    assert_eq!(
        import_bot(ImportSource::Rdl, 10, 77, Some(vec![text("err", "not found")])).err(),
        Some(ImportError::NotFound)
    );
    assert_eq!(import_bot(ImportSource::Custom, 10, 77, None).err(), Some(ImportError::InvalidData));
    assert_eq!(import_bot(ImportSource::Other, 10, 77, None).err(), Some(ImportError::NotFound));
    assert!(import_bot(ImportSource::Custom, 10, 77, Some(vec![])).is_ok());
}

#[test]
fn links_keep_order_and_drop_missing() {
    let m = links_from_pairs(vec![
        ("a".to_string(), Some("1".to_string())),
        ("b".to_string(), None),
        ("c".to_string(), Some("3".to_string())),
        ("a".to_string(), Some("4".to_string())),
    ]);
    let keys: Vec<&String> = m.keys().collect();
    assert_eq!(keys, vec!["a", "b", "c"]);
    assert_eq!(links_get(&m, "a"), Some("4".to_string()));
    assert_eq!(links_get(&m, "b"), Some(String::new()));
    assert_eq!(links_get(&m, "z"), None);
    let mut direct = IndexMap::new();
    direct.insert("Metro".to_string(), "x".to_string());
    assert_eq!(metro_link(&direct, "Metro", "metro"), Some("x".to_string()));
    assert_eq!(metro_link(&direct, "Other", "other"), None);
}

fn owner(id: &str, main: bool) -> BotOwner {
    BotOwner { user: User { id: id.to_string(), ..Default::default() }, main }
}

#[test]
fn owner_rules() {
    let owners = vec![owner("1", true), owner("2", false)];
    assert!(is_owner(&owners, 2));
    assert!(!is_owner(&owners, 3));
    assert!(is_main_owner(&owners, 1));
    assert!(!is_main_owner(&owners, 2));
    assert!(may_see_settings(&owners, 2));
    assert_eq!(check_transfer(&owner("1", true), 5), Ok(1));
    assert_eq!(check_transfer(&owner("1", false), 5), Err(GenericError::InvalidFields));
    assert_eq!(check_transfer(&owner("5", true), 5), Err(GenericError::InvalidFields));
    let mut bot = Bot::default();
    let before = bot.owners.len();
    add_main_owner(&mut bot, 99);
    assert_eq!(bot.owners.len(), before + 1);
    assert!(bot.owners.last().unwrap().main);
    assert_eq!(bot.owners.last().unwrap().user.id, "99");
}

#[test]
fn owner_flags() {
    assert_eq!(kept_flags(&vec![1, 7, 8, 5]), vec![7, 8]);
    assert_eq!(merged_flags(vec![2, 7], &vec![8]), vec![2, 8]);
    assert_eq!(merged_flags(vec![1], &vec![]), vec![1]);
}

#[test]
fn document_enums_lists_every_enum() {
    let d = document_enums();
    assert!(d.starts_with("Below is a reference of all the enums used in Fates List"));
    assert!(d.contains("### State"));
    assert!(d.contains("| **Approved** | 0 |"));
    assert!(d.contains("### Flags"));
}

#[test]
fn enum_section_layout() {
    assert_eq!(enum_table(&vec![("A".to_string(), "0".to_string())]), "| **A** | 0 |\n");
    let s = new_enum(EnumDesc {
        name: "Thing".to_string(),
        description: "What it is".to_string(),
        alt_names: vec!["thing".to_string(), "things".to_string()],
        docs: "| **A** | 0 |\n".to_string(),
    });
    assert_eq!(
        s,
        "\n    \n### Thing\n\nWhat it is\n\n**Common JSON keys**\n\n- ``thing``\n- ``things``\n\n\n**Values**\n\n| Name | Value |\n| :--- | :--- |\n| **A** | 0 |\n\n"
    );
}

#[test]
fn route_pages() {
    assert_eq!(auth_needed(&vec![]), "None");
    assert_eq!(
        auth_needed(&vec![RouteAuthType::User, RouteAuthType::Bot]),
        "[User](#authorization), [Bot](#authorization)"
    );
    assert_eq!(body("Path Parameters", "d", "e"), "\n\n**Path Parameters**\n\nd\n\n");
    let route = Route {
        title: "Get Bot".to_string(),
        method: "GET".to_string(),
        path: "/bots/{id}".to_string(),
        ..Default::default()
    };
    let pages = doc("Intro", &vec![RouteList { file_name: "bots".to_string(), routes: vec![route] }]);
    assert_eq!(pages.len(), 1);
    assert_eq!(pages[0].file_name, "bots");
    assert!(pages[0].text.starts_with("Intro\n## Get Bot\n### GET `https://api.fateslist.xyz`/bots/{id}\n"));
    assert!(pages[0].text.contains("**Authorization Needed** | None"));
}

#[test]
fn records_helpers() {
    assert_eq!(search_pattern("cat"), "%cat%");
    assert_eq!(search_key("cat", 0, 100), "cat-0-100");
    assert_eq!(user_cache_key(5), "user-cache:5");
    assert_eq!(user_cache_seconds(&User::default()), 3600);
    assert_eq!(user_cache_seconds(&User { id: "1".to_string(), ..Default::default() }), 28800);
    assert!(vanity_hidden("_x"));
    assert!(!vanity_hidden("x"));
    assert_eq!(banner_or_default(None), "https://api.fateslist.xyz/static/assets/prod/banner.webp");
    let v = vanity_from_stored(Some(0), Some(12));
    assert_eq!(v.target_type, "server");
    assert_eq!(v.target_id, "12");
    assert_eq!(vanity_from_stored(None, None).target_type, "bot");
    assert_eq!(decode_user_flags(&vec![1, 99, 2]), vec![UserFlags::VotesPrivate, UserFlags::Unknown, UserFlags::Staff]);
    let idx = Index::new();
    assert!(idx.new.is_empty() && idx.tags.is_empty());
}

#[test]
fn appeal_rules() {
    assert_eq!(
        missing_experiment(TargetType::Bot, AppealType::Report, &vec![]),
        Some(UserExperiments::BotReport)
    );
    assert_eq!(missing_experiment(TargetType::Bot, AppealType::Report, &vec![UserExperiments::BotReport]), None);
    let r = not_enabled(UserExperiments::BotReport);
    assert_eq!(r.reason, Some("ExpNotEnabled".to_string()));
    assert!(appeal_text_ok("long enough"));
    assert!(!appeal_text_ok("short"));
    assert_eq!(appeal_words(AppealType::Appeal), ("Appeal", "Resubmission", "an appeal"));
    assert_eq!(
        check_certification(TargetType::Bot, State::Pending, &None, &None, 200),
        Some(AppealError::BotNotApproved)
    );
}

#[test]
fn profile_and_command_rules() {
    assert!(profile_flags_refusal(&vec![1]).is_none());
    assert!(profile_flags_refusal(&vec![2]).is_some());
    assert!(profile_links_stored(3));
    assert!(!profile_links_stored(0));
    assert!(!profile_links_stored(51));
    let r = role_update(true, false);
    assert!(r.bot_developer && !r.certified_developer);
    let cmd = BotCommand { name: String::new(), description: "d".to_string(), ..Default::default() };
    assert_eq!(
        command_refusal(&cmd).unwrap().reason,
        Some("Command name must be at least 1 character long: ".to_string())
    );
    let good = BotCommand { name: "help".to_string(), description: "d".to_string(), ..Default::default() };
    assert!(command_refusal(&good).is_none());
    let del = command_deletion(&CommandDeleteQuery {
        nuke: Some(true),
        names: Some("a|b".to_string()),
        ids: None,
    });
    assert!(del.all);
    assert_eq!(del.names, vec!["a".to_string(), "b".to_string()]);
}

#[test]
fn resource_and_notification_rules() {
    let bad = Resource {
        resource_title: "Docs".to_string(),
        resource_link: "http://x".to_string(),
        resource_description: "long enough".to_string(),
    };
    assert_eq!(resource_refusal(&bad).unwrap().reason, Some("Resource link must start with https://".to_string()));
    let untitled = Resource { resource_link: "https://x".to_string(), ..bad.clone() };
    assert_eq!(
        resource_refusal(&untitled).unwrap().reason,
        Some("Resource title must be at least 5 characters long".to_string())
    );
    let good = Resource { resource_title: "Documentation".to_string(), ..untitled.clone() };
    assert!(resource_refusal(&good).is_none());
    assert!(resource_id("bad").is_err());
    assert!(subscription_refusal(None).is_some());
    assert!(subscription_refusal(Some(0)).is_none());
}

#[test]
fn stats_rules() {
    assert_eq!(stats_status(Ok(200)), Ok(()));
    assert_eq!(stats_status(Ok(404)), Err(StatsError::ClientIDNeeded));
    assert_eq!(stats_status(Err("x".to_string())), Err(StatsError::JAPIError("x".to_string())));
    let app = JAPIApplication {
        data: JAPIAppData {
            application: JAPIAppDataApp { id: "1".to_string(), bot_public: true },
            bot: JAPIAppDataBot { id: "1".to_string(), approximate_guild_count: 10 },
        },
    };
    assert!(stats_verdict(Ok(app.clone()), -1).is_err());
    assert!(stats_verdict(Ok(app), 10).is_ok());
}

#[test]
fn worker_call_text() {
    assert_eq!(call_message("GUILDINVITE", "id1", &guild_invite_args(5, 0), None), "GUILDINVITE id1 5 0");
    assert_eq!(call_message("X", "i", &vec![], Some("k".to_string())), "X i k");
    assert_eq!(call_message("X", "i", &vec!["a".to_string()], Some("k".to_string())), "X i a k");
    assert_eq!(call_message("X", "i", &vec![], None), "X i ");
    assert_eq!(invite_reply(None), "Timeout");
    assert_eq!(invite_reply(Some("https://discord.gg/x".to_string())), "https://discord.gg/x");
}

#[test]
fn random_picks_skip_deleted_and_nsfw() {
    let named = |n: &str, flags: Vec<i32>| IndexBot {
        user: User { username: n.to_string(), ..Default::default() },
        flags,
        ..Default::default()
    };
    assert!(random_bot_shown(&named("Cool Bot", vec![])));
    assert!(!random_bot_shown(&named("Deleted User 1234", vec![])));
    assert!(!random_bot_shown(&named("Cool Bot", vec![8])));
    assert!(random_bot_shown(&named("Cool Bot", vec![7])));
    assert!(random_server_shown(&named("Deleted", vec![])));
    assert!(!random_server_shown(&named("A server", vec![1, 8])));
}
