use lightleap::enums::{TargetType, UserFlags};
use lightleap::errors::{strip_quotes, VoteBotError};
use lightleap::text::{
    contains_char, i64_to_string, parse_i64, parse_u64, replace_all, split_char, starts_with, str_eq, title_case,
    u64_to_string, utf8_len,
};
use lightleap::votes::{
    system_vote_refusal, user_voted, vote_delivery, vote_event, vote_refusal, votes_enough_bots,
    votes_enough_servers, votes_private, wait_message, VoteDelivery, VoteTarget,
};

#[test]
fn decimal_round_trip() {
    for n in [0u64, 7, 10, 12345, u64::MAX] {
        assert_eq!(u64_to_string(n), n.to_string());
        assert_eq!(parse_u64(&n.to_string()), Some(n));
    }
    for x in [0i64, -1, 42, i64::MIN, i64::MAX] {
        assert_eq!(i64_to_string(x), x.to_string());
        assert_eq!(parse_i64(&x.to_string()), Some(x));
    }
}

#[test]
fn parse_rejects_non_numbers() {
    assert_eq!(parse_u64(""), None);
    assert_eq!(parse_u64("12a"), None);
    assert_eq!(parse_u64("18446744073709551616"), None);
    assert_eq!(parse_i64("-"), None);
    assert_eq!(parse_i64("9223372036854775808"), None);
    assert_eq!(parse_i64("+5"), Some(5));
}

#[test]
fn string_helpers() {
    assert!(starts_with("Frostpaw.abc", "Frostpaw."));
    assert!(!starts_with("Frost", "Frostpaw."));
    assert!(str_eq("abc", "abc"));
    assert!(!str_eq("abc", "abd"));
    assert!(contains_char("a:b", ':'));
    assert_eq!(replace_all("User User abc", "User ", ""), "abc");
    assert_eq!(replace_all("aaa", "aa", "b"), "ba");
    assert_eq!(split_char("a|b||c", '|'), vec!["a", "b", "", "c"]);
    assert_eq!(split_char("", '|'), vec![""]);
    assert_eq!(utf8_len("héllo"), 6);
    assert_eq!(strip_quotes("CheckBotError.\"AlreadyExists\""), "CheckBotError.AlreadyExists");
}

#[test]
fn title_case_of_tag_names() {
    assert_eq!(title_case("music bot"), "Music Bot");
    assert_eq!(title_case("role_playing"), "Role Playing");
    assert_eq!(title_case("  HELLO--world  "), "Hello World");
    assert_eq!(title_case(""), "");
}

#[test]
fn wait_message_splits_time() {
    assert_eq!(wait_message(3725), "1 hours, 2 minutes, 5 seconds");
    assert_eq!(wait_message(0), "0 hours, 0 minutes, 0 seconds");
    assert_eq!(wait_message(-61), "0 hours, -1 minutes, -1 seconds");
    assert_eq!(wait_message(43200), "12 hours, 0 minutes, 0 seconds");
}

#[test]
fn vote_refusal_messages() {
    assert_eq!(
        vote_refusal(Some(1000 + 3725), 1000),
        VoteBotError::Wait("1 hours, 2 minutes, 5 seconds".to_string())
    );
    assert_eq!(vote_refusal(None, 1000), VoteBotError::UnknownError("Failed to get expiry time".to_string()));
}

#[test]
fn vote_delivery_to_http_webhook() {
    let target = VoteTarget {
        votes: Some(10),
        webhook: Some("https://example.com/hook".to_string()),
        webhook_secret: Some(String::new()),
        webhook_type: Some(0),
        webhook_hmac_only: Some(true),
        api_token: Some("tok".to_string()),
    };
    let d = vote_delivery(target, 55, false, "eid-1", 1000).unwrap().unwrap();
    match d {
        VoteDelivery::Http { webhook, token, hmac_only, event } => {
            assert_eq!(webhook, "https://example.com/hook");
            assert_eq!(token, "tok");
            assert!(hmac_only);
            assert_eq!(event.user, "55");
            assert_eq!(event.votes, 10);
            assert_eq!(event.eid, "eid-1");
            assert_eq!(event.ts, 1000);
        },
        _ => panic!("expected an HTTP delivery"),
    }
}

#[test]
fn vote_delivery_without_webhook() {
    let target = VoteTarget { votes: Some(3), ..Default::default() };
    assert_eq!(vote_delivery(target, 55, false, "e", 0), Ok(None));
}

#[test]
fn vote_event_names_target() {
    let e = vote_event(TargetType::Bot, 9, 55, true, 4, "e1", 77);
    assert_eq!(e.m.eid, "e1");
    assert_eq!(e.props.votes, 4);
    assert!(e.props.test);
    assert_eq!(e.ctx.target, "9");
    assert_eq!(e.ctx.user, Some("55".to_string()));
}

#[test]
fn avid_voter_thresholds() {
    assert!(!votes_enough_bots(&vec![9, 9, 9, 9]));
    assert!(!votes_enough_bots(&vec![1, 2, 2, 1, 1]));
    assert!(votes_enough_bots(&vec![1, 2, 3, 1, 1]));
    assert!(!votes_enough_servers(2));
    assert!(votes_enough_servers(3));
}

#[test]
fn system_bots_refuse_votes() {
    let r = system_vote_refusal(&vec![5], TargetType::Server).unwrap();
    assert!(!r.done);
    assert_eq!(r.reason, Some("You can't vote for system servers!".to_string()));
    assert!(system_vote_refusal(&vec![0, 1], TargetType::Bot).is_none());
}

#[test]
fn private_votes() {
    assert!(votes_private(&vec![UserFlags::Staff, UserFlags::VotesPrivate]));
    assert!(!votes_private(&vec![UserFlags::Staff]));
    let hidden = user_voted(true, vec![1, 2, 3], 50, 1000);
    assert_eq!(hidden.votes, 0);
    assert!(!hidden.voted);
    assert!(hidden.timestamps.is_empty());
    let shown = user_voted(false, vec![1, 2, 3], 50, 1000);
    assert_eq!(shown.votes, 3);
    assert!(shown.voted);
    assert_eq!(shown.expiry, 50);
}
