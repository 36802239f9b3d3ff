use lightleap::converters::{
    create_token, flags_check, invite_link, next_webhook_try, sanitize_description, vote_embed_description,
    webhook_headers, webhook_signature, WebhookOutcome,
};
use lightleap::enums::LongDescriptionType;

#[test]
fn invite_link_with_permission_number() {
    assert_eq!(
        invite_link("1234", "P:8"),
        "https://discord.com/api/oauth2/authorize?client_id=1234&permissions=8&scope=bot%20applications.commands"
    );
}

#[test]
fn invite_link_empty_asks_for_no_permission() {
    assert_eq!(
        invite_link("77", ""),
        "https://discord.com/api/oauth2/authorize?client_id=77&permissions=0&scope=bot%20applications.commands"
    );
}

#[test]
fn invite_link_plain_link_kept() {
    assert_eq!(invite_link("77", "https://example.com/invite"), "https://example.com/invite");
    assert_eq!(invite_link("77", "P:"), "P:");
}

#[test]
fn flags_check_finds_shared_flag() {
    assert!(flags_check(&[1, 2, 5], vec![7, 5]));
    assert!(!flags_check(&[1, 2, 5], vec![3, 4]));
    assert!(!flags_check(&[], vec![3]));
    assert!(!flags_check(&[3], vec![]));
}

#[test]
fn flags_check_is_symmetric_on_example() {
    let a = [4, 9];
    let b = [9, 11];
    assert_eq!(flags_check(&a, b.to_vec()), flags_check(&b, a.to_vec()));
}

#[test]
fn create_token_length_and_alphabet() {
    for n in [0usize, 1, 32, 128] {
        let t = create_token(n);
        assert_eq!(t.chars().count(), n);
        assert!(t.chars().all(|c| c.is_ascii_alphanumeric()));
    }
}

#[test]
fn sanitize_markdown_renders_heading() {
    let html = sanitize_description(LongDescriptionType::MarkdownServerSide, "# Hello");
    assert_eq!(html, "<h1>Hello</h1>\n");
}

#[test]
fn sanitize_html_drops_script() {
    let html = sanitize_description(LongDescriptionType::Html, "<p>ok</p><script>alert(1)</script>");
    assert!(html.contains("<p>ok</p>"));
    assert!(!html.contains("script"));
    assert!(!html.contains("alert"));
}

#[test]
fn sanitize_html_is_not_rendered_as_markdown() {
    let html = sanitize_description(LongDescriptionType::Html, "# not a heading");
    assert_eq!(html, "# not a heading");
}

#[test]
fn webhook_signature_is_hex_hmac_sha512() {
    let sig = webhook_signature("secret", "{\"votes\":1}");
    assert_eq!(
        sig,
        "805954f82af5cece1d5a3b9083ed5113a2b405889aeb13dbdbe507fe8586dc929f8b6d7275afe7b2876a876ca54213247e42f9cdcd86697878f945eebd1f83b4"
    );
}

#[test]
fn webhook_headers_hmac_only_drops_authorization() {
    let h = webhook_headers("secret", true, "{\"votes\":1}");
    assert_eq!(h.authorization, None);
    assert_eq!(h.signature, webhook_signature("secret", "{\"votes\":1}"));
    let h2 = webhook_headers("secret", false, "{}");
    assert_eq!(h2.authorization, Some("secret".to_string()));
}

#[test]
fn webhook_retry_stops_on_settled_status() {
    assert_eq!(next_webhook_try(0, &WebhookOutcome::Answered(200)), None);
    assert_eq!(next_webhook_try(0, &WebhookOutcome::Answered(429)), None);
    assert_eq!(next_webhook_try(2, &WebhookOutcome::Answered(401)), None);
    assert_eq!(next_webhook_try(0, &WebhookOutcome::Answered(500)), Some(1));
    assert_eq!(next_webhook_try(3, &WebhookOutcome::SendFailed("timeout".to_string())), Some(4));
    assert_eq!(next_webhook_try(4, &WebhookOutcome::Answered(502)), None);
}

#[test]
fn webhook_tries_never_exceed_five() {
    let mut tries = 0u32;
    let mut sent = 1;
    while let Some(n) = next_webhook_try(tries, &WebhookOutcome::Answered(500)) {
        assert_eq!(n, tries + 1);
        tries = n;
        sent += 1;
    }
    assert_eq!(sent, 5);
}

#[test]
fn vote_embed_text() {
    assert_eq!(
        vote_embed_description("42", 17),
        "<@42> has voted for your bot! You now have 17 votes. **GG**"
    );
}
