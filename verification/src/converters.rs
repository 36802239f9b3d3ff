//! Conversions shared by the routes: invite links, description cleaning,
//! random tokens, flag tests and the signing and retrying of vote webhooks.
use crate::enums::LongDescriptionType;
use crate::text::{
    has_prefix, lemma_split_from_len, push_char, split_at_char, split_char, starts_with,
    int_decimal, i64_to_string,
};
use rand::Rng;
use vstd::prelude::*;
use vstd::string::*;

verus! {

/// The OAuth2 link that invites the bot `client_id` with the permission number `perm`.
pub open spec fn oauth_invite(client_id: Seq<char>, perm: Seq<char>) -> Seq<char> {
    "https://discord.com/api/oauth2/authorize?client_id="@ + client_id + "&permissions="@ + perm
        + "&scope=bot%20applications.commands"@
}

/// The link that a stored invite stands for: `P:<perm>` asks for an OAuth2
/// link with that permission number, an empty invite for one with `0`, and
/// anything else is the link itself.
pub open spec fn invite_link_text(client_id: Seq<char>, invite: Seq<char>) -> Seq<char> {
    if has_prefix(invite, "P:"@) && invite.len() > 2 {
        oauth_invite(client_id, split_at_char(invite, ':')[1])
    } else if invite.len() == 0 {
        oauth_invite(client_id, "0"@)
    } else {
        invite
    }
}

fn oauth_link(client_id: &str, perm: &str) -> (r: String)
    ensures
        r@ == oauth_invite(client_id@, perm@),
{
    let mut s = String::from_str("https://discord.com/api/oauth2/authorize?client_id=");
    s.append(client_id);
    s.append("&permissions=");
    s.append(perm);
    s.append("&scope=bot%20applications.commands");
    s
}

/// A text that starts with `x:` splits at `:` into at least two pieces.
pub proof fn lemma_split_two(s: Seq<char>)
    requires
        s.len() >= 2,
        s[0] != ':',
        s[1] == ':',
    ensures
        split_at_char(s, ':').len() >= 2,
{
    lemma_split_from_len(seq![s[0]], s.drop_first(), ':');
    assert(Seq::<char>::empty().push(s[0]) =~= seq![s[0]]);
}

/// The link a user follows to invite a bot (see `invite_link_text`).
pub fn invite_link(client_id: &str, invite: &str) -> (r: String)
    ensures
        r@ == invite_link_text(client_id@, invite@),
{
    let n = invite.unicode_len();
    if starts_with(invite, "P:") && n > 2 {
        proof {
            reveal_strlit("P:");
            assert(invite@[0] == "P:"@[0]);
            assert(invite@[1] == "P:"@[1]);
            lemma_split_two(invite@);
        }
        let pieces = split_char(invite, ':');
        proof {
            assert(pieces@.map_values(|p: String| p@)[1] == pieces@[1]@);
        }
        return oauth_link(client_id, pieces[1].as_str());
    } else if n == 0 {
        return oauth_link(client_id, "0");
    }
    String::from_str(invite)
}

/// Some flag of `wanted` is in `list`.
pub open spec fn shares_flag(list: Seq<i32>, wanted: Seq<i32>) -> bool {
    exists|i: int, j: int| 0 <= i < wanted.len() && 0 <= j < list.len() && wanted[i] == list[j]
}

/// Whether any flag of `flag_vec` is among `flag_list`.
pub fn flags_check(flag_list: &[i32], flag_vec: Vec<i32>) -> (r: bool)
    ensures
        r == shares_flag(flag_list@, flag_vec@),
{
    let mut i: usize = 0;
    while i < flag_vec.len()
        invariant
            i <= flag_vec@.len(),
            forall|a: int, b: int| 0 <= a < i && 0 <= b < flag_list@.len() ==> flag_vec@[a] != flag_list@[b],
        decreases flag_vec.len() - i,
    {
        let f = flag_vec[i];
        let mut j: usize = 0;
        while j < flag_list.len()
            invariant
                i < flag_vec@.len(),
                f == flag_vec@[i as int],
                j <= flag_list@.len(),
                forall|b: int| 0 <= b < j ==> f != flag_list@[b],
            decreases flag_list.len() - j,
        {
            if flag_list[j] == f {
                return true;
            }
            j = j + 1;
        }
        i = i + 1;
    }
    false
}

/// Law: testing flags does not depend on which list is searched, so
/// `flags_check(a, b)` and `flags_check(b, a)` agree.
pub proof fn lemma_flags_check_symmetric(a: Seq<i32>, b: Seq<i32>)
    ensures
        shares_flag(a, b) == shares_flag(b, a),
{
    if shares_flag(a, b) {
        let (i, j) = choose|i: int, j: int| 0 <= i < b.len() && 0 <= j < a.len() && b[i] == a[j];
        assert(0 <= j < a.len() && 0 <= i < b.len() && a[j] == b[i]);
    }
    if shares_flag(b, a) {
        let (i, j) = choose|i: int, j: int| 0 <= i < a.len() && 0 <= j < b.len() && a[i] == b[j];
        assert(0 <= j < b.len() && 0 <= i < a.len() && b[j] == a[i]);
    }
}

/// An ASCII letter or digit.
pub open spec fn is_alphanumeric(c: char) -> bool {
    ('a' <= c && c <= 'z') || ('A' <= c && c <= 'Z') || ('0' <= c && c <= '9')
}

/// `rand::thread_rng().sample(rand::distributions::Alphanumeric)`, as a char:
/// rand documents the sample as one of `a-z`, `A-Z` and `0-9`, uniformly. Which
/// one comes out is chance, so nothing more is stated.
#[verifier::external_body]
fn random_alphanumeric() -> (c: char)
    ensures
        is_alphanumeric(c),
{
    char::from(rand::thread_rng().sample(rand::distributions::Alphanumeric))
}

/// A random token of `length` ASCII letters and digits.
pub fn create_token(length: usize) -> (r: String)
    ensures
        r@.len() == length,
        forall|i: int| 0 <= i < r@.len() ==> is_alphanumeric(#[trigger] r@[i]),
{
    let mut s = String::new();
    let mut i: usize = 0;
    while i < length
        invariant
            i <= length,
            s@.len() == i,
            forall|k: int| 0 <= k < s@.len() ==> is_alphanumeric(#[trigger] s@[k]),
        decreases length - i,
    {
        let c = random_alphanumeric();
        let ghost before = s@;
        push_char(&mut s, c);
        proof {
            assert forall|k: int| 0 <= k < s@.len() implies is_alphanumeric(#[trigger] s@[k]) by {
                if k < before.len() {
                    assert(s@[k] == before[k]);
                }
            }
        }
        i = i + 1;
    }
    s
}

/// The HTML that `pulldown_cmark` renders from markdown `text` with the
/// extensions whose bits are set in `options`.
pub uninterp spec fn markdown_html(text: Seq<char>, options: u32) -> Seq<char>;

/// `pulldown_cmark::html::push_html` into an empty string, over
/// `Parser::new_ext(text, Options::from_bits_truncate(options))`. The rendering
/// takes pages to state; the result is named `markdown_html` of the text and the
/// option bits, and nothing more is claimed of it.
#[verifier::external_body]
fn render_markdown(text: &str, options: u32) -> (r: String)
    ensures
        r@ == markdown_html(text@, options),
{
    let mut html = String::new();
    let parser = pulldown_cmark::Parser::new_ext(text, pulldown_cmark::Options::from_bits_truncate(options));
    pulldown_cmark::html::push_html(&mut html, parser);
    html
}

/// The HTML that `ammonia` keeps of `html` with its default rules, less the
/// clean-content tags `rm`, plus the allowed `tags`, the attributes `generic`
/// allowed on every tag and the attributes `tag_attrs` allowed per tag.
pub uninterp spec fn ammonia_cleaned(
    html: Seq<char>,
    rm: Seq<Seq<char>>,
    tags: Seq<Seq<char>>,
    generic: Seq<Seq<char>>,
    tag_attrs: Seq<(Seq<char>, Seq<Seq<char>>)>,
) -> Seq<char>;

/// The plain view of a list of string slices.
pub open spec fn strs_view(v: Seq<&str>) -> Seq<Seq<char>> {
    v.map_values(|s: &str| s@)
}

/// The plain view of a per-tag attribute list.
pub open spec fn tag_attrs_view(v: Seq<(&str, Vec<&str>)>) -> Seq<(Seq<char>, Seq<Seq<char>>)> {
    v.map_values(|p: (&str, Vec<&str>)| (p.0@, strs_view(p.1@)))
}

/// Settings under which `ammonia`'s `clean` does not panic, as its source
/// checks them (with `link_rel` and the allowed classes left at their defaults):
/// no `rel` attribute is allowed, no SVG animation tag is allowed, and neither
/// `script` nor `style` is allowed unless it was taken out of the
/// clean-content tags.
pub open spec fn ammonia_settings_ok(
    rm: Seq<Seq<char>>,
    tags: Seq<Seq<char>>,
    generic: Seq<Seq<char>>,
    tag_attrs: Seq<(Seq<char>, Seq<Seq<char>>)>,
) -> bool {
    &&& !generic.contains("rel"@)
    &&& forall|i: int| 0 <= i < tag_attrs.len() ==> !(#[trigger] tag_attrs[i]).1.contains("rel"@)
    &&& !tags.contains("animate"@)
    &&& !tags.contains("animateTransform"@)
    &&& !tags.contains("animateMotion"@)
    &&& !tags.contains("animateColor"@)
    &&& !tags.contains("set"@)
    &&& forall|t: Seq<char>| (t == "script"@ || t == "style"@) && !rm.contains(t) ==> !tags.contains(t) && (
        forall|i: int| 0 <= i < tag_attrs.len() ==> (#[trigger] tag_attrs[i]).0 != t)
}

/// `ammonia::Builder::new()` with `rm_clean_content_tags(rm)`, `add_tags(tags)`,
/// `add_generic_attributes(generic)` and `add_tag_attributes` for each entry of
/// `tag_attrs`, then `clean(html).to_string()`. The sanitizer's output takes
/// pages to state; it is named `ammonia_cleaned` of those arguments. The
/// `requires` leaves out the settings on which `clean` panics.
#[verifier::external_body]
fn ammonia_clean(html: &str, rm: &Vec<&str>, tags: &Vec<&str>, generic: &Vec<&str>, tag_attrs: &Vec<(&str, Vec<&str>)>) -> (r: String)
    requires
        ammonia_settings_ok(strs_view(rm@), strs_view(tags@), strs_view(generic@), tag_attrs_view(tag_attrs@)),
    ensures
        r@ == ammonia_cleaned(html@, strs_view(rm@), strs_view(tags@), strs_view(generic@), tag_attrs_view(tag_attrs@)),
{
    let mut b = ammonia::Builder::new();
    b.rm_clean_content_tags(rm.iter()).add_tags(tags.iter()).add_generic_attributes(generic.iter());
    for (tag, attrs) in tag_attrs.iter() {
        b.add_tag_attributes(*tag, attrs.iter());
    }
    b.clean(html).to_string()
}

/// The `pulldown_cmark` option bits of every extension (`Options::all()`).
pub const MARKDOWN_ALL_OPTIONS: u32 = 126;

/// The clean-content tags taken out before sanitizing.
pub open spec fn sanitize_rm() -> Seq<Seq<char>> {
    seq!["style"@, "iframe"@]
}

/// The tags allowed on top of `ammonia`'s defaults.
pub open spec fn sanitize_tags() -> Seq<Seq<char>> {
    seq!["span"@, "img"@, "video"@, "iframe"@, "style"@, "p"@, "br"@, "center"@, "div"@, "h1"@, "h2"@,
        "h3"@, "h4"@, "h5"@, "section"@, "article"@, "fl-lang"@]
}

/// The attributes allowed on every tag on top of `ammonia`'s defaults.
pub open spec fn sanitize_generic() -> Seq<Seq<char>> {
    seq!["id"@, "class"@, "style"@, "data-src"@, "data-background-image"@, "data-background-image-set"@,
        "data-background-delimiter"@, "data-icon"@, "data-inline"@, "data-height"@, "code"@]
}

/// The attributes allowed per tag on top of `ammonia`'s defaults.
pub open spec fn sanitize_tag_attrs() -> Seq<(Seq<char>, Seq<Seq<char>>)> {
    seq![("iframe"@, seq!["src"@, "height"@, "width"@]),
        ("img"@, seq!["src"@, "alt"@, "width"@, "height"@, "crossorigin"@, "referrerpolicy"@, "sizes"@, "srcset"@])]
}

/// The HTML that a description of the given type renders to before it is
/// sanitized: markdown is rendered with every extension, HTML is kept.
pub open spec fn description_html(long_desc_type: LongDescriptionType, description: Seq<char>) -> Seq<char> {
    if long_desc_type == LongDescriptionType::MarkdownServerSide {
        markdown_html(description, MARKDOWN_ALL_OPTIONS)
    } else {
        description
    }
}

/// What `sanitize_description` returns.
pub open spec fn sanitized_description(long_desc_type: LongDescriptionType, description: Seq<char>) -> Seq<char> {
    ammonia_cleaned(
        description_html(long_desc_type, description),
        sanitize_rm(),
        sanitize_tags(),
        sanitize_generic(),
        sanitize_tag_attrs(),
    )
}

/// Renders a description (markdown or HTML) and sanitizes the HTML.
pub fn sanitize_description(long_desc_type: LongDescriptionType, description: &str) -> (r: String)
    ensures
        r@ == sanitized_description(long_desc_type, description@),
{
    let html = if long_desc_type == LongDescriptionType::MarkdownServerSide {
        render_markdown(description, MARKDOWN_ALL_OPTIONS)
    } else {
        String::from_str(description)
    };
    let rm = vec!["style", "iframe"];
    let tags = vec![
        "span", "img", "video", "iframe", "style", "p", "br", "center", "div", "h1", "h2", "h3", "h4", "h5",
        "section", "article", "fl-lang",
    ];
    let generic = vec![
        "id", "class", "style", "data-src", "data-background-image", "data-background-image-set",
        "data-background-delimiter", "data-icon", "data-inline", "data-height", "code",
    ];
    let tag_attrs = vec![
        ("iframe", vec!["src", "height", "width"]),
        ("img", vec!["src", "alt", "width", "height", "crossorigin", "referrerpolicy", "sizes", "srcset"]),
    ];
    proof {
        assert(strs_view(rm@) =~= sanitize_rm());
        assert(strs_view(tags@) =~= sanitize_tags());
        assert(strs_view(generic@) =~= sanitize_generic());
        assert(strs_view(tag_attrs@[0].1@) =~= sanitize_tag_attrs()[0].1);
        assert(strs_view(tag_attrs@[1].1@) =~= sanitize_tag_attrs()[1].1);
        assert(tag_attrs_view(tag_attrs@) =~= sanitize_tag_attrs());
        lemma_sanitize_settings_ok();
    }
    ammonia_clean(html.as_str(), &rm, &tags, &generic, &tag_attrs)
}

/// The sanitizer settings above are ones on which `ammonia` does not panic.
proof fn lemma_sanitize_settings_ok()
    ensures
        ammonia_settings_ok(sanitize_rm(), sanitize_tags(), sanitize_generic(), sanitize_tag_attrs()),
{
    reveal_strlit("rel");
    reveal_strlit("animate");
    reveal_strlit("animateTransform");
    reveal_strlit("animateMotion");
    reveal_strlit("animateColor");
    reveal_strlit("set");
    reveal_strlit("script");
    reveal_strlit("style");
    reveal_strlit("iframe");
    reveal_strlit("span");
    reveal_strlit("img");
    reveal_strlit("video");
    reveal_strlit("p");
    reveal_strlit("br");
    reveal_strlit("center");
    reveal_strlit("div");
    reveal_strlit("h1");
    reveal_strlit("h2");
    reveal_strlit("h3");
    reveal_strlit("h4");
    reveal_strlit("h5");
    reveal_strlit("section");
    reveal_strlit("article");
    reveal_strlit("fl-lang");
    reveal_strlit("id");
    reveal_strlit("class");
    reveal_strlit("data-src");
    reveal_strlit("data-background-image");
    reveal_strlit("data-background-image-set");
    reveal_strlit("data-background-delimiter");
    reveal_strlit("data-icon");
    reveal_strlit("data-inline");
    reveal_strlit("data-height");
    reveal_strlit("code");
    reveal_strlit("src");
    reveal_strlit("height");
    reveal_strlit("width");
    reveal_strlit("alt");
    reveal_strlit("crossorigin");
    reveal_strlit("referrerpolicy");
    reveal_strlit("sizes");
    reveal_strlit("srcset");
    let rm = sanitize_rm();
    let tags = sanitize_tags();
    let generic = sanitize_generic();
    let ta = sanitize_tag_attrs();
    assert(!generic.contains("rel"@)) by {
        assert forall|i: int| 0 <= i < generic.len() implies generic[i] != "rel"@ by {
            assert(generic[i].len() != 3 || generic[i][0] != 'r');
        }
    }
    assert forall|i: int| 0 <= i < ta.len() implies !(#[trigger] ta[i]).1.contains("rel"@) by {
        let a = ta[i].1;
        assert forall|k: int| 0 <= k < a.len() implies a[k] != "rel"@ by {
            assert(a[k].len() != 3 || a[k][0] != 'r');
        }
    }
    assert forall|k: int| 0 <= k < tags.len() implies tags[k] != "animate"@ && tags[k] != "animateTransform"@
        && tags[k] != "animateMotion"@ && tags[k] != "animateColor"@ && tags[k] != "set"@ && tags[k] != "script"@ by {
        assert(tags[k][0] != 'a' || tags[k].len() == 7);
        assert(tags[k].len() == 7 ==> tags[k][1] != 'n');
        assert(tags[k].len() != 3 || tags[k][0] != 's');
        assert(tags[k].len() != 6 || tags[k][1] != 'c');
    }
    assert(rm[0] == "style"@);
    assert(rm.contains("style"@));
    assert forall|i: int| 0 <= i < ta.len() implies (#[trigger] ta[i]).0 != "script"@ by {
        assert(ta[i].0.len() != 6 || ta[i].0[0] != 's');
    }
}

/// The signature key: the HMAC-SHA512 of `data` under `key`.
pub uninterp spec fn hmac_sha512(key: Seq<u8>, data: Seq<u8>) -> Seq<u8>;

/// `ring::hmac::sign` with a `HMAC_SHA512` key made of `key`, the tag's bytes.
/// The digest takes pages to state; it is named `hmac_sha512` of the key and
/// the data.
#[verifier::external_body]
fn hmac_sha512_tag(key: &[u8], data: &[u8]) -> (r: Vec<u8>)
    ensures
        r@ == hmac_sha512(key@, data@),
{
    let k = ring::hmac::Key::new(ring::hmac::HMAC_SHA512, key);
    ring::hmac::sign(&k, data).as_ref().to_vec()
}

/// The lowercase hexadecimal digit of a value below sixteen.
pub open spec fn hex_digit(n: int) -> char {
    if n < 10 {
        (('0' as int) + n) as char
    } else {
        (('a' as int) + n - 10) as char
    }
}

/// Each byte as two lowercase hexadecimal digits, high half first.
pub open spec fn hex_lower(b: Seq<u8>) -> Seq<char>
    decreases b.len(),
{
    if b.len() == 0 {
        Seq::empty()
    } else {
        hex_lower(b.drop_last()) + seq![hex_digit(b.last() as int / 16), hex_digit(b.last() as int % 16)]
    }
}

/// `hex::encode`: each byte as two lowercase hexadecimal digits, as the crate
/// documents and its `HEX_CHARS_LOWER` table shows.
#[verifier::external_body]
fn hex_encode(bytes: &[u8]) -> (r: String)
    ensures
        r@ == hex_lower(bytes@),
{
    hex::encode(bytes)
}

/// What `webhook_signature` returns: the hexadecimal HMAC-SHA512 of the body
/// under the webhook token, both taken as UTF-8 bytes.
pub open spec fn signature_of(token: Seq<char>, body: Seq<char>) -> Seq<char> {
    hex_lower(hmac_sha512(vstd::utf8::encode_utf8(token), vstd::utf8::encode_utf8(body)))
}

/// The `X-Webhook-Signature` of a vote webhook whose JSON body is `body`.
pub fn webhook_signature(token: &str, body: &str) -> (r: String)
    ensures
        r@ == signature_of(token@, body@),
{
    let tag = hmac_sha512_tag(token.as_bytes(), body.as_bytes());
    hex_encode(tag.as_slice())
}

/// The headers of one vote webhook request.
#[derive(Clone, Debug, PartialEq, Eq)]
pub struct WebhookHeaders {
    /// The `Authorization` header, left out for HMAC-only webhooks.
    pub authorization: Option<String>,
    /// The `X-Webhook-Signature` header.
    pub signature: String,
}

/// The headers of a vote webhook request with JSON body `body`: the token as
/// `Authorization` unless the webhook is HMAC-only, and the body's signature.
pub fn webhook_headers(token: &str, hmac_only: bool, body: &str) -> (r: WebhookHeaders)
    ensures
        r.authorization is Some <==> !hmac_only,
        r.authorization matches Some(a) ==> a@ == token@,
        r.signature@ == signature_of(token@, body@),
{
    let authorization = if hmac_only { None } else { Some(String::from_str(token)) };
    WebhookHeaders { authorization, signature: webhook_signature(token, body) }
}

/// How many times a vote webhook is sent at most.
pub const WEBHOOK_TRIES: u32 = 5;

/// What came of one vote webhook request.
#[derive(Clone, Debug, PartialEq, Eq)]
pub enum WebhookOutcome {
    /// The request could not be sent; the error's message.
    SendFailed(String),
    /// The receiver answered with this HTTP status.
    Answered(u16),
}

/// A status after which the webhook is not sent again: success, or one that
/// says that sending again would not help (429, 400, 401, 403).
pub open spec fn webhook_settled(status: u16) -> bool {
    (200 <= status && status <= 299) || status == 429 || status == 400 || status == 401 || status == 403
}

/// After try number `tries` (counting from 0) ended with `outcome`: the number
/// of the next try, or `None` when the webhook is done with.
pub open spec fn next_try(tries: u32, outcome: WebhookOutcome) -> Option<u32> {
    match outcome {
        WebhookOutcome::Answered(s) if webhook_settled(s) => None,
        _ => if tries + 1 < WEBHOOK_TRIES { Some((tries + 1) as u32) } else { None },
    }
}

/// Decides whether a vote webhook is sent again after a try.
pub fn next_webhook_try(tries: u32, outcome: &WebhookOutcome) -> (r: Option<u32>)
    requires
        tries < WEBHOOK_TRIES,
    ensures
        r == next_try(tries, *outcome),
{
    match outcome {
        WebhookOutcome::Answered(s) => {
            let s = *s;
            if (200 <= s && s <= 299) || s == 429 || s == 400 || s == 401 || s == 403 {
                return None;
            }
        },
        WebhookOutcome::SendFailed(_) => {},
    }
    if tries + 1 < WEBHOOK_TRIES {
        Some(tries + 1)
    } else {
        None
    }
}

/// Law: a vote webhook is tried at most `WEBHOOK_TRIES` times: every try that
/// follows another has the next number, still below the limit.
pub proof fn lemma_webhook_tries_bounded(tries: u32, outcome: WebhookOutcome)
    requires
        tries < WEBHOOK_TRIES,
    ensures
        next_try(tries, outcome) matches Some(n) ==> n == tries + 1 && n < WEBHOOK_TRIES,
        outcome matches WebhookOutcome::Answered(s) && webhook_settled(s) ==> next_try(tries, outcome) is None,
{
}

/// The text of the Discord message that announces a vote.
pub open spec fn vote_announcement(user: Seq<char>, votes: int) -> Seq<char> {
    "<@"@ + user + "> has voted for your bot! You now have "@ + int_decimal(votes) + " votes. **GG**"@
}

/// The description of the embed sent to a Discord-integration webhook on a vote.
pub fn vote_embed_description(user: &str, votes: i64) -> (r: String)
    ensures
        r@ == vote_announcement(user@, votes as int),
{
    let mut s = String::from_str("<@");
    s.append(user);
    s.append("> has voted for your bot! You now have ");
    let v = i64_to_string(votes);
    s.append(v.as_str());
    s.append(" votes. **GG**");
    s
}

} // verus!
