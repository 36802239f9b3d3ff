//! Importing a bot from another bot list: the fields that list hands back are
//! turned into a bot to add, after checking that the importing user owns it.
use crate::converters::{create_token, is_alphanumeric};
use crate::enums::{Flags, LongDescriptionType, PageStyle, State, Status};
use crate::errors::{opt_view, APIError, GenericError};
use crate::links::{entries_inserted, key_index, link_entries, links_insert, links_new};
use crate::models::{APIResponse, Bot, BotOwner, ImportSource, Tag, User};
use crate::text::{i64_to_string, int_decimal, str_eq};
use vstd::prelude::*;
use vstd::string::*;

verus! {

/// A value of the JSON object that a bot list answers with, as far as an
/// import reads it.
#[derive(Clone, Debug, PartialEq, Eq)]
pub enum ImportValue {
    /// A string.
    Text(String),
    /// A boolean.
    Flag(bool),
    /// An array; each element's text when it is a string.
    List(Vec<Option<String>>),
    /// Any other value.
    Other,
}

/// The body of an import request: the bot's fields, for a custom source.
#[derive(Clone, Debug, PartialEq, Eq, Default)]
pub struct ImportBody {
    pub ext_data: Option<Vec<(String, ImportValue)>>,
}

/// Why an import was refused.
#[derive(Clone, Copy, Debug, PartialEq, Eq, Structural)]
pub enum ImportError {
    /// The source is unknown, or it does not know the bot.
    NotFound,
    /// The importing user is not among the bot's owners.
    NotOwner,
    /// A custom import came without the bot's fields.
    InvalidData,
}

/// The value stored under `key` (the first entry with that key).
pub open spec fn lookup(fields: Seq<(String, ImportValue)>, key: Seq<char>) -> Option<ImportValue>
    decreases fields.len(),
{
    if fields.len() == 0 {
        None
    } else if fields[0].0@ == key {
        Some(fields[0].1)
    } else {
        lookup(fields.drop_first(), key)
    }
}

/// The string stored under `key`, empty when it is missing or not a string.
pub open spec fn text_field(fields: Seq<(String, ImportValue)>, key: Seq<char>) -> Seq<char> {
    match lookup(fields, key) {
        Some(ImportValue::Text(s)) => s@,
        _ => Seq::empty(),
    }
}

/// The boolean stored under `key`, false when it is missing or not a boolean.
pub open spec fn flag_field(fields: Seq<(String, ImportValue)>, key: Seq<char>) -> bool {
    match lookup(fields, key) {
        Some(ImportValue::Flag(b)) => b,
        _ => false,
    }
}

/// Every element is a string.
pub open spec fn all_text(items: Seq<Option<String>>) -> bool {
    forall|i: int| 0 <= i < items.len() ==> (#[trigger] items[i]) is Some
}

/// The texts of a list whose elements are all strings.
pub open spec fn texts(items: Seq<Option<String>>) -> Seq<Seq<char>> {
    items.map_values(|o: Option<String>| match o {
        Some(s) => s@,
        None => Seq::<char>::empty(),
    })
}

/// The list of strings stored under `key`, when there is one.
pub open spec fn text_list(fields: Seq<(String, ImportValue)>, key: Seq<char>) -> Option<Seq<Seq<char>>> {
    match lookup(fields, key) {
        Some(ImportValue::List(items)) => if all_text(items@) {
            Some(texts(items@))
        } else {
            None
        },
        _ => None,
    }
}

/// The list stored under `key`, non-strings read as empty, and no list read
/// as an empty one.
pub open spec fn loose_text_list(fields: Seq<(String, ImportValue)>, key: Seq<char>) -> Seq<Seq<char>> {
    match lookup(fields, key) {
        Some(ImportValue::List(items)) => texts(items@),
        _ => Seq::empty(),
    }
}

/// The main owner that Infinity Bot List names: its text, `0` when it is not a string.
pub open spec fn ibl_main_owner(fields: Seq<(String, ImportValue)>) -> Seq<char> {
    match lookup(fields, "owner"@) {
        Some(ImportValue::Text(s)) => s@,
        _ => "0"@,
    }
}

/// The owners of the list other than the importing user, in order.
pub open spec fn other_owners(owners: Seq<Seq<char>>, user: Seq<char>) -> Seq<Seq<char>> {
    owners.filter(|o: Seq<char>| o != user)
}

/// The bot list answers with an error instead of a bot.
pub open spec fn source_refused(src: ImportSource, fields: Seq<(String, ImportValue)>) -> bool {
    (src == ImportSource::Rdl && lookup(fields, "err"@) is Some) || (src == ImportSource::Ibl && lookup(
        fields,
        "message"@,
    ) is Some)
}

/// The answers of a bot list on which the import reads its owners without
/// failing: Rovel Discord List gives a list of string owners, Infinity Bot
/// List a main owner and a list of string additional owners.
pub open spec fn owners_readable(src: ImportSource, fields: Seq<(String, ImportValue)>) -> bool {
    match src {
        ImportSource::Rdl => text_list(fields, "owners"@) is Some,
        ImportSource::Ibl => lookup(fields, "owner"@) is Some && text_list(fields, "additional_owners"@) is Some,
        _ => true,
    }
}

/// The owners that an import reads.
pub open spec fn listed_owners(src: ImportSource, fields: Seq<(String, ImportValue)>) -> Seq<Seq<char>> {
    match src {
        ImportSource::Rdl => text_list(fields, "owners"@)->0,
        ImportSource::Ibl => text_list(fields, "additional_owners"@)->0,
        _ => loose_text_list(fields, "owners"@),
    }
}

/// The importing user owns the bot by what the list says: among the owners;
/// for Infinity Bot List also as main owner; for a custom source also when
/// no owner is given.
pub open spec fn user_owns(src: ImportSource, fields: Seq<(String, ImportValue)>, user: Seq<char>) -> bool {
    let owners = listed_owners(src, fields);
    owners.contains(user) || (src == ImportSource::Ibl && ibl_main_owner(fields) == user) || (src
        == ImportSource::Custom && owners.len() == 0)
}

/// The keys under which each source names the bot's fields: short
/// description, long description, library and name.
pub open spec fn short_key(src: ImportSource) -> Seq<char> {
    if src == ImportSource::Custom { "description"@ } else { "short"@ }
}

pub open spec fn long_key(src: ImportSource) -> Seq<char> {
    match src {
        ImportSource::Rdl => "desc"@,
        ImportSource::Ibl => "long"@,
        _ => "long_description"@,
    }
}

pub open spec fn library_text(src: ImportSource, fields: Seq<(String, ImportValue)>) -> Seq<char> {
    match src {
        ImportSource::Rdl => text_field(fields, "lib"@),
        ImportSource::Ibl => text_field(fields, "library"@),
        _ => Seq::empty(),
    }
}

pub open spec fn name_key(src: ImportSource) -> Seq<char> {
    if src == ImportSource::Ibl { "name"@ } else { "username"@ }
}

/// A link value that is kept: neither empty nor the text `null`.
pub open spec fn link_kept(v: Seq<char>) -> bool {
    v.len() > 0 && v != "null"@
}

/// The extra links of an imported bot: its website, then its GitHub page.
pub open spec fn imported_links(fields: Seq<(String, ImportValue)>) -> Seq<(Seq<char>, Seq<char>)> {
    let w = text_field(fields, "website"@);
    let g = text_field(fields, "github"@);
    let first = if link_kept(w) { seq![("Website"@, w)] } else { Seq::empty() };
    if link_kept(g) { first.push(("Github"@, g)) } else { first }
}

/// The URL that a source is asked for a bot, for the sources that are asked.
pub open spec fn import_url_text(src: ImportSource, bot_id: i64) -> Option<Seq<char>> {
    match src {
        ImportSource::Rdl => Some("https://discord.rovelstars.com/api/bots/"@ + int_decimal(bot_id as int)),
        ImportSource::Ibl => Some("https://api.infinitybotlist.com/fates/bots/"@ + int_decimal(bot_id as int)),
        _ => None,
    }
}

/// Where to fetch a bot to import from: Rovel Discord List and Infinity Bot
/// List are asked over HTTP; a custom import brings its data; other sources
/// are unknown.
pub fn import_url(src: ImportSource, bot_id: i64) -> (r: Option<String>)
    ensures
        opt_view(r) == import_url_text(src, bot_id),
{
    match src {
        ImportSource::Rdl => Some(String::from_str("https://discord.rovelstars.com/api/bots/").concat(
            i64_to_string(bot_id).as_str(),
        )),
        ImportSource::Ibl => Some(String::from_str("https://api.infinitybotlist.com/fates/bots/").concat(
            i64_to_string(bot_id).as_str(),
        )),
        _ => None,
    }
}

fn find_field<'a>(fields: &'a Vec<(String, ImportValue)>, key: &str) -> (r: Option<&'a ImportValue>)
    ensures
        match r {
            Some(v) => lookup(fields@, key@) == Some(*v),
            None => lookup(fields@, key@) is None,
        },
{
    let mut i: usize = 0;
    proof {
        assert(fields@.subrange(0, fields@.len() as int) =~= fields@);
    }
    while i < fields.len()
        invariant
            i <= fields@.len(),
            lookup(fields@, key@) == lookup(fields@.subrange(i as int, fields@.len() as int), key@),
        decreases fields.len() - i,
    {
        let ghost rest = fields@.subrange(i as int, fields@.len() as int);
        proof {
            assert(rest[0] == fields@[i as int]);
            assert(rest.drop_first() =~= fields@.subrange(i + 1, fields@.len() as int));
        }
        if str_eq(fields[i].0.as_str(), key) {
            return Some(&fields[i].1);
        }
        i = i + 1;
    }
    None
}

fn read_text(fields: &Vec<(String, ImportValue)>, key: &str) -> (r: String)
    ensures
        r@ == text_field(fields@, key@),
{
    match find_field(fields, key) {
        Some(ImportValue::Text(s)) => s.clone(),
        _ => String::new(),
    }
}

fn read_flag(fields: &Vec<(String, ImportValue)>, key: &str) -> (r: bool)
    ensures
        r == flag_field(fields@, key@),
{
    match find_field(fields, key) {
        Some(ImportValue::Flag(b)) => *b,
        _ => false,
    }
}

/// The texts of a list, non-strings read as empty.
fn list_texts(items: &Vec<Option<String>>) -> (r: Vec<String>)
    ensures
        r@.map_values(|s: String| s@) == texts(items@),
{
    let mut out: Vec<String> = Vec::new();
    let mut i: usize = 0;
    while i < items.len()
        invariant
            i <= items@.len(),
            out@.map_values(|s: String| s@) == texts(items@.subrange(0, i as int)),
        decreases items.len() - i,
    {
        let t = match &items[i] {
            Some(s) => s.clone(),
            None => String::new(),
        };
        let ghost before = out@.map_values(|s: String| s@);
        out.push(t);
        proof {
            assert(texts(items@.subrange(0, i + 1)) =~= texts(items@.subrange(0, i as int)).push(t@));
            assert(out@.map_values(|s: String| s@) =~= before.push(t@));
        }
        i = i + 1;
    }
    proof {
        assert(items@.subrange(0, items@.len() as int) =~= items@);
    }
    out
}

/// The owners that an import reads (see `listed_owners`).
fn read_owners(src: ImportSource, fields: &Vec<(String, ImportValue)>) -> (r: Vec<String>)
    requires
        owners_readable(src, fields@),
    ensures
        r@.map_values(|s: String| s@) == listed_owners(src, fields@),
{
    let key = match src {
        ImportSource::Ibl => "additional_owners",
        _ => "owners",
    };
    match find_field(fields, key) {
        Some(ImportValue::List(items)) => list_texts(items),
        _ => {
            proof {
                assert(Seq::<String>::empty().map_values(|s: String| s@) =~= Seq::<Seq<char>>::empty());
            }
            Vec::new()
        },
    }
}

/// Splits the listed owners into whether `user` is among them and the others,
/// as extra owners.
fn split_owners(owners: Vec<String>, user: &str) -> (r: (bool, Vec<BotOwner>))
    ensures
        r.0 == owners@.map_values(|s: String| s@).contains(user@),
        r.1@.map_values(|o: BotOwner| o.user.id@) == other_owners(owners@.map_values(|s: String| s@), user@),
        forall|i: int| 0 <= i < r.1@.len() ==> !(#[trigger] r.1@[i]).main && r.1@[i].user.username@.len() == 0,
{
    let ghost ov = owners@.map_values(|s: String| s@);
    let mut got = false;
    let mut extra: Vec<BotOwner> = Vec::new();
    let mut i: usize = 0;
    let n = owners.len();
    while i < n
        invariant
            n == owners@.len(),
            ov == owners@.map_values(|s: String| s@),
            i <= n,
            got == ov.subrange(0, i as int).contains(user@),
            extra@.map_values(|o: BotOwner| o.user.id@) == other_owners(ov.subrange(0, i as int), user@),
            forall|k: int| 0 <= k < extra@.len() ==> !(#[trigger] extra@[k]).main && extra@[k].user.username@.len() == 0,
        decreases n - i,
    {
        let o = owners[i].clone();
        let ghost pre = ov.subrange(0, i as int);
        let ghost next = ov.subrange(0, i + 1);
        proof {
            assert(next =~= pre.push(o@));
            assert(ov[i as int] == o@);
            reveal(Seq::filter);
            assert(next.drop_last() =~= pre);
        }
        if str_eq(o.as_str(), user) {
            got = true;
            proof {
                assert(next.contains(user@)) by {
                    assert(next[i as int] == user@);
                }
                assert(other_owners(next, user@) =~= other_owners(pre, user@));
            }
        } else {
            let ghost before = extra@.map_values(|x: BotOwner| x.user.id@);
            let ghost oid = o@;
            extra.push(BotOwner {
                user: User {
                    id: o,
                    username: String::new(),
                    disc: String::new(),
                    avatar: String::new(),
                    bot: false,
                    status: Status::Unknown,
                },
                main: false,
            });
            proof {
                assert(extra@.map_values(|x: BotOwner| x.user.id@) =~= before.push(oid));
                assert(other_owners(next, user@) =~= other_owners(pre, user@).push(oid));
                assert(next.contains(user@) == pre.contains(user@)) by {
                    if next.contains(user@) {
                        let k = choose|k: int| 0 <= k < next.len() && next[k] == user@;
                        if k < pre.len() {
                            assert(pre[k] == user@);
                        }
                    }
                    if pre.contains(user@) {
                        let k = choose|k: int| 0 <= k < pre.len() && pre[k] == user@;
                        assert(next[k] == user@);
                    }
                }
            }
        }
        i = i + 1;
    }
    proof {
        assert(ov.subrange(0, n as int) =~= ov);
    }
    (got, extra)
}

/// The vanity of an imported bot: `_`, its name on the other list, `-`, then
/// a random token of 32 letters and digits.
pub open spec fn imported_vanity(v: Seq<char>, name: Seq<char>) -> bool {
    &&& v.len() == name.len() + 34
    &&& v.subrange(0, name.len() + 2int) == "_"@ + name + "-"@
    &&& forall|i: int| name.len() + 2 <= i < v.len() ==> is_alphanumeric(#[trigger] v[i])
}

/// The import refused, and why: an unknown source, a source that does not
/// know the bot, a custom import without data, or a user who does not own
/// the bot.
pub open spec fn import_refusal(src: ImportSource, user_id: i64, data: Option<Seq<(String, ImportValue)>>) -> Option<ImportError> {
    if src == ImportSource::Other {
        Some(ImportError::NotFound)
    } else {
        match data {
            None => Some(if src == ImportSource::Custom { ImportError::InvalidData } else { ImportError::NotFound }),
            Some(f) => if source_refused(src, f) {
                Some(ImportError::NotFound)
            } else if !user_owns(src, f, int_decimal(user_id as int)) {
                Some(ImportError::NotOwner)
            } else {
                None
            },
        }
    }
}

/// The plain view of an optional list of fields.
pub open spec fn fields_view(data: Option<Vec<(String, ImportValue)>>) -> Option<Seq<(String, ImportValue)>> {
    match data {
        Some(f) => Some(f@),
        None => None,
    }
}

fn read_link(fields: &Vec<(String, ImportValue)>, key: &str) -> (r: (String, bool))
    ensures
        r.0@ == text_field(fields@, key@),
        r.1 == link_kept(r.0@),
{
    let v = read_text(fields, key);
    let kept = v.unicode_len() > 0 && !str_eq(v.as_str(), "null");
    (v, kept)
}

/// Builds the bot that user `user_id` imports as `bot_id` from `src`, out of
/// the fields that the source handed back (for a custom source, those of the
/// request). Fields come as the source names them; the rest is as in
/// `Bot::default()`.
pub fn import_bot(src: ImportSource, user_id: i64, bot_id: i64, data: Option<Vec<(String, ImportValue)>>) -> (r: Result<Bot, ImportError>)
    requires
        data matches Some(f) ==> source_refused(src, f@) || owners_readable(src, f@),
    ensures
        match import_refusal(src, user_id, fields_view(data)) {
            Some(e) => r == Err::<Bot, ImportError>(e),
            None => r is Ok,
        },
        src == ImportSource::Ibl && data is Some && !source_refused(src, fields_view(data)->0) && (lookup(
            fields_view(data)->0,
            "owner"@,
        ) matches Some(ImportValue::Text(s)) && s@ == int_decimal(user_id as int)) ==> r is Ok,
        r matches Ok(bot) ==> {
            let f = fields_view(data)->0;
            &&& bot.user.id@ == int_decimal(bot_id as int)
            &&& bot.user.username@.len() == 0
            &&& bot.description@ == text_field(f, short_key(src))
            &&& bot.long_description@ == text_field(f, long_key(src))
            &&& bot.prefix matches Some(p) && p@ == text_field(f, "prefix"@)
            &&& bot.library@ == library_text(src, f)
            &&& bot.invite matches Some(i) && i@ == text_field(f, "invite"@)
            &&& imported_vanity(bot.vanity@, text_field(f, name_key(src)))
            &&& bot.shard_count == 0
            &&& bot.owners@.map_values(|o: BotOwner| o.user.id@) == other_owners(listed_owners(src, f), int_decimal(user_id as int))
            &&& forall|i: int| 0 <= i < bot.owners@.len() ==> !(#[trigger] bot.owners@[i]).main
            &&& link_entries(bot.extra_links) == imported_links(f)
            &&& bot.tags@.len() == 1 && bot.tags@[0].id@ == "utility"@
            &&& bot.flags@ == (if src == ImportSource::Ibl && flag_field(f, "nsfw"@) { seq![Flags::NSFW.code()] } else { Seq::<i32>::empty() })
            &&& bot.client_id@.len() == 0
            &&& bot.state == State::Approved
            &&& bot.long_description_type == LongDescriptionType::MarkdownServerSide
            &&& bot.page_style == PageStyle::SingleScroll
            &&& bot.guild_count == 0
        },
{
    if src == ImportSource::Other {
        return Err(ImportError::NotFound);
    }
    let fields = match data {
        None => {
            return Err(if src == ImportSource::Custom { ImportError::InvalidData } else { ImportError::NotFound });
        },
        Some(f) => f,
    };
    let refused = match src {
        ImportSource::Rdl => find_field(&fields, "err").is_some(),
        ImportSource::Ibl => find_field(&fields, "message").is_some(),
        _ => false,
    };
    if refused {
        return Err(ImportError::NotFound);
    }
    let user_text = i64_to_string(user_id);
    let owners = read_owners(src, &fields);
    let ghost listed = owners@.map_values(|s: String| s@);
    let empty_list = owners.len() == 0;
    let main_owns = match src {
        ImportSource::Ibl => {
            let main = match find_field(&fields, "owner") {
                Some(ImportValue::Text(m)) => m.clone(),
                _ => String::from_str("0"),
            };
            str_eq(main.as_str(), user_text.as_str())
        },
        _ => false,
    };
    let (listed_owns, extra_owners) = split_owners(owners, user_text.as_str());
    let owns = listed_owns || main_owns || (src == ImportSource::Custom && empty_list);
    if !owns {
        return Err(ImportError::NotOwner);
    }
    let mut extra_links = links_new();
    let (website, keep_website) = read_link(&fields, "website");
    let (github, keep_github) = read_link(&fields, "github");
    proof {
        reveal_strlit("Website");
        reveal_strlit("Github");
    }
    let ghost after_website: Seq<(Seq<char>, Seq<char>)> = if keep_website {
        seq![("Website"@, website@)]
    } else {
        Seq::empty()
    };
    if keep_website {
        links_insert(&mut extra_links, String::from_str("Website"), website);
        proof {
            assert(link_entries(extra_links) =~= after_website);
        }
    }
    if keep_github {
        proof {
            assert(key_index(after_website, "Github"@) is None) by {
                if after_website.len() == 1 {
                    assert(after_website[0].0 != "Github"@) by {
                        assert(after_website[0].0[0] != "Github"@[0]);
                    }
                }
            }
        }
        links_insert(&mut extra_links, String::from_str("Github"), github);
    }
    proof {
        assert(link_entries(extra_links) =~= imported_links(fields@));
    }
    let name_key_text = if src == ImportSource::Ibl { "name" } else { "username" };
    let name = read_text(&fields, name_key_text);
    let token = create_token(32);
    let mut vanity = String::from_str("_");
    vanity.append(name.as_str());
    vanity.append("-");
    vanity.append(token.as_str());
    proof {
        reveal_strlit("_");
        reveal_strlit("-");
        assert(vanity@.subrange(0, name@.len() + 2int) =~= "_"@ + name@ + "-"@);
        assert forall|i: int| name@.len() + 2 <= i < vanity@.len() implies is_alphanumeric(#[trigger] vanity@[i]) by {
            assert(vanity@[i] == token@[i - name@.len() - 2]);
        }
    }
    let short_key_text = if src == ImportSource::Custom { "description" } else { "short" };
    let long_key_text = match src {
        ImportSource::Rdl => "desc",
        ImportSource::Ibl => "long",
        _ => "long_description",
    };
    let library = match src {
        ImportSource::Rdl => read_text(&fields, "lib"),
        ImportSource::Ibl => read_text(&fields, "library"),
        _ => String::new(),
    };
    let mut flags: Vec<i32> = Vec::new();
    if src == ImportSource::Ibl && read_flag(&fields, "nsfw") {
        flags.push(Flags::NSFW.value());
    }
    let tag = Tag { name: String::new(), iconify_data: String::new(), id: String::from_str("utility"), owner_guild: None };
    let base = Bot::default();
    let bot = Bot {
        user: User {
            id: i64_to_string(bot_id),
            username: String::new(),
            disc: String::new(),
            avatar: String::new(),
            bot: false,
            status: Status::Unknown,
        },
        description: read_text(&fields, short_key_text),
        long_description: read_text(&fields, long_key_text),
        prefix: Some(read_text(&fields, "prefix")),
        library,
        extra_links,
        invite: Some(read_text(&fields, "invite")),
        vanity,
        shard_count: 0,
        owners: extra_owners,
        tags: vec![tag],
        flags,
        ..base
    };
    proof {
        assert(bot.flags@ =~= (if src == ImportSource::Ibl && flag_field(fields@, "nsfw"@) { seq![Flags::NSFW.code()] } else { Seq::<i32>::empty() }));
    }
    Ok(bot)
}

impl ImportError {
    /// The answer to a refused import: `NotFound` as a generic error, the
    /// others with their message.
    pub fn response(&self) -> (r: APIResponse)
        ensures
            !r.done,
            *self == ImportError::NotFound ==> opt_view(r.reason) == Some("NotFound"@) && r.context is None,
            *self == ImportError::NotOwner ==> opt_view(r.reason) == Some(
                "You are not allowed to import bots you are not owner of!"@,
            ) && r.context is None,
            *self == ImportError::InvalidData ==> opt_view(r.reason) == Some("Invalid bot data"@) && r.context is None,
    {
        match self {
            ImportError::NotFound => {
                let r = APIResponse::err_small(&GenericError::NotFound);
                proof {
                    reveal_strlit("\"NotFound\"");
                    reveal_strlit("NotFound");
                    assert("\"NotFound\""@ =~= seq!['"'] + "NotFound"@ + seq!['"']);
                    crate::errors::lemma_unquoted_name("NotFound"@);
                }
                r
            },
            ImportError::NotOwner => APIResponse::err("You are not allowed to import bots you are not owner of!"),
            ImportError::InvalidData => APIResponse::err("Invalid bot data"),
        }
    }
}

/// How the bot log names the source of an import: a custom source with the
/// name given for it (`Unknown` when none was).
pub open spec fn source_label(src: ImportSource, custom: Option<String>) -> Seq<char> {
    if src == ImportSource::Custom {
        src.display_name() + "("@ + (match custom {
            Some(c) => c@,
            None => "Unknown"@,
        }) + ")"@
    } else {
        src.display_name()
    }
}

/// The name of an import's source for the bot log.
pub fn import_source_label(src: ImportSource, custom: &Option<String>) -> (r: String)
    ensures
        r@ == source_label(src, *custom),
{
    let mut s = src.source_name();
    if src == ImportSource::Custom {
        s.append("(");
        match custom {
            Some(c) => s.append(c.as_str()),
            None => s.append("Unknown"),
        }
        s.append(")");
    }
    s
}

/// Law: the main owner that Infinity Bot List names may import the bot.
/// When the list answers with a bot (no `message`) whose `owner` is the
/// importing user's id as text, the import is not refused; the same holds
/// on every source for a user listed among the owners the source names.
pub proof fn lemma_named_owner_may_import(src: ImportSource, user_id: i64, f: Seq<(String, ImportValue)>)
    requires
        src != ImportSource::Other,
        !source_refused(src, f),
    ensures
        src == ImportSource::Ibl && (lookup(f, "owner"@) matches Some(ImportValue::Text(s)) && s@ == int_decimal(
            user_id as int,
        )) ==> import_refusal(src, user_id, Some(f)) is None,
        listed_owners(src, f).contains(int_decimal(user_id as int)) ==> import_refusal(src, user_id, Some(f)) is None,
        import_refusal(src, user_id, Some(f)) is None || import_refusal(src, user_id, Some(f)) == Some(
            ImportError::NotOwner,
        ),
{
}

} // verus!
