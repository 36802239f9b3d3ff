//! The rules of the bot routes around the checks: who may edit, move or
//! delete a bot, which flags owners may set, and what is stored.
use crate::enums::{Flags, Status, WebhookType};
use crate::errors::GenericError;
use crate::links::{key_index, link_entries, links_get};
use crate::models::{Bot, BotOwner, User};
use crate::text::{i64_to_string, int_decimal, parse_i64, parsed_i64, str_eq};
use vstd::prelude::*;
use vstd::string::*;

verus! {

/// Some owner has the id `user_id`.
pub open spec fn has_owner(owners: Seq<BotOwner>, user_id: i64) -> bool {
    exists|i: int| 0 <= i < owners.len() && owners[i].user.id@ == int_decimal(user_id as int)
}

/// The main owner has the id `user_id`.
pub open spec fn has_main_owner(owners: Seq<BotOwner>, user_id: i64) -> bool {
    exists|i: int| 0 <= i < owners.len() && owners[i].main && owners[i].user.id@ == int_decimal(user_id as int)
}

/// Whether `user_id` is among the owners (who may edit the bot).
pub fn is_owner(owners: &Vec<BotOwner>, user_id: i64) -> (r: bool)
    ensures
        r == has_owner(owners@, user_id),
{
    let id = i64_to_string(user_id);
    let mut i: usize = 0;
    while i < owners.len()
        invariant
            id@ == int_decimal(user_id as int),
            i <= owners@.len(),
            forall|k: int| 0 <= k < i ==> owners@[k].user.id@ != id@,
        decreases owners.len() - i,
    {
        if str_eq(owners[i].user.id.as_str(), id.as_str()) {
            return true;
        }
        i = i + 1;
    }
    false
}

/// Whether `user_id` is the main owner (who may move or delete the bot).
pub fn is_main_owner(owners: &Vec<BotOwner>, user_id: i64) -> (r: bool)
    ensures
        r == has_main_owner(owners@, user_id),
{
    let id = i64_to_string(user_id);
    let mut i: usize = 0;
    while i < owners.len()
        invariant
            id@ == int_decimal(user_id as int),
            i <= owners@.len(),
            forall|k: int| 0 <= k < i ==> !(owners@[k].main && owners@[k].user.id@ == id@),
        decreases owners.len() - i,
    {
        if owners[i].main && str_eq(owners[i].user.id.as_str(), id.as_str()) {
            return true;
        }
        i = i + 1;
    }
    false
}

/// The id of an owner read as a number, `0` when it is not one.
pub open spec fn owner_number(o: BotOwner) -> i64 {
    match parsed_i64(o.user.id@) {
        Some(n) => n,
        None => 0,
    }
}

/// Whether some owner's id, read as a number (`0` when it is not one), is
/// `user_id`: who may see a bot's settings.
pub fn may_see_settings(owners: &Vec<BotOwner>, user_id: i64) -> (r: bool)
    ensures
        r == exists|i: int| 0 <= i < owners@.len() && owner_number(#[trigger] owners@[i]) == user_id,
{
    let mut i: usize = 0;
    while i < owners.len()
        invariant
            i <= owners@.len(),
            forall|k: int| 0 <= k < i ==> owner_number(#[trigger] owners@[k]) != user_id,
        decreases owners.len() - i,
    {
        let n = match parse_i64(owners[i].user.id.as_str()) {
            Some(n) => n,
            None => 0,
        };
        if n == user_id {
            assert(owner_number(owners@[i as int]) == user_id);
            return true;
        }
        i = i + 1;
    }
    false
}

/// The new main owner that a transfer names, if it may take the bot: it must
/// be marked main, be someone else than `user_id`, and have a numeric id.
pub open spec fn transfer_target(owner: BotOwner, user_id: i64) -> Result<i64, GenericError> {
    if !owner.main || owner.user.id@ == int_decimal(user_id as int) {
        Err(GenericError::InvalidFields)
    } else {
        match parsed_i64(owner.user.id@) {
            None => Err(GenericError::InvalidFields),
            Some(id) => Ok(id),
        }
    }
}

/// Checks the new main owner of a transfer (see `transfer_target`) and gives its id.
pub fn check_transfer(owner: &BotOwner, user_id: i64) -> (r: Result<i64, GenericError>)
    ensures
        r == transfer_target(*owner, user_id),
{
    if !owner.main {
        return Err(GenericError::InvalidFields);
    }
    let id = i64_to_string(user_id);
    if str_eq(owner.user.id.as_str(), id.as_str()) {
        return Err(GenericError::InvalidFields);
    }
    match parse_i64(owner.user.id.as_str()) {
        None => Err(GenericError::InvalidFields),
        Some(n) => Ok(n),
    }
}

/// Adds the user who adds a bot as its main owner.
pub fn add_main_owner(bot: &mut Bot, user_id: i64)
    ensures
        final(bot).owners@.len() == old(bot).owners@.len() + 1,
        final(bot).owners@.drop_last() == old(bot).owners@,
        final(bot).owners@.last().main,
        final(bot).owners@.last().user.id@ == int_decimal(user_id as int),
        final(bot).owners@.last().user.username@.len() == 0,
        final(bot).owners@.last().user.avatar@.len() == 0,
        final(bot).owners@.last().user.disc@ == "0000"@,
        !final(bot).owners@.last().user.bot,
        final(bot).owners@.last().user.status == Status::Unknown,
        *final(bot) == (Bot { owners: final(bot).owners, ..*old(bot) }),
{
    let owner = BotOwner {
        user: User {
            id: i64_to_string(user_id),
            username: String::new(),
            avatar: String::new(),
            disc: String::from_str("0000"),
            bot: false,
            status: Status::Unknown,
        },
        main: true,
    };
    bot.owners.push(owner);
    proof {
        assert(bot.owners@.drop_last() =~= old(bot).owners@);
    }
}

/// The value of the first of two keys present among the extra links.
pub open spec fn first_link(e: Seq<(Seq<char>, Seq<char>)>, a: Seq<char>, b: Seq<char>) -> Option<Seq<char>> {
    match key_index(e, a) {
        Some(i) => Some(e[i].1),
        None => match key_index(e, b) {
            Some(j) => Some(e[j].1),
            None => None,
        },
    }
}

/// The link announced to Metro under a name: the value of its capitalized
/// key (`Website`), else of its lowercase key (`website`).
pub fn metro_link(links: &indexmap::IndexMap<String, String>, capitalized: &str, lowercase: &str) -> (r: Option<String>)
    ensures
        match r {
            Some(v) => first_link(link_entries(*links), capitalized@, lowercase@) == Some(v@),
            None => first_link(link_entries(*links), capitalized@, lowercase@) is None,
        },
{
    match links_get(links, capitalized) {
        Some(v) => Some(v),
        None => links_get(links, lowercase),
    }
}

/// The flags that owners may set themselves.
pub open spec fn owner_editable(f: i32) -> bool {
    f == Flags::KeepBannerDecor.code() || f == Flags::NSFW.code()
}

/// The flags of a new bot: those of the request that owners may set, in order.
pub open spec fn new_bot_flags(requested: Seq<i32>) -> Seq<i32>
    decreases requested.len(),
{
    if requested.len() == 0 {
        Seq::empty()
    } else {
        let prev = new_bot_flags(requested.drop_last());
        if owner_editable(requested.last()) {
            prev.push(requested.last())
        } else {
            prev
        }
    }
}

/// Keeps the flags of the request that owners may set.
pub fn kept_flags(requested: &Vec<i32>) -> (r: Vec<i32>)
    ensures
        r@ == new_bot_flags(requested@),
{
    let mut out: Vec<i32> = Vec::new();
    let mut i: usize = 0;
    while i < requested.len()
        invariant
            i <= requested@.len(),
            out@ == new_bot_flags(requested@.subrange(0, i as int)),
        decreases requested.len() - i,
    {
        let f = requested[i];
        proof {
            assert(requested@.subrange(0, i + 1).drop_last() =~= requested@.subrange(0, i as int));
        }
        if f == Flags::KeepBannerDecor.value() || f == Flags::NSFW.value() {
            out.push(f);
        }
        i = i + 1;
    }
    proof {
        assert(requested@.subrange(0, requested@.len() as int) =~= requested@);
    }
    out
}

/// The flags without `flag`, in order.
pub open spec fn without_flag(s: Seq<i32>, flag: i32) -> Seq<i32>
    decreases s.len(),
{
    if s.len() == 0 {
        Seq::empty()
    } else {
        let p = without_flag(s.drop_last(), flag);
        if s.last() == flag {
            p
        } else {
            p.push(s.last())
        }
    }
}

proof fn lemma_without_flag(s: Seq<i32>, flag: i32, f: i32)
    ensures
        without_flag(s, flag).contains(f) <==> (s.contains(f) && f != flag),
    decreases s.len(),
{
    if s.len() > 0 {
        let d = s.drop_last();
        lemma_without_flag(d, flag, f);
        let p = without_flag(d, flag);
        assert(s.contains(f) <==> (d.contains(f) || s.last() == f)) by {
            if s.contains(f) {
                let i = choose|i: int| 0 <= i < s.len() && s[i] == f;
                if i < d.len() {
                    assert(d[i] == f);
                }
            }
            if d.contains(f) {
                let i = choose|i: int| 0 <= i < d.len() && d[i] == f;
                assert(s[i] == f);
            }
            if s.last() == f {
                assert(s[s.len() - 1] == f);
            }
        }
        if s.last() != flag {
            let q = p.push(s.last());
            assert(q.contains(f) <==> (p.contains(f) || s.last() == f)) by {
                if q.contains(f) {
                    let i = choose|i: int| 0 <= i < q.len() && q[i] == f;
                    if i < p.len() {
                        assert(p[i] == f);
                    }
                }
                if p.contains(f) {
                    let i = choose|i: int| 0 <= i < p.len() && p[i] == f;
                    assert(q[i] == f);
                }
                if s.last() == f {
                    assert(q[p.len() as int] == f);
                }
            }
        }
    }
}

/// One editable flag set as requested: taken out of the stored flags, then
/// added back at the end when the request has it.
pub open spec fn with_flag_as_requested(stored: Seq<i32>, flag: i32, requested: Seq<i32>) -> Seq<i32> {
    let rest = without_flag(stored, flag);
    if requested.contains(flag) {
        rest.push(flag)
    } else {
        rest
    }
}

/// The flags of an edited bot: the stored flags, with the flags that owners
/// may set as the request has them.
pub open spec fn edited_bot_flags(stored: Seq<i32>, requested: Seq<i32>) -> Seq<i32> {
    with_flag_as_requested(
        with_flag_as_requested(stored, Flags::KeepBannerDecor.code(), requested),
        Flags::NSFW.code(),
        requested,
    )
}

fn set_flag_as_requested(stored: Vec<i32>, flag: i32, requested: &Vec<i32>) -> (r: Vec<i32>)
    ensures
        r@ == with_flag_as_requested(stored@, flag, requested@),
{
    let mut out: Vec<i32> = Vec::new();
    let mut i: usize = 0;
    while i < stored.len()
        invariant
            i <= stored@.len(),
            out@ == without_flag(stored@.subrange(0, i as int), flag),
        decreases stored.len() - i,
    {
        let x = stored[i];
        proof {
            assert(stored@.subrange(0, i + 1).drop_last() =~= stored@.subrange(0, i as int));
        }
        if x != flag {
            out.push(x);
        }
        i = i + 1;
    }
    proof {
        assert(stored@.subrange(0, stored@.len() as int) =~= stored@);
    }
    let mut j: usize = 0;
    let mut found = false;
    while j < requested.len()
        invariant
            j <= requested@.len(),
            found == requested@.subrange(0, j as int).contains(flag),
        decreases requested.len() - j,
    {
        proof {
            let p = requested@.subrange(0, j + 1);
            if p.contains(flag) && !requested@.subrange(0, j as int).contains(flag) {
                let k = choose|k: int| 0 <= k < p.len() && p[k] == flag;
                if k < j {
                    assert(requested@.subrange(0, j as int)[k] == flag);
                }
            }
            if requested@.subrange(0, j as int).contains(flag) {
                let k = choose|k: int| 0 <= k < j && requested@.subrange(0, j as int)[k] == flag;
                assert(p[k] == flag);
            }
            if requested@[j as int] == flag {
                assert(p[j as int] == flag);
            }
        }
        if requested[j] == flag {
            found = true;
        }
        j = j + 1;
    }
    proof {
        assert(requested@.subrange(0, requested@.len() as int) =~= requested@);
    }
    if found {
        out.push(flag);
    }
    out
}

/// The stored flags with the flags that owners may set as the request has them.
pub fn merged_flags(stored: Vec<i32>, requested: &Vec<i32>) -> (r: Vec<i32>)
    ensures
        r@ == edited_bot_flags(stored@, requested@),
{
    let a = set_flag_as_requested(stored, Flags::KeepBannerDecor.value(), requested);
    set_flag_as_requested(a, Flags::NSFW.value(), requested)
}

/// Law: editing a bot sets each flag that owners may set exactly as
/// requested and keeps every other stored flag as it was.
pub proof fn lemma_edited_flags(stored: Seq<i32>, requested: Seq<i32>, f: i32)
    ensures
        owner_editable(f) ==> (edited_bot_flags(stored, requested).contains(f) <==> requested.contains(f)),
        !owner_editable(f) ==> (edited_bot_flags(stored, requested).contains(f) <==> stored.contains(f)),
{
    let k = Flags::KeepBannerDecor.code();
    let n = Flags::NSFW.code();
    let a = with_flag_as_requested(stored, k, requested);
    let b = with_flag_as_requested(a, n, requested);
    lemma_flag_step(stored, k, requested, f);
    lemma_flag_step(a, n, requested, f);
}

proof fn lemma_flag_step(stored: Seq<i32>, flag: i32, requested: Seq<i32>, f: i32)
    ensures
        f == flag ==> (with_flag_as_requested(stored, flag, requested).contains(f) <==> requested.contains(f)),
        f != flag ==> (with_flag_as_requested(stored, flag, requested).contains(f) <==> stored.contains(f)),
{
    let rest = without_flag(stored, flag);
    lemma_without_flag(stored, flag, f);
    if requested.contains(flag) {
        let r2 = rest.push(flag);
        assert(r2.contains(f) <==> (rest.contains(f) || f == flag)) by {
            if f == flag {
                assert(r2[rest.len() as int] == flag);
            }
            if r2.contains(f) {
                let i = choose|i: int| 0 <= i < r2.len() && r2[i] == f;
                if i < rest.len() {
                    assert(rest[i] == f);
                }
            }
            if rest.contains(f) {
                let i = choose|i: int| 0 <= i < rest.len() && rest[i] == f;
                assert(r2[i] == f);
            }
        }
    }
}

/// What the database stores of a bot besides its plain fields.
#[derive(Clone, Debug, PartialEq, Eq)]
pub struct BotRow {
    /// The bot's id.
    pub id: i64,
    /// The client id, the bot's id when it is not a number.
    pub client_id: i64,
    /// The invite, `P:0` when none is given.
    pub invite: String,
    /// The ids of the features.
    pub features: Vec<String>,
    /// The webhook type's number, `Vote` when none is given.
    pub webhook_type: i32,
    /// Whether the webhook is HMAC-only, no when not said.
    pub webhook_hmac_only: bool,
    /// The long description type's number.
    pub long_description_type: i32,
    /// The page style's number.
    pub page_style: i32,
    /// The ids of the tags.
    pub tags: Vec<String>,
}

/// The ids of the features.
pub open spec fn feature_ids(b: Bot) -> Seq<Seq<char>> {
    b.features@.map_values(|f: crate::models::Feature| f.id@)
}

/// The ids of the tags.
pub open spec fn tag_ids(b: Bot) -> Seq<Seq<char>> {
    b.tags@.map_values(|t: crate::models::Tag| t.id@)
}

/// The row stored for a bot whose id is a number.
pub fn bot_row(bot: &Bot) -> (r: BotRow)
    requires
        parsed_i64(bot.user.id@) is Some,
    ensures
        r.id == parsed_i64(bot.user.id@)->0,
        r.client_id == match parsed_i64(bot.client_id@) {
            Some(c) => c,
            None => r.id,
        },
        r.invite@ == match bot.invite {
            Some(i) => i@,
            None => "P:0"@,
        },
        r.features@.map_values(|s: String| s@) == feature_ids(*bot),
        r.webhook_type == match bot.webhook_type {
            Some(t) => t.code(),
            None => WebhookType::Vote.code(),
        },
        r.webhook_hmac_only == match bot.webhook_hmac_only {
            Some(h) => h,
            None => false,
        },
        r.long_description_type == bot.long_description_type.code(),
        r.page_style == bot.page_style.code(),
        r.tags@.map_values(|s: String| s@) == tag_ids(*bot),
{
    let id = match parse_i64(bot.user.id.as_str()) {
        Some(n) => n,
        None => 0,
    };
    let client_id = match parse_i64(bot.client_id.as_str()) {
        Some(c) => c,
        None => id,
    };
    let invite = match &bot.invite {
        Some(i) => i.clone(),
        None => String::from_str("P:0"),
    };
    let mut features: Vec<String> = Vec::new();
    let mut i: usize = 0;
    while i < bot.features.len()
        invariant
            i <= bot.features@.len(),
            features@.map_values(|s: String| s@) == feature_ids(*bot).subrange(0, i as int),
        decreases bot.features.len() - i,
    {
        let ghost before = features@.map_values(|s: String| s@);
        features.push(bot.features[i].id.clone());
        proof {
            assert(features@.map_values(|s: String| s@) =~= before.push(bot.features@[i as int].id@));
            assert(feature_ids(*bot).subrange(0, i + 1) =~= feature_ids(*bot).subrange(0, i as int).push(
                bot.features@[i as int].id@,
            ));
        }
        i = i + 1;
    }
    let mut tags: Vec<String> = Vec::new();
    let mut j: usize = 0;
    while j < bot.tags.len()
        invariant
            j <= bot.tags@.len(),
            tags@.map_values(|s: String| s@) == tag_ids(*bot).subrange(0, j as int),
        decreases bot.tags.len() - j,
    {
        let ghost before = tags@.map_values(|s: String| s@);
        tags.push(bot.tags[j].id.clone());
        proof {
            assert(tags@.map_values(|s: String| s@) =~= before.push(bot.tags@[j as int].id@));
            assert(tag_ids(*bot).subrange(0, j + 1) =~= tag_ids(*bot).subrange(0, j as int).push(
                bot.tags@[j as int].id@,
            ));
        }
        j = j + 1;
    }
    proof {
        assert(feature_ids(*bot).subrange(0, bot.features@.len() as int) =~= feature_ids(*bot));
        assert(tag_ids(*bot).subrange(0, bot.tags@.len() as int) =~= tag_ids(*bot));
    }
    BotRow {
        id,
        client_id,
        invite,
        features,
        webhook_type: match bot.webhook_type {
            Some(t) => t.value(),
            None => WebhookType::Vote.value(),
        },
        webhook_hmac_only: match bot.webhook_hmac_only {
            Some(h) => h,
            None => false,
        },
        long_description_type: bot.long_description_type.value(),
        page_style: bot.page_style.value(),
        tags,
    }
}

} // verus!
