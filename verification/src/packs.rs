//! Bot packs: the checks a pack passes, and who may change it.
use crate::errors::{opt_view, GenericError, PackCheckError};
use crate::models::{APIResponse, BotPack, ResolvedPackBot};
use crate::text::{byte_len, has_prefix, parse_i64, parsed_i64, starts_with, utf8_len};
use vstd::prelude::*;
use vstd::string::*;

verus! {

/// The number that `uuid` reads from a text, if it is a UUID.
pub uninterp spec fn uuid_value(text: Seq<char>) -> Option<u128>;

/// `uuid::Uuid::parse_str`, the UUID as a number (`as_u128`). Which texts are
/// UUIDs (hyphenated, simple, braced or URN forms) takes pages to state; the
/// result is named `uuid_value` of the text.
#[verifier::external_body]
fn parse_uuid(text: &str) -> (r: Option<u128>)
    ensures
        r == uuid_value(text@),
{
    match uuid::Uuid::parse_str(text) {
        Ok(u) => Some(u.as_u128()),
        Err(_) => None,
    }
}

/// Reads an id as a UUID.
pub fn read_uuid(text: &str) -> (r: Option<u128>)
    ensures
        r == uuid_value(text@),
{
    parse_uuid(text)
}

/// The ids of the pack's bots, if all are numbers.
pub open spec fn pack_bot_ids(bots: Seq<ResolvedPackBot>) -> Option<Seq<i64>>
    decreases bots.len(),
{
    if bots.len() == 0 {
        Some(Seq::empty())
    } else {
        match (pack_bot_ids(bots.drop_last()), parsed_i64(bots.last().user.id@)) {
            (Some(ids), Some(id)) => Some(ids.push(id)),
            _ => None,
        }
    }
}

/// The checks before the pack's bots are looked up: at most seven bots, a
/// description of at least ten bytes, and numeric bot ids.
pub open spec fn pack_start_error(pack: BotPack) -> Option<PackCheckError> {
    if pack.resolved_bots@.len() > 7 {
        Some(PackCheckError::TooManyBots)
    } else if byte_len(pack.description@) < 10 {
        Some(PackCheckError::DescriptionTooShort)
    } else if pack_bot_ids(pack.resolved_bots@) is None {
        Some(PackCheckError::InvalidBotId)
    } else {
        None
    }
}

/// The ids of the pack's bots, when they are all numbers.
pub fn bot_ids(bots: &Vec<ResolvedPackBot>) -> (r: Option<Vec<i64>>)
    ensures
        match r {
            Some(ids) => pack_bot_ids(bots@) == Some(ids@),
            None => pack_bot_ids(bots@) is None,
        },
{
    let mut ids: Vec<i64> = Vec::new();
    let mut i: usize = 0;
    while i < bots.len()
        invariant
            i <= bots@.len(),
            pack_bot_ids(bots@.subrange(0, i as int)) == Some(ids@),
        decreases bots.len() - i,
    {
        proof {
            assert(bots@.subrange(0, i + 1).drop_last() =~= bots@.subrange(0, i as int));
        }
        match parse_i64(bots[i].user.id.as_str()) {
            None => {
                proof {
                    lemma_ids_prefix_none(bots@, i as int + 1);
                }
                return None;
            },
            Some(id) => {
                ids.push(id);
            },
        }
        i = i + 1;
    }
    proof {
        assert(bots@.subrange(0, bots@.len() as int) =~= bots@);
    }
    Some(ids)
}

proof fn lemma_ids_prefix_none(bots: Seq<ResolvedPackBot>, j: int)
    requires
        0 <= j <= bots.len(),
        pack_bot_ids(bots.subrange(0, j)) is None,
    ensures
        pack_bot_ids(bots) is None,
    decreases bots.len() - j,
{
    if j < bots.len() {
        assert(bots.subrange(0, j + 1).drop_last() =~= bots.subrange(0, j));
        lemma_ids_prefix_none(bots, j + 1);
    } else {
        assert(bots.subrange(0, j) =~= bots);
    }
}

/// The checks before the bots are looked up (see `pack_start_error`); on
/// success, the ids to look up.
pub fn pack_check_start(pack: &BotPack) -> (r: Result<Vec<i64>, PackCheckError>)
    ensures
        match pack_start_error(*pack) {
            Some(e) => r == Err::<Vec<i64>, PackCheckError>(e),
            None => r matches Ok(ids) && pack_bot_ids(pack.resolved_bots@) == Some(ids@),
        },
        pack.resolved_bots@.len() > 7 ==> r == Err::<Vec<i64>, PackCheckError>(PackCheckError::TooManyBots),
        r is Ok ==> pack.resolved_bots@.len() <= 7 && r->Ok_0@.len() == pack.resolved_bots@.len(),
{
    if pack.resolved_bots.len() > 7 {
        return Err(PackCheckError::TooManyBots);
    }
    if utf8_len(pack.description.as_str()) < 10 {
        return Err(PackCheckError::DescriptionTooShort);
    }
    match bot_ids(&pack.resolved_bots) {
        None => Err(PackCheckError::InvalidBotId),
        Some(ids) => {
            proof {
                lemma_pack_ids_read(pack.resolved_bots@);
            }
            Ok(ids)
        },
    }
}

/// The checks once the bots are looked up: at least two found, and an icon
/// that is empty or starts with `https://` (the banner is not checked).
pub open spec fn pack_finish_error(icon: Seq<char>, found: nat) -> Option<PackCheckError> {
    if found < 2 {
        Some(PackCheckError::TooFewBots)
    } else if icon.len() > 0 && !has_prefix(icon, "https://"@) {
        Some(PackCheckError::InvalidIcon)
    } else {
        None
    }
}

/// Puts the bots that were found into the pack and makes the remaining checks.
pub fn pack_check_finish(pack: &mut BotPack, found: Vec<ResolvedPackBot>) -> (r: Result<(), PackCheckError>)
    ensures
        final(pack).resolved_bots == found,
        *final(pack) == (BotPack { resolved_bots: found, ..*old(pack) }),
        r == match pack_finish_error(old(pack).icon@, found@.len()) {
            Some(e) => Err::<(), PackCheckError>(e),
            None => Ok(()),
        },
{
    pack.resolved_bots = found;
    if pack.resolved_bots.len() < 2 {
        return Err(PackCheckError::TooFewBots);
    }
    if pack.icon.unicode_len() > 0 && !starts_with(pack.icon.as_str(), "https://") {
        return Err(PackCheckError::InvalidIcon);
    }
    if pack.icon.unicode_len() > 0 && !starts_with(pack.icon.as_str(), "https://") {
        return Err(PackCheckError::InvalidBanner);
    }
    Ok(())
}

/// Who may change a pack: its owner; a pack without one is not found.
pub fn pack_owner_refusal(owner: Option<i64>, user_id: i64) -> (r: Option<GenericError>)
    ensures
        r == match owner {
            None => Some(GenericError::NotFound),
            Some(o) => if o != user_id { Some(GenericError::Forbidden) } else { None },
        },
{
    match owner {
        None => Some(GenericError::NotFound),
        Some(o) => if o != user_id {
            Some(GenericError::Forbidden)
        } else {
            None
        },
    }
}

/// The id of a pack being edited, which must be a UUID.
pub fn pack_id(id: &str) -> (r: Result<u128, PackCheckError>)
    ensures
        r == match uuid_value(id@) {
            Some(u) => Ok::<u128, PackCheckError>(u),
            None => Err(PackCheckError::InvalidPackId),
        },
{
    match parse_uuid(id) {
        Some(u) => Ok(u),
        None => Err(PackCheckError::InvalidPackId),
    }
}

/// The answer to a refused pack: the error's message, and what was being done.
pub fn pack_refusal(e: &PackCheckError, doing: &str) -> (r: APIResponse)
    ensures
        !r.done,
        opt_view(r.reason) == Some(e.text()),
        opt_view(r.context) == Some(doing@),
{
    APIResponse { done: false, reason: Some(e.to_string()), context: Some(String::from_str(doing)) }
}

/// Law: a pack holds at most seven bots. A pack of more than seven is
/// refused with `TooManyBots`, and a pack that passes the first checks has
/// at most seven bots, each with a numeric id, read in order.
pub proof fn lemma_pack_at_most_seven(pack: BotPack)
    ensures
        pack.resolved_bots@.len() > 7 ==> pack_start_error(pack) == Some(PackCheckError::TooManyBots),
        pack_start_error(pack) is None ==> pack.resolved_bots@.len() <= 7,
        pack_start_error(pack) is None ==> pack_bot_ids(pack.resolved_bots@) is Some && pack_bot_ids(
            pack.resolved_bots@,
        )->0.len() == pack.resolved_bots@.len() && forall|i: int| 0 <= i < pack.resolved_bots@.len() ==> parsed_i64(
            #[trigger] pack.resolved_bots@[i].user.id@,
        ) == Some(pack_bot_ids(pack.resolved_bots@)->0[i]),
{
    if pack_start_error(pack) is None {
        lemma_pack_ids_read(pack.resolved_bots@);
    }
}

proof fn lemma_pack_ids_read(bots: Seq<ResolvedPackBot>)
    ensures
        pack_bot_ids(bots) is Some ==> pack_bot_ids(bots)->0.len() == bots.len() && forall|i: int|
            0 <= i < bots.len() ==> parsed_i64(#[trigger] bots[i].user.id@) == Some(pack_bot_ids(bots)->0[i]),
    decreases bots.len(),
{
    if bots.len() > 0 {
        lemma_pack_ids_read(bots.drop_last());
        if pack_bot_ids(bots) is Some {
            let ids = pack_bot_ids(bots)->0;
            assert forall|i: int| 0 <= i < bots.len() implies parsed_i64(#[trigger] bots[i].user.id@) == Some(ids[i]) by {
                if i < bots.len() - 1 {
                    assert(bots.drop_last()[i] == bots[i]);
                }
            }
        }
    }
}

} // verus!
