//! Reviews: which reviews, edits, deletions and votes are accepted, and the
//! paging of review lists.
use crate::enums::TargetType;
use crate::errors::opt_view;
use crate::models::{APIResponse, ParsedReviewVotes};
use crate::decimals::{decimal_order, rating_order};
use crate::packs::{read_uuid, uuid_value};
use crate::text::{byte_len, i64_to_string, int_decimal, parse_i64, parsed_i64, str_eq, utf8_len};
use vstd::prelude::*;
use vstd::string::*;

verus! {

/// A rating as `BigDecimal` writes one: digits, a sign and a point, never an exponent.
pub open spec fn plain_decimal(text: Seq<char>) -> bool {
    !text.contains('e') && !text.contains('E')
}

/// A rating from 0 to 10 (a text that is not a number is refused too).
pub open spec fn rating_ok(text: Seq<char>) -> bool {
    match (decimal_order(text, 0), decimal_order(text, 10)) {
        (Some(lo), Some(hi)) => lo >= 0 && hi <= 0,
        _ => false,
    }
}

/// A review text of 10 to 20000 bytes.
pub open spec fn review_text_ok(text: Seq<char>) -> bool {
    10 <= byte_len(text) <= 20000
}

/// A failure answer with the given message.
pub open spec fn refusal_with(r: APIResponse, msg: Seq<char>) -> bool {
    !r.done && opt_view(r.reason) == Some(msg) && r.context is None
}

fn refuse(msg: &str) -> (r: APIResponse)
    ensures
        refusal_with(r, msg@),
{
    APIResponse { done: false, reason: Some(String::from_str(msg)), context: None }
}

/// A success answer with the given message.
pub open spec fn success_with(r: APIResponse, msg: Seq<char>) -> bool {
    r.done && opt_view(r.reason) == Some(msg) && r.context is None
}

/// The success answer of a review route.
pub fn review_done(msg: &str) -> (r: APIResponse)
    ensures
        success_with(r, msg@),
{
    APIResponse { done: true, reason: Some(String::from_str(msg)), context: None }
}

/// The checks of a review's content: a rating from 0 to 10 and a text of 10
/// to 20000 bytes.
pub fn review_content_refusal(star_rating: &str, text: &str) -> (r: Option<APIResponse>)
    requires
        plain_decimal(star_rating@),
    ensures
        !rating_ok(star_rating@) ==> (r matches Some(a) && refusal_with(a, "Star rating must be in range 1 to 10"@)),
        rating_ok(star_rating@) && !review_text_ok(text@) ==> (r matches Some(a) && refusal_with(
            a,
            "Review text must be between 10 and 20000 characters"@,
        )),
        rating_ok(star_rating@) && review_text_ok(text@) ==> r is None,
{
    let lo = rating_order(star_rating, 0);
    let hi = rating_order(star_rating, 10);
    let ok = match (lo, hi) {
        (Some(l), Some(h)) => l >= 0 && h <= 0,
        _ => false,
    };
    if !ok {
        return Some(refuse("Star rating must be in range 1 to 10"));
    }
    let n = utf8_len(text);
    if n > 20000 || n < 10 {
        return Some(refuse("Review text must be between 10 and 20000 characters"));
    }
    None
}

/// A review route needs the id of the user acting.
pub fn review_user(user_id: Option<i64>) -> (r: Result<i64, APIResponse>)
    ensures
        user_id matches Some(u) ==> r == Ok::<i64, APIResponse>(u),
        user_id is None ==> (r matches Err(a) && refusal_with(a, "User ID must be an i64"@)),
{
    match user_id {
        Some(u) => Ok(u),
        None => Err(refuse("User ID must be an i64")),
    }
}

/// Whether a new review may be added: a first review only when the user has
/// none yet, a reply only to an existing review.
pub fn new_review_refusal(is_reply: bool, has_own_review: bool, parent_exists: bool) -> (r: Option<APIResponse>)
    ensures
        !is_reply && has_own_review ==> (r matches Some(a) && refusal_with(
            a,
            "You have already made a review for this bot. Please edit that instead"@,
        )),
        is_reply && !parent_exists ==> (r matches Some(a) && refusal_with(a, "Parent review does not exist"@)),
        (!is_reply && !has_own_review) || (is_reply && parent_exists) ==> r is None,
{
    if !is_reply {
        if has_own_review {
            return Some(refuse("You have already made a review for this bot. Please edit that instead"));
        }
    } else if !parent_exists {
        return Some(refuse("Parent review does not exist"));
    }
    None
}

/// A review may only be added to a bot or server that exists.
pub fn review_target_refusal(target_type: TargetType, exists: bool) -> (r: Option<APIResponse>)
    ensures
        exists ==> r is None,
        !exists ==> (r matches Some(a) && refusal_with(
            a,
            if target_type == TargetType::Bot { "Bot does not exist"@ } else { "Server does not exist"@ },
        )),
{
    if exists {
        None
    } else if target_type == TargetType::Bot {
        Some(refuse("Bot does not exist"))
    } else {
        Some(refuse("Server does not exist"))
    }
}

/// A review may only be changed by its author, and must exist.
pub fn review_owner_refusal(author: Option<&str>, user_id: i64) -> (r: Option<APIResponse>)
    ensures
        author is None ==> (r matches Some(a) && refusal_with(a, "Review does not exist"@)),
        author matches Some(x) && x@ != int_decimal(user_id as int) ==> (r matches Some(a) && refusal_with(
            a,
            "You do not own this review"@,
        )),
        author matches Some(x) && x@ == int_decimal(user_id as int) ==> r is None,
{
    match author {
        None => Some(refuse("Review does not exist")),
        Some(x) => {
            if !str_eq(x, i64_to_string(user_id).as_str()) {
                Some(refuse("You do not own this review"))
            } else {
                None
            }
        },
    }
}

/// The id of the review being edited, which must be given.
pub fn edited_review_id(id: Option<u128>) -> (r: Result<u128, APIResponse>)
    ensures
        id matches Some(i) ==> r == Ok::<u128, APIResponse>(i),
        id is None ==> (r matches Err(a) && refusal_with(a, "Review ID must be an i64"@)),
{
    match id {
        Some(i) => Ok(i),
        None => Err(refuse("Review ID must be an i64")),
    }
}

/// The id of a review in a path, which must be a UUID.
pub fn review_path_id(rid: &str) -> (r: Result<u128, APIResponse>)
    ensures
        uuid_value(rid@) matches Some(u) ==> r == Ok::<u128, APIResponse>(u),
        uuid_value(rid@) is None ==> (r matches Err(a) && refusal_with(a, "Review ID must be a valid UUID"@)),
{
    match read_uuid(rid) {
        Some(u) => Ok(u),
        None => Err(refuse("Review ID must be a valid UUID")),
    }
}

/// The voter of a review vote, whose id must be a number.
pub fn review_voter(user_id: &str) -> (r: Result<i64, APIResponse>)
    ensures
        parsed_i64(user_id@) matches Some(u) ==> r == Ok::<i64, APIResponse>(u),
        parsed_i64(user_id@) is None ==> (r matches Err(a) && refusal_with(a, "User ID must be an i64"@)),
{
    match parse_i64(user_id) {
        Some(u) => Ok(u),
        None => Err(refuse("User ID must be an i64")),
    }
}

fn listed(v: &Vec<String>, id: &str) -> (r: bool)
    ensures
        r == among(v@, id@),
{
    let mut i: usize = 0;
    while i < v.len()
        invariant
            i <= v@.len(),
            forall|k: int| 0 <= k < i ==> v@[k]@ != id@,
        decreases v.len() - i,
    {
        if str_eq(v[i].as_str(), id) {
            return true;
        }
        i = i + 1;
    }
    false
}

/// The user's id is among the given votes.
pub open spec fn among(list: Seq<String>, id: Seq<char>) -> bool {
    exists|i: int| 0 <= i < list.len() && list[i]@ == id
}

/// The user already cast this vote on the review.
pub open spec fn voted_already(votes: ParsedReviewVotes, user_id: Seq<char>, upvote: bool) -> bool {
    if upvote { among(votes.upvotes@, user_id) } else { among(votes.downvotes@, user_id) }
}

/// A user who already cast the same vote on a review is told to click the
/// button again to take it back.
pub fn repeat_vote_refusal(votes: &ParsedReviewVotes, user_id: &str, upvote: bool) -> (r: Option<APIResponse>)
    ensures
        !voted_already(*votes, user_id@, upvote) ==> r is None,
        voted_already(*votes, user_id@, upvote) ==> (r matches Some(a) && refusal_with(
            a,
            if upvote {
                "You have already voted on this review. Click the upvote to upvote it."@
            } else {
                "You have already voted on this review. Click the downvote to downvote it."@
            },
        )),
{
    let again = if upvote {
        listed(&votes.upvotes, user_id)
    } else {
        listed(&votes.downvotes, user_id)
    };
    if !again {
        return None;
    }
    if upvote {
        Some(refuse("You have already voted on this review. Click the upvote to upvote it."))
    } else {
        Some(refuse("You have already voted on this review. Click the downvote to downvote it."))
    }
}

/// How many reviews a page holds.
pub const REVIEWS_PER_PAGE: i64 = 9;

/// The page of reviews asked for (the first when none is given), as the
/// number of reviews to skip; a page below 1 is refused.
pub fn review_page(page: Option<i32>) -> (r: Result<i64, APIResponse>)
    ensures
        ({
            let p = match page { Some(p) => p as int, None => 1 };
            &&& p < 1 ==> (r matches Err(a) && refusal_with(a, "Page must be greater than 0"@))
            &&& p >= 1 ==> r == Ok::<i64, APIResponse>(((p - 1) * REVIEWS_PER_PAGE) as i64)
        }),
{
    let p: i32 = match page {
        Some(p) => p,
        None => 1,
    };
    if p < 1 {
        return Err(refuse("Page must be greater than 0"));
    }
    Ok((p as i64 - 1) * REVIEWS_PER_PAGE)
}

/// The number a target type is stored as in the review table.
pub fn review_target_number(target_type: TargetType) -> (r: i32)
    ensures
        r == (if target_type == TargetType::Bot { 0i32 } else { 1i32 }),
{
    match target_type {
        TargetType::Bot => 0,
        TargetType::Server => 1,
    }
}

} // verus!
