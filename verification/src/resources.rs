//! Resources (links with a title and description) of bots and servers.
use crate::errors::opt_view;
use crate::models::{APIResponse, Resource};
use crate::packs::{read_uuid, uuid_value};
use crate::text::{byte_len, has_prefix, starts_with, utf8_len};
use vstd::prelude::*;
use vstd::string::*;

verus! {

/// The checks of a new resource: an HTTPS link, and a description and a title
/// of at least five bytes each.
pub open spec fn resource_error(res: Resource) -> Option<Seq<char>> {
    if !has_prefix(res.resource_link@, "https://"@) {
        Some("Resource link must start with https://"@)
    } else if byte_len(res.resource_description@) < 5 {
        Some("Resource description must be at least 5 characters long"@)
    } else if byte_len(res.resource_title@) < 5 {
        Some("Resource title must be at least 5 characters long"@)
    } else {
        None
    }
}

/// The answer to a refused resource (see `resource_error`), none when it passes.
pub fn resource_refusal(res: &Resource) -> (r: Option<APIResponse>)
    ensures
        match resource_error(*res) {
            Some(m) => r matches Some(a) && !a.done && opt_view(a.reason) == Some(m) && opt_view(a.context) == Some(
                "Check error"@,
            ),
            None => r is None,
        },
{
    let msg = if !starts_with(res.resource_link.as_str(), "https://") {
        "Resource link must start with https://"
    } else if utf8_len(res.resource_description.as_str()) < 5 {
        "Resource description must be at least 5 characters long"
    } else if utf8_len(res.resource_title.as_str()) < 5 {
        "Resource title must be at least 5 characters long"
    } else {
        return None;
    };
    Some(APIResponse { done: false, reason: Some(String::from_str(msg)), context: Some(String::from_str("Check error")) })
}

/// The id of a resource to delete, which must be a UUID.
pub fn resource_id(id: &str) -> (r: Result<u128, APIResponse>)
    ensures
        uuid_value(id@) matches Some(u) ==> r == Ok::<u128, APIResponse>(u),
        uuid_value(id@) is None ==> (r matches Err(a) && !a.done && a.context is None && opt_view(a.reason) == Some(
            "Resource ID must be a valid UUID"@,
        )),
{
    match read_uuid(id) {
        Some(u) => Ok(u),
        None => Err(APIResponse {
            done: false,
            reason: Some(String::from_str("Resource ID must be a valid UUID")),
            context: None,
        }),
    }
}

} // verus!
