//! Push notification subscriptions.
use crate::errors::APIError;
use vstd::prelude::*;
use vstd::string::*;

verus! {

/// A browser push subscription.
#[derive(Clone, Debug, PartialEq, Eq, Default)]
pub struct NotificationSub {
    pub endpoint: String,
    pub p256dh: String,
    pub auth: String,
}

/// The key that browsers use for pushes.
#[derive(Clone, Debug, PartialEq, Eq, Default)]
pub struct NotificationInfo {
    pub public_key: String,
}

/// Why a subscription was refused.
#[derive(Clone, Copy, Debug, PartialEq, Eq, Structural)]
pub enum NotifSubError {
    TooManySubscriptions,
}

impl APIError for NotifSubError {
    open spec fn name_text(&self) -> Seq<char> {
        "\"TooManySubscriptions\""@
    }

    open spec fn context_text(&self) -> Option<Seq<char>> {
        None
    }

    fn name(&self) -> (r: String) {
        String::from_str("\"TooManySubscriptions\"")
    }

    fn context(&self) -> (r: Option<String>) {
        None
    }
}

/// The most subscriptions a user keeps.
pub const MAX_SUBSCRIPTIONS: i64 = 10;

/// Whether a user with `count` subscriptions (none when it could not be
/// read) may add one: not past ten.
pub fn subscription_refusal(count: Option<i64>) -> (r: Option<NotifSubError>)
    ensures
        r is Some <==> (match count { Some(c) => c > MAX_SUBSCRIPTIONS, None => true }),
{
    match count {
        None => Some(NotifSubError::TooManySubscriptions),
        Some(c) => if c > MAX_SUBSCRIPTIONS {
            Some(NotifSubError::TooManySubscriptions)
        } else {
            None
        },
    }
}

} // verus!
