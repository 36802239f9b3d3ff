//! Statistics that bots post: checked against the anti-abuse service.
use crate::errors::StatsError;
use crate::models::JAPIApplication;
use crate::text::{i64_to_string, int_decimal};
use vstd::prelude::*;
use vstd::string::*;

verus! {

/// What the status of the anti-abuse service's answer decides: a failed
/// request or a status other than success refuses the statistics.
pub fn stats_status(status: Result<u16, String>) -> (r: Result<(), StatsError>)
    ensures
        status matches Err(m) ==> r == Err::<(), StatsError>(StatsError::JAPIError(m)),
        status matches Ok(s) && !(200 <= s && s <= 299) ==> r == Err::<(), StatsError>(StatsError::ClientIDNeeded),
        status matches Ok(s) && 200 <= s && s <= 299 ==> r == Ok::<(), StatsError>(()),
{
    match status {
        Err(m) => Err(StatsError::JAPIError(m)),
        Ok(s) => if 200 <= s && s <= 299 {
            Ok(())
        } else {
            Err(StatsError::ClientIDNeeded)
        },
    }
}

/// The statistics checks: a server count is never negative, and a bot that
/// reports fewer than 100 servers may not report more than 100 fewer than the
/// anti-abuse service counts.
pub fn stats_verdict(body: Result<JAPIApplication, String>, guild_count: i64) -> (r: Result<(), StatsError>)
    requires
        body matches Ok(a) ==> (0 <= guild_count < 100 ==> a.data.bot.approximate_guild_count - guild_count >= i64::MIN),
    ensures
        body matches Err(m) ==> r == Err::<(), StatsError>(StatsError::JAPIDeserError(m)),
        body matches Ok(a) ==> {
            let approx = a.data.bot.approximate_guild_count;
            &&& guild_count < 0 ==> (r matches Err(StatsError::BadStats(m)) && m@ == "Server count cannot be less than 0"@)
            &&& 0 <= guild_count < 100 && approx - guild_count > 100 ==> (r matches Err(StatsError::BadStats(m))
                && m@ == "Server count is way too high! This bot only has a approximate guild count of"@ + int_decimal(approx as int))
            &&& guild_count >= 0 && !(guild_count < 100 && approx - guild_count > 100) ==> r == Ok::<(), StatsError>(())
        },
{
    match body {
        Err(m) => Err(StatsError::JAPIDeserError(m)),
        Ok(a) => {
            let approx = a.data.bot.approximate_guild_count;
            if guild_count < 0 {
                Err(StatsError::BadStats(String::from_str("Server count cannot be less than 0")))
            } else if guild_count < 100 && approx - guild_count > 100 {
                let mut m = String::from_str("Server count is way too high! This bot only has a approximate guild count of");
                m.append(i64_to_string(approx).as_str());
                Err(StatsError::BadStats(m))
            } else {
                Ok(())
            }
        },
    }
}

} // verus!
