//! The websocket gateway: the commands a session takes, and the preview of
//! descriptions.
use crate::converters::{sanitize_description, sanitized_description};
use crate::models::{PreviewRequest, PreviewResponse, WsMode};
use crate::text::{i64_to_string, int_decimal, str_eq};
use vstd::prelude::*;
use vstd::string::*;

verus! {

/// What a gateway session does with a text message.
#[derive(Clone, Debug, PartialEq, Eq)]
pub enum GatewayAction {
    /// Answer with the time since the last pong.
    Heartbeat,
    /// Start forwarding live events.
    Subscribe,
    /// Start sending the archived events.
    Archive,
    /// Stop the running task and say so with `GWTASK NONE`.
    EndTask,
    /// Close the session with this code and reason.
    Close(u16, String),
    /// Nothing.
    Ignore,
}

/// The message of a gateway session that already runs a task.
pub open spec fn busy_reason() -> Seq<char> {
    "You can only have one gateway task per session at any given time"@
}

/// The message of a gateway session asked to end a task it does not run.
pub open spec fn idle_reason() -> Seq<char> {
    "You can only unsubscribe if you actually have a gateway task running"@
}

/// What a gateway session does with a text message, given whether a task
/// already runs: `PING` is answered, `SUB` and `ARCHIVE` start a task (a
/// session runs at most one, closing with 4001 otherwise), `ENDGWTASK` ends
/// it (closing with 4002 when none runs); anything else is ignored.
pub fn gateway_command(running: bool, text: &str) -> (r: GatewayAction)
    ensures
        text@ == "PING"@ ==> r == GatewayAction::Heartbeat,
        text@ != "PING"@ && (text@ == "SUB"@ || text@ == "ARCHIVE"@) && running ==> (r matches GatewayAction::Close(c, m)
            && c == 4001 && m@ == busy_reason()),
        text@ == "SUB"@ && !running ==> r == GatewayAction::Subscribe,
        text@ == "ARCHIVE"@ && !running ==> r == GatewayAction::Archive,
        text@ == "ENDGWTASK"@ && running ==> r == GatewayAction::EndTask,
        text@ == "ENDGWTASK"@ && !running ==> (r matches GatewayAction::Close(c, m) && c == 4002 && m@ == idle_reason()),
        text@ != "PING"@ && text@ != "SUB"@ && text@ != "ARCHIVE"@ && text@ != "ENDGWTASK"@ ==> r == GatewayAction::Ignore,
{
    proof {
        reveal_strlit("PING");
        reveal_strlit("SUB");
        reveal_strlit("ARCHIVE");
        reveal_strlit("ENDGWTASK");
        assert("PING"@.len() == 4);
        assert("SUB"@.len() == 3);
        assert("ARCHIVE"@.len() == 7);
        assert("ENDGWTASK"@.len() == 9);
    }
    if str_eq(text, "PING") {
        return GatewayAction::Heartbeat;
    }
    if str_eq(text, "SUB") || str_eq(text, "ARCHIVE") {
        if running {
            return GatewayAction::Close(4001, String::from_str("You can only have one gateway task per session at any given time"));
        }
        if str_eq(text, "SUB") {
            return GatewayAction::Subscribe;
        }
        return GatewayAction::Archive;
    }
    if str_eq(text, "ENDGWTASK") {
        if !running {
            return GatewayAction::Close(
                4002,
                String::from_str("You can only unsubscribe if you actually have a gateway task running"),
            );
        }
        return GatewayAction::EndTask;
    }
    GatewayAction::Ignore
}

/// Whether a task runs after an action.
pub open spec fn runs_after(running: bool, a: GatewayAction) -> bool {
    match a {
        GatewayAction::Subscribe | GatewayAction::Archive => true,
        GatewayAction::EndTask => false,
        _ => running,
    }
}

/// Law: a gateway session never starts a task while one runs, and only ends
/// one that runs.
pub proof fn lemma_one_task_at_a_time(running: bool, a: GatewayAction)
    requires
        running ==> a != GatewayAction::Subscribe && a != GatewayAction::Archive,
        !running ==> a != GatewayAction::EndTask,
    ensures
        (a == GatewayAction::Subscribe || a == GatewayAction::Archive) ==> !running && runs_after(running, a),
        a == GatewayAction::EndTask ==> running && !runs_after(running, a),
{
}

/// The channel a gateway listens on for a bot or server.
pub fn gateway_channel(mode: WsMode, id: i64) -> (r: String)
    ensures
        r@ == (if mode == WsMode::Bot { "bot"@ } else { "server"@ }) + "-"@ + int_decimal(id as int),
{
    let mut s = String::from_str(if mode == WsMode::Bot { "bot" } else { "server" });
    s.append("-");
    s.append(i64_to_string(id).as_str());
    s
}

/// The preview of a description: none for an empty text (or a request that
/// could not be read), else the sanitized rendering.
pub fn preview(request: Option<PreviewRequest>) -> (r: Option<PreviewResponse>)
    ensures
        match request {
            Some(q) => if q.text@.len() == 0 {
                r is None
            } else {
                r matches Some(p) && p.preview@ == sanitized_description(q.long_description_type, q.text@)
            },
            None => r is None,
        },
{
    match request {
        None => None,
        Some(q) => {
            if q.text.unicode_len() == 0 {
                None
            } else {
                Some(PreviewResponse { preview: sanitize_description(q.long_description_type, q.text.as_str()) })
            }
        },
    }
}

} // verus!
