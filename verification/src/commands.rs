//! Bot commands: which commands may be posted, and which a deletion removes.
use crate::errors::opt_view;
use crate::models::{APIResponse, BotCommand, CommandDeleteQuery};
use crate::packs::{read_uuid, uuid_value};
use crate::text::{split_at_char, split_char};
use vstd::prelude::*;
use vstd::string::*;

verus! {

/// A command needs a name and a description; the answer names the command.
pub fn command_refusal(cmd: &BotCommand) -> (r: Option<APIResponse>)
    ensures
        (cmd.name@.len() == 0 || cmd.description@.len() == 0) ==> (r matches Some(a) && !a.done && a.context is None
            && opt_view(a.reason) == Some("Command name must be at least 1 character long: "@ + cmd.name@)),
        cmd.name@.len() > 0 && cmd.description@.len() > 0 ==> r is None,
{
    if cmd.name.unicode_len() == 0 || cmd.description.unicode_len() == 0 {
        let mut reason = String::from_str("Command name must be at least 1 character long: ");
        reason.append(cmd.name.as_str());
        return Some(APIResponse { done: false, reason: Some(reason), context: None });
    }
    None
}

/// What a command deletion removes.
#[derive(Clone, Debug, PartialEq, Eq)]
pub struct CommandDeletion {
    /// Every command of the bot.
    pub all: bool,
    /// The commands with these names.
    pub names: Vec<String>,
    /// The commands with these ids.
    pub ids: Vec<u128>,
}

/// The UUIDs among `pieces`, in order; the others are skipped.
pub open spec fn uuids_of(pieces: Seq<Seq<char>>) -> Seq<u128>
    decreases pieces.len(),
{
    if pieces.len() == 0 {
        Seq::empty()
    } else {
        let prev = uuids_of(pieces.drop_last());
        match uuid_value(pieces.last()) {
            Some(u) => prev.push(u),
            None => prev,
        }
    }
}

/// Reads a deletion: all commands when `nuke` is set, the names and the ids
/// separated by `|` (ids that are not UUIDs are skipped).
pub fn command_deletion(query: &CommandDeleteQuery) -> (r: CommandDeletion)
    ensures
        r.all == (query.nuke == Some(true)),
        r.names@.map_values(|s: String| s@) == (match query.names {
            Some(n) => split_at_char(n@, '|'),
            None => Seq::<Seq<char>>::empty(),
        }),
        r.ids@ == (match query.ids {
            Some(i) => uuids_of(split_at_char(i@, '|')),
            None => Seq::<u128>::empty(),
        }),
{
    let all = match query.nuke {
        Some(b) => b,
        None => false,
    };
    let names = match &query.names {
        Some(n) => split_char(n.as_str(), '|'),
        None => {
            let v: Vec<String> = Vec::new();
            proof {
                assert(v@.map_values(|s: String| s@) =~= Seq::<Seq<char>>::empty());
            }
            v
        },
    };
    let mut ids: Vec<u128> = Vec::new();
    match &query.ids {
        Some(text) => {
            let pieces = split_char(text.as_str(), '|');
            let ghost pv = pieces@.map_values(|s: String| s@);
            let mut i: usize = 0;
            while i < pieces.len()
                invariant
                    pv == pieces@.map_values(|s: String| s@),
                    i <= pieces@.len(),
                    ids@ == uuids_of(pv.subrange(0, i as int)),
                decreases pieces.len() - i,
            {
                proof {
                    assert(pv.subrange(0, i + 1).drop_last() =~= pv.subrange(0, i as int));
                    assert(pv[i as int] == pieces@[i as int]@);
                }
                match read_uuid(pieces[i].as_str()) {
                    Some(u) => ids.push(u),
                    None => {},
                }
                i = i + 1;
            }
            proof {
                assert(pv.subrange(0, pieces@.len() as int) =~= pv);
            }
        },
        None => {},
    }
    CommandDeletion { all, names, ids }
}

} // verus!
