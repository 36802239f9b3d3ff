//! Calls to the worker over the message bus: the text of a call, and what a
//! guild invite call answers.
use crate::text::i64_to_string;
use crate::text::int_decimal;
use vstd::prelude::*;
use vstd::string::*;

verus! {

/// Pieces joined by single spaces.
pub open spec fn joined(pieces: Seq<Seq<char>>) -> Seq<char>
    decreases pieces.len(),
{
    if pieces.len() == 0 {
        Seq::empty()
    } else if pieces.len() == 1 {
        pieces[0]
    } else {
        joined(pieces.drop_last()) + " "@ + pieces.last()
    }
}

/// The arguments of a call: those given, then the key under which a message
/// was stored, when one was.
pub open spec fn call_args(args: Seq<Seq<char>>, message_key: Option<Seq<char>>) -> Seq<Seq<char>> {
    match message_key {
        Some(k) => args.push(k),
        None => args,
    }
}

/// The text published for a call: the command, the call's id, then its
/// arguments, separated by spaces.
pub open spec fn call_text(cmd: Seq<char>, call_id: Seq<char>, args: Seq<Seq<char>>) -> Seq<char> {
    cmd + " "@ + call_id + " "@ + joined(args)
}

/// The text published for the call `cmd` with id `call_id`; `message_key` is
/// the key of the message stored for the call, when it carries one.
pub fn call_message(cmd: &str, call_id: &str, args: &Vec<String>, message_key: Option<String>) -> (r: String)
    ensures
        r@ == call_text(cmd@, call_id@, call_args(args@.map_values(|s: String| s@), opt_text(message_key))),
{
    let ghost all = call_args(args@.map_values(|s: String| s@), opt_text(message_key));
    let mut s = String::from_str(cmd);
    s.append(" ");
    s.append(call_id);
    s.append(" ");
    let mut joined_part = String::new();
    let n = args.len();
    let mut i: usize = 0;
    while i < n
        invariant
            n == args@.len(),
            i <= n,
            joined_part@ == joined(args@.map_values(|s: String| s@).subrange(0, i as int)),
        decreases n - i,
    {
        let ghost v = args@.map_values(|s: String| s@);
        proof {
            assert(v.subrange(0, i + 1).drop_last() =~= v.subrange(0, i as int));
            assert(v[i as int] == args@[i as int]@);
        }
        if i > 0 {
            joined_part.append(" ");
        }
        joined_part.append(args[i].as_str());
        proof {
            if i == 0 {
                assert(v.subrange(0, 1) =~= seq![v[0]]);
            }
        }
        i = i + 1;
    }
    proof {
        assert(args@.map_values(|s: String| s@).subrange(0, n as int) =~= args@.map_values(|s: String| s@));
    }
    match message_key {
        Some(k) => {
            let ghost before = joined_part@;
            if n > 0 {
                joined_part.append(" ");
            }
            joined_part.append(k.as_str());
            proof {
                let v = args@.map_values(|s: String| s@);
                let w = v.push(k@);
                assert(w.drop_last() =~= v);
                if n == 0 {
                    assert(w =~= seq![k@]);
                }
            }
        },
        None => {},
    }
    s.append(joined_part.as_str());
    s
}

/// The text of an optional key.
pub open spec fn opt_text(o: Option<String>) -> Option<Seq<char>> {
    match o {
        Some(s) => Some(s@),
        None => None,
    }
}

/// The arguments of a guild invite call: the server, then the user (`0` for
/// a visitor who is not logged in).
pub fn guild_invite_args(guild_id: i64, user_id: i64) -> (r: Vec<String>)
    ensures
        r@.map_values(|s: String| s@) == seq![int_decimal(guild_id as int), int_decimal(user_id as int)],
{
    let r = vec![i64_to_string(guild_id), i64_to_string(user_id)];
    proof {
        assert(r@.map_values(|s: String| s@) =~= seq![int_decimal(guild_id as int), int_decimal(user_id as int)]);
    }
    r
}

/// What a guild invite call answers: the worker's reply, or `Timeout` when
/// none came in time.
pub fn invite_reply(reply: Option<String>) -> (r: String)
    ensures
        r@ == (match reply {
            Some(x) => x@,
            None => "Timeout"@,
        }),
{
    match reply {
        Some(x) => x,
        None => String::from_str("Timeout"),
    }
}

} // verus!
