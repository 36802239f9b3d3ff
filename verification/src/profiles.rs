//! User profiles: which edits are accepted, and which developer roles a user
//! earns from their bots.
use crate::enums::{State, UserExperiments, UserFlags, UserState};
use crate::errors::{GenericError, ProfileCheckError};
use crate::models::RoleUpdate;
use vstd::prelude::*;
use vstd::string::*;

verus! {

/// A flag that users may set on their profile: only vote privacy.
pub open spec fn settable_user_flag(f: i32) -> bool {
    UserFlags::decode(f) == Some(UserFlags::VotesPrivate)
}

/// The first flag of a profile edit that users may not set, if any.
pub open spec fn first_unsettable(flags: Seq<i32>) -> Option<i32>
    decreases flags.len(),
{
    if flags.len() == 0 {
        None
    } else if !settable_user_flag(flags[0]) {
        Some(flags[0])
    } else {
        first_unsettable(flags.drop_first())
    }
}

/// Refuses a profile edit that sets a flag users may not set.
pub fn profile_flags_refusal(flags: &Vec<i32>) -> (r: Option<ProfileCheckError>)
    ensures
        r == match first_unsettable(flags@) {
            Some(f) => Some(ProfileCheckError::InvalidFlag(f)),
            None => None,
        },
{
    let mut i: usize = 0;
    proof {
        assert(flags@.subrange(0, flags@.len() as int) =~= flags@);
    }
    while i < flags.len()
        invariant
            i <= flags@.len(),
            first_unsettable(flags@) == first_unsettable(flags@.subrange(i as int, flags@.len() as int)),
        decreases flags.len() - i,
    {
        let ghost rest = flags@.subrange(i as int, flags@.len() as int);
        proof {
            assert(rest[0] == flags@[i as int]);
            assert(rest.drop_first() =~= flags@.subrange(i + 1, flags@.len() as int));
        }
        let settable = match UserFlags::from_value(flags[i]) {
            Some(UserFlags::VotesPrivate) => true,
            _ => false,
        };
        if !settable {
            return Some(ProfileCheckError::InvalidFlag(flags[i]));
        }
        i = i + 1;
    }
    proof {
        assert(flags@.subrange(flags@.len() as int, flags@.len() as int) =~= Seq::<i32>::empty());
    }
    None
}

/// Whether the extra links of a profile edit are stored: from 1 to 50 of them.
pub fn profile_links_stored(count: usize) -> (r: bool)
    ensures
        r == (count > 0 && count <= 50),
{
    count > 0 && count <= 50
}

/// Why a profile edit is refused before it is checked.
#[derive(Clone, Debug, PartialEq, Eq)]
pub enum ProfileEditRefusal {
    /// The user may not edit their profile.
    Banned(GenericError),
    /// The user asked for vote privacy without the experiment.
    NotEnabled(UserExperiments),
}

/// Whether a user may edit their profile: not when banned from it, and
/// vote privacy only with its experiment.
pub fn profile_edit_refusal(state: UserState, requested: &Vec<i32>, experiments: &Vec<UserExperiments>) -> (r: Option<
    ProfileEditRefusal,
>)
    ensures
        state == UserState::ProfileEditBan ==> (r matches Some(ProfileEditRefusal::Banned(GenericError::APIBan(m)))
            && m@ == "ProfileEditBan"@),
        state != UserState::ProfileEditBan && requested@.contains(UserFlags::VotesPrivate.code())
            && !experiments@.contains(UserExperiments::UserVotePrivacy) ==> r == Some(
            ProfileEditRefusal::NotEnabled(UserExperiments::UserVotePrivacy),
        ),
        state != UserState::ProfileEditBan && !(requested@.contains(UserFlags::VotesPrivate.code())
            && !experiments@.contains(UserExperiments::UserVotePrivacy)) ==> r is None,
{
    if state == UserState::ProfileEditBan {
        return Some(ProfileEditRefusal::Banned(GenericError::APIBan(String::from_str("ProfileEditBan"))));
    }
    let vp = UserFlags::VotesPrivate.value();
    let mut wants = false;
    let mut i: usize = 0;
    while i < requested.len()
        invariant
            vp == UserFlags::VotesPrivate.code(),
            i <= requested@.len(),
            wants == requested@.subrange(0, i as int).contains(vp),
        decreases requested.len() - i,
    {
        proof {
            let p = requested@.subrange(0, i + 1);
            let q = requested@.subrange(0, i as int);
            assert(p =~= q.push(requested@[i as int]));
            if q.contains(vp) {
                let k = choose|k: int| 0 <= k < q.len() && q[k] == vp;
                assert(p[k] == vp);
            }
            if p.contains(vp) && requested@[i as int] != vp {
                let k = choose|k: int| 0 <= k < p.len() && p[k] == vp;
                assert(q[k] == vp);
            }
            if requested@[i as int] == vp {
                assert(p[i as int] == vp);
            }
        }
        if requested[i] == vp {
            wants = true;
        }
        i = i + 1;
    }
    proof {
        assert(requested@.subrange(0, requested@.len() as int) =~= requested@);
    }
    if wants {
        let mut j: usize = 0;
        while j < experiments.len()
            invariant
                state != UserState::ProfileEditBan,
                requested@.contains(UserFlags::VotesPrivate.code()),
                j <= experiments@.len(),
                forall|k: int| 0 <= k < j ==> experiments@[k] != UserExperiments::UserVotePrivacy,
            decreases experiments.len() - j,
        {
            if experiments[j] == UserExperiments::UserVotePrivacy {
                assert(experiments@[j as int] == UserExperiments::UserVotePrivacy);
                return None;
            }
            j = j + 1;
        }
        return Some(ProfileEditRefusal::NotEnabled(UserExperiments::UserVotePrivacy));
    }
    None
}

/// The state that a stored number stands for, banned when unknown.
pub open spec fn role_state(code: i32) -> State {
    match State::decode(code) {
        Some(s) => s,
        None => State::Banned,
    }
}

/// Which role to give next, scanning the states of the user's bots from
/// `pos`: the developer role for the first approved bot, the certified
/// developer role for the first certified one; the position of the bot and
/// whether the role is the certified one.
pub open spec fn next_grant(states: Seq<i32>, pos: int, approved: bool, certified: bool) -> Option<(int, bool)>
    decreases states.len() - pos,
{
    if pos < 0 || pos >= states.len() {
        None
    } else if role_state(states[pos]) == State::Approved && !approved {
        Some((pos, false))
    } else if role_state(states[pos]) == State::Certified && !certified {
        Some((pos, true))
    } else {
        next_grant(states, pos + 1, approved, certified)
    }
}

/// Finds the next role to give (see `next_grant`).
pub fn next_role_grant(states: &Vec<i32>, from: usize, approved: bool, certified: bool) -> (r: Option<(usize, bool)>)
    requires
        from <= states@.len(),
    ensures
        match next_grant(states@, from as int, approved, certified) {
            Some((p, c)) => r == Some((p as usize, c)),
            None => r is None,
        },
{
    let mut pos = from;
    while pos < states.len()
        invariant
            from <= pos <= states@.len(),
            next_grant(states@, from as int, approved, certified) == next_grant(states@, pos as int, approved, certified),
        decreases states.len() - pos,
    {
        let s = match State::from_value(states[pos]) {
            Some(s) => s,
            None => State::Banned,
        };
        if s == State::Approved && !approved {
            return Some((pos, false));
        }
        if s == State::Certified && !certified {
            return Some((pos, true));
        }
        pos = pos + 1;
    }
    None
}

/// The roles a user ended up with.
pub fn role_update(approved: bool, certified: bool) -> (r: RoleUpdate)
    ensures
        r.bot_developer == approved,
        r.certified_developer == certified,
{
    RoleUpdate { bot_developer: approved, certified_developer: certified }
}

} // verus!
