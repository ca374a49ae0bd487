use crate::condition::{qualifies, qualifies_spec, RoleConditions};
use crate::text::{contains_str, str_eq};
use std::collections::HashSet;
use vstd::prelude::*;

verus! {

broadcast use vstd::std_specs::hash::group_hash_axioms;

/// Asks the sync worker to bring the roles of one member up to date.
#[derive(Debug, Clone)]
pub struct PlayerSyncEvent {
    pub discord_id: String,
}

/// Asks the sync worker to push the full member list of one role link.
#[derive(Debug, Clone)]
pub struct ConfigSyncEvent {
    pub guild_id: String,
    pub role_id: String,
}

/// A role link as stored: where the role lives, the token for the Role Link API and
/// the groups that grant it.
pub struct RoleLinkRow {
    pub guild_id: String,
    pub role_id: String,
    pub api_token: String,
    pub conditions: RoleConditions,
}

/// A member sync has work to do when the member has an active redemption or holds a
/// role that the service granted.
pub fn player_sync_needed(user_batches: &HashSet<i64>, existing: &Vec<(String, String)>) -> (r: bool)
    ensures
        r == !(user_batches@.is_empty() && existing@.len() == 0),
{
    !(user_batches.is_empty() && existing.len() == 0)
}

/// `s` is the guild of some assignment of `existing`.
pub open spec fn is_assigned_guild(existing: Seq<(String, String)>, s: Seq<char>) -> bool {
    exists|k: int| 0 <= k < existing.len() && (#[trigger] existing[k]).0@ == s
}

/// `s` is one of the strings of `v`.
pub open spec fn has_str(v: Seq<String>, s: Seq<char>) -> bool {
    exists|k: int| 0 <= k < v.len() && (#[trigger] v[k])@ == s
}

/// No two strings of `v` are equal.
pub open spec fn distinct_strs(v: Seq<String>) -> bool {
    forall|i: int, j: int| 0 <= i < j < v.len() ==> (#[trigger] v[i])@ != (#[trigger] v[j])@
}

/// The guilds a member sync looks at: those the member is in, where roles may be
/// granted, and those where the member holds a role, which may have to go.
/// Each appears once.
pub fn guilds_to_touch(member_guilds: &Vec<String>, existing: &Vec<(String, String)>) -> (r: Vec<String>)
    ensures
        distinct_strs(r@),
        forall|s: Seq<char>|
            has_str(r@, s) <==> (has_str(member_guilds@, s) || is_assigned_guild(existing@, s)),
{
    let mut out: Vec<String> = Vec::new();
    let mut i: usize = 0;
    while i < member_guilds.len()
        invariant
            0 <= i <= member_guilds@.len(),
            distinct_strs(out@),
            forall|s: Seq<char>|
                has_str(out@, s) <==> has_str(member_guilds@.take(i as int), s),
        decreases member_guilds@.len() - i,
    {
        let g = &member_guilds[i];
        let ghost before = out@;
        if !contains_str(&out, g.as_str()) {
            out.push(g.clone());
        }
        proof {
            let t = member_guilds@.take(i + 1);
            assert forall|s: Seq<char>| has_str(out@, s) <==> has_str(t, s) by {
                if has_str(t, s) {
                    let k = choose|k: int| 0 <= k < t.len() && (#[trigger] t[k])@ == s;
                    if k < i {
                        assert(member_guilds@.take(i as int)[k] == t[k]);
                        assert(has_str(before, s));
                        let m = choose|m: int| 0 <= m < before.len() && (#[trigger] before[m])@ == s;
                        assert(out@[m] == before[m]);
                    } else {
                        assert(t[k] == member_guilds@[i as int]);
                        if !has_str(before, s) {
                            assert(out@[out@.len() - 1]@ == s);
                        } else {
                            let m = choose|m: int| 0 <= m < before.len() && (#[trigger] before[m])@ == s;
                            assert(out@[m] == before[m]);
                        }
                    }
                }
                if has_str(out@, s) {
                    let m = choose|m: int| 0 <= m < out@.len() && (#[trigger] out@[m])@ == s;
                    if m < before.len() {
                        assert(out@[m] == before[m]);
                        assert(has_str(before, s));
                        assert(has_str(member_guilds@.take(i as int), s));
                        let k = choose|k: int|
                            0 <= k < i && (#[trigger] member_guilds@.take(i as int)[k])@ == s;
                        assert(t[k] == member_guilds@.take(i as int)[k]);
                    } else {
                        assert(t[i as int]@ == s);
                    }
                }
            }
        }
        i = i + 1;
    }
    assert(member_guilds@.take(i as int) =~= member_guilds@);
    let mut j: usize = 0;
    while j < existing.len()
        invariant
            0 <= j <= existing@.len(),
            distinct_strs(out@),
            forall|s: Seq<char>|
                has_str(out@, s) <==> (has_str(member_guilds@, s) || is_assigned_guild(
                    existing@.take(j as int),
                    s,
                )),
        decreases existing@.len() - j,
    {
        let g = &existing[j].0;
        let ghost before = out@;
        if !contains_str(&out, g.as_str()) {
            out.push(g.clone());
        }
        proof {
            let t = existing@.take(j + 1);
            assert forall|s: Seq<char>| is_assigned_guild(t, s) implies has_str(out@, s) by {
                let k = choose|k: int| 0 <= k < t.len() && (#[trigger] t[k]).0@ == s;
                if k < j {
                    assert(existing@.take(j as int)[k] == t[k]);
                    assert(is_assigned_guild(existing@.take(j as int), s));
                    assert(has_str(before, s));
                    let m = choose|m: int| 0 <= m < before.len() && (#[trigger] before[m])@ == s;
                    assert(out@[m] == before[m]);
                } else if !has_str(before, s) {
                    assert(out@[out@.len() - 1]@ == s);
                } else {
                    let m = choose|m: int| 0 <= m < before.len() && (#[trigger] before[m])@ == s;
                    assert(out@[m] == before[m]);
                }
            }
            assert forall|s: Seq<char>| has_str(member_guilds@, s) implies has_str(out@, s) by {
                assert(has_str(before, s));
                let m = choose|m: int| 0 <= m < before.len() && (#[trigger] before[m])@ == s;
                assert(out@[m] == before[m]);
            }
            assert forall|s: Seq<char>| has_str(out@, s) implies (has_str(member_guilds@, s)
                || is_assigned_guild(t, s)) by {
                let m = choose|m: int| 0 <= m < out@.len() && (#[trigger] out@[m])@ == s;
                if m < before.len() {
                    assert(out@[m] == before[m]);
                    assert(has_str(before, s));
                    if !has_str(member_guilds@, s) {
                        assert(is_assigned_guild(existing@.take(j as int), s));
                        let k = choose|k: int|
                            0 <= k < j && (#[trigger] existing@.take(j as int)[k]).0@ == s;
                        assert(t[k] == existing@.take(j as int)[k]);
                    }
                } else {
                    assert(t[j as int].0@ == s);
                }
            }
        }
        j = j + 1;
    }
    assert(existing@.take(j as int) =~= existing@);
    out
}

/// The member already holds the role `role_id` of guild `guild_id` according to the
/// assignments `existing`.
pub open spec fn holds_role(existing: Seq<(String, String)>, guild_id: Seq<char>, role_id: Seq<char>) -> bool {
    exists|k: int|
        0 <= k < existing.len() && (#[trigger] existing[k]).0@ == guild_id && existing[k].1@ == role_id
}

/// A member holds a role exactly when one of the member's assignments is that role of
/// that guild: the guild alone or the role alone is not enough.
pub proof fn law_holds_role_needs_both(existing: Seq<(String, String)>, guild_id: Seq<char>, role_id: Seq<char>)
    ensures
        holds_role(existing, guild_id, role_id) <==> existing.map_values(
            |p: (String, String)| (p.0@, p.1@),
        ).contains((guild_id, role_id)),
{
    let pairs = existing.map_values(|p: (String, String)| (p.0@, p.1@));
    if holds_role(existing, guild_id, role_id) {
        let k = choose|k: int|
            0 <= k < existing.len() && (#[trigger] existing[k]).0@ == guild_id && existing[k].1@
                == role_id;
        assert(pairs[k] == (guild_id, role_id));
    }
    if pairs.contains((guild_id, role_id)) {
        let k = choose|k: int| 0 <= k < pairs.len() && pairs[k] == (guild_id, role_id);
        assert(existing[k].0@ == guild_id);
    }
}

/// Whether `existing` holds the assignment of role `role_id` in guild `guild_id`.
pub fn holds_assignment(existing: &Vec<(String, String)>, guild_id: &str, role_id: &str) -> (r: bool)
    ensures
        r == holds_role(existing@, guild_id@, role_id@),
{
    let mut k: usize = 0;
    while k < existing.len()
        invariant
            0 <= k <= existing@.len(),
            forall|j: int|
                0 <= j < k ==> !((#[trigger] existing@[j]).0@ == guild_id@ && existing@[j].1@
                    == role_id@),
        decreases existing@.len() - k,
    {
        if str_eq(existing[k].0.as_str(), guild_id) && str_eq(existing[k].1.as_str(), role_id) {
            assert(existing@[k as int].0@ == guild_id@);
            return true;
        }
        k = k + 1;
    }
    false
}

/// What a member sync does about one role link.
#[derive(Clone, Copy, Debug, PartialEq, Eq, Structural)]
pub enum AssignmentChange {
    /// Add the member to the role link.
    Grant,
    /// Remove the member from the role link.
    Revoke,
    /// Leave the role link alone.
    Keep,
}

/// The change for a member who `qualifies` (or not) and `currently` holds the role (or not).
pub open spec fn change_for(qualifies: bool, currently: bool) -> AssignmentChange {
    if qualifies && !currently {
        AssignmentChange::Grant
    } else if !qualifies && currently {
        AssignmentChange::Revoke
    } else {
        AssignmentChange::Keep
    }
}

/// Whether the member holds the role after `change` succeeded, when `currently` tells
/// whether the member held it before.
pub open spec fn held_after(change: AssignmentChange, currently: bool) -> bool {
    match change {
        AssignmentChange::Grant => true,
        AssignmentChange::Revoke => false,
        AssignmentChange::Keep => currently,
    }
}

/// The change that brings a role link in line with the member's qualification.
pub fn assignment_change(qualifies: bool, currently: bool) -> (r: AssignmentChange)
    ensures
        r == change_for(qualifies, currently),
{
    if qualifies && !currently {
        AssignmentChange::Grant
    } else if !qualifies && currently {
        AssignmentChange::Revoke
    } else {
        AssignmentChange::Keep
    }
}

/// A member sync reconciles: once its change succeeded the member holds exactly the
/// roles the member qualifies for, and it calls the Role Link API only where the two
/// differ.
pub proof fn law_change_reconciles(qualifies: bool, currently: bool)
    ensures
        held_after(change_for(qualifies, currently), currently) == qualifies,
        (change_for(qualifies, currently) == AssignmentChange::Keep) <==> (qualifies == currently),
        (change_for(qualifies, currently) == AssignmentChange::Grant) <==> (qualifies && !currently),
        (change_for(qualifies, currently) == AssignmentChange::Revoke) <==> (!qualifies && currently),
{
}

/// The change a member sync makes on each of the role links `links`, for a member whose
/// active redemptions are of the groups `user_batches` and who holds the roles `existing`.
pub fn plan_player_sync(
    links: &Vec<RoleLinkRow>,
    user_batches: &HashSet<i64>,
    existing: &Vec<(String, String)>,
) -> (r: Vec<AssignmentChange>)
    ensures
        r@.len() == links@.len(),
        forall|i: int|
            0 <= i < links@.len() ==> #[trigger] r@[i] == change_for(
                qualifies_spec(links@[i].conditions.approved_batch_ids@, user_batches@),
                holds_role(existing@, links@[i].guild_id@, links@[i].role_id@),
            ),
{
    let mut out: Vec<AssignmentChange> = Vec::new();
    let mut i: usize = 0;
    while i < links.len()
        invariant
            0 <= i <= links@.len(),
            out@.len() == i,
            forall|j: int|
                0 <= j < i ==> #[trigger] out@[j] == change_for(
                    qualifies_spec(links@[j].conditions.approved_batch_ids@, user_batches@),
                    holds_role(existing@, links@[j].guild_id@, links@[j].role_id@),
                ),
        decreases links@.len() - i,
    {
        let link = &links[i];
        let q = qualifies(&link.conditions, user_batches);
        let c = holds_assignment(existing, link.guild_id.as_str(), link.role_id.as_str());
        out.push(assignment_change(q, c));
        i = i + 1;
    }
    out
}

/// How a call to the Role Link API ended.
#[derive(Clone, Copy, Debug, PartialEq, Eq, Structural)]
pub enum RoleCallResult {
    /// The call succeeded.
    Done,
    /// The Role Link API no longer knows the link (its token is invalid or revoked).
    RoleLinkNotFound,
    /// The link's plan allows no more members.
    UserLimitReached,
    /// Any other failure.
    Failed,
}

/// What a member sync does after the call that made a change.
#[derive(Clone, Copy, Debug, PartialEq, Eq, Structural)]
pub enum FollowUp {
    /// Record that the member holds the role.
    RecordAssignment,
    /// Forget that the member held the role.
    DropAssignment,
    /// Delete the stored role link, which the Role Link API no longer knows.
    DeleteOrphanLink,
    /// Nothing more for this link; the failure is logged.
    Skip,
}

/// What follows a Role Link API call that carried out `change`.
pub open spec fn follow_up_for(change: AssignmentChange, result: RoleCallResult) -> FollowUp {
    match result {
        RoleCallResult::Done => match change {
            AssignmentChange::Grant => FollowUp::RecordAssignment,
            AssignmentChange::Revoke => FollowUp::DropAssignment,
            AssignmentChange::Keep => FollowUp::Skip,
        },
        RoleCallResult::RoleLinkNotFound => match change {
            AssignmentChange::Keep => FollowUp::Skip,
            _ => FollowUp::DeleteOrphanLink,
        },
        _ => FollowUp::Skip,
    }
}

/// The local bookkeeping after the Role Link API call of a member sync: the mirror of
/// assignments follows a successful call, a link unknown upstream is deleted, and any
/// other failure leaves everything as it was.
pub fn follow_up(change: AssignmentChange, result: RoleCallResult) -> (r: FollowUp)
    ensures
        r == follow_up_for(change, result),
{
    match result {
        RoleCallResult::Done => match change {
            AssignmentChange::Grant => FollowUp::RecordAssignment,
            AssignmentChange::Revoke => FollowUp::DropAssignment,
            AssignmentChange::Keep => FollowUp::Skip,
        },
        RoleCallResult::RoleLinkNotFound => match change {
            AssignmentChange::Keep => FollowUp::Skip,
            _ => FollowUp::DeleteOrphanLink,
        },
        _ => FollowUp::Skip,
    }
}

/// The bookkeeping after a member sync's Role Link API call: when the call was made
/// (a grant or a revoke) and the Role Link API no longer knows the link, the orphan
/// link is deleted; a successful grant is recorded and a successful revoke dropped from
/// the mirror; any other failure, and a link that needed no call, leaves everything as
/// it was.
pub proof fn law_follow_up(change: AssignmentChange, result: RoleCallResult)
    ensures
        change != AssignmentChange::Keep && result == RoleCallResult::RoleLinkNotFound
            ==> follow_up_for(change, result) == FollowUp::DeleteOrphanLink,
        (follow_up_for(change, result) == FollowUp::DeleteOrphanLink) ==> (change
            != AssignmentChange::Keep && result == RoleCallResult::RoleLinkNotFound),
        (follow_up_for(change, result) == FollowUp::RecordAssignment) <==> (change
            == AssignmentChange::Grant && result == RoleCallResult::Done),
        (follow_up_for(change, result) == FollowUp::DropAssignment) <==> (change
            == AssignmentChange::Revoke && result == RoleCallResult::Done),
        (follow_up_for(change, result) == FollowUp::Skip) <==> (change == AssignmentChange::Keep
            || result == RoleCallResult::UserLimitReached || result == RoleCallResult::Failed),
{
}

/// What a role-link sync does after pushing the full member list.
#[derive(Clone, Copy, Debug, PartialEq, Eq, Structural)]
pub enum ReplaceFollowUp {
    /// Rebuild the local mirror of assignments from the pushed list.
    RebuildMirror,
    /// Delete the stored role link, which the Role Link API no longer knows, and stop.
    DeleteOrphanLink,
    /// Stop with the error.
    Fail,
}

/// What follows pushing a role link's member list.
pub fn after_replace(result: RoleCallResult) -> (r: ReplaceFollowUp)
    ensures
        r == match result {
            RoleCallResult::Done => ReplaceFollowUp::RebuildMirror,
            RoleCallResult::RoleLinkNotFound => ReplaceFollowUp::DeleteOrphanLink,
            _ => ReplaceFollowUp::Fail,
        },
{
    match result {
        RoleCallResult::Done => ReplaceFollowUp::RebuildMirror,
        RoleCallResult::RoleLinkNotFound => ReplaceFollowUp::DeleteOrphanLink,
        _ => ReplaceFollowUp::Fail,
    }
}

/// The test by which `qualifying_members` keeps a member id.
pub open spec fn is_member_of(members: Seq<String>) -> spec_fn(String) -> bool {
    |s: String| has_str(members, s@)
}

/// The members a role link is pushed with, given the qualifying redeemers and the
/// guild's member list when it could be fetched.
pub open spec fn pushed_members(qualifying_all: Seq<String>, members: Option<Seq<String>>) -> Seq<String> {
    match members {
        Some(m) => qualifying_all.filter(is_member_of(m)),
        None => qualifying_all,
    }
}

/// The members a role link is pushed with: the qualifying redeemers who are still in
/// the guild, in their order; when the guild's member list could not be fetched, all
/// qualifying redeemers.
pub fn qualifying_members(qualifying_all: Vec<String>, members: Option<Vec<String>>) -> (r: Vec<String>)
    ensures
        r@ == pushed_members(
            qualifying_all@,
            match members {
                Some(m) => Some(m@),
                None => None,
            },
        ),
        match members {
            Some(m) => r@ == qualifying_all@.filter(is_member_of(m@)),
            None => r@ == qualifying_all@,
        },
{
    match members {
        None => qualifying_all,
        Some(m) => {
            let mut out: Vec<String> = Vec::new();
            let mut i: usize = 0;
            while i < qualifying_all.len()
                invariant
                    0 <= i <= qualifying_all@.len(),
                    out@ == qualifying_all@.take(i as int).filter(is_member_of(m@)),
                decreases qualifying_all@.len() - i,
            {
                let id = &qualifying_all[i];
                proof {
                    qualifying_all@.take(i as int).lemma_filter_push(*id, is_member_of(m@));
                    assert(qualifying_all@.take(i + 1) =~= qualifying_all@.take(i as int).push(*id));
                }
                if contains_str(&m, id.as_str()) {
                    out.push(id.clone());
                }
                i = i + 1;
            }
            assert(qualifying_all@.take(i as int) =~= qualifying_all@);
            out
        },
    }
}

/// The most member ids inserted into the assignment mirror by one statement.
pub const ASSIGNMENT_INSERT_CHUNK: usize = 50000;

/// `bounds` cuts the indices `0..len` into consecutive ranges `(start, end)` of at
/// most `size` entries, in order, all full but the last, as `slice::chunks` cuts them.
pub open spec fn is_chunking(bounds: Seq<(usize, usize)>, len: nat, size: nat) -> bool {
    &&& (len == 0 <==> bounds.len() == 0)
    &&& (len > 0 ==> bounds[0].0 == 0 && bounds[bounds.len() - 1].1 == len)
    &&& forall|i: int|
        0 <= i < bounds.len() ==> (#[trigger] bounds[i]).0 < bounds[i].1 <= bounds[i].0 + size
            && bounds[i].1 <= len
    &&& forall|i: int|
        0 <= i < bounds.len() - 1 ==> (#[trigger] bounds[i]).1 == bounds[i + 1].0 && bounds[i].1
            == bounds[i].0 + size
}

/// The consecutive ranges `(start, end)` of at most `size` entries that cover the
/// indices `0..len` in order, all full but the last.
pub fn chunk_bounds(len: usize, size: usize) -> (r: Vec<(usize, usize)>)
    requires
        size > 0,
    ensures
        is_chunking(r@, len as nat, size as nat),
{
    let mut out: Vec<(usize, usize)> = Vec::new();
    let mut start: usize = 0;
    while start < len
        invariant
            size > 0,
            start <= len,
            out@.len() == 0 <==> start == 0,
            out@.len() > 0 ==> out@[0].0 == 0 && out@[out@.len() - 1].1 == start,
            forall|i: int|
                0 <= i < out@.len() ==> (#[trigger] out@[i]).0 < out@[i].1 <= out@[i].0 + size
                    && out@[i].1 <= start,
            forall|i: int|
                0 <= i < out@.len() - 1 ==> (#[trigger] out@[i]).1 == out@[i + 1].0 && out@[i].1
                    == out@[i].0 + size,
            out@.len() > 0 && start < len ==> out@[out@.len() - 1].1 == out@[out@.len() - 1].0 + size,
        decreases len - start,
    {
        let end = if len - start > size {
            start + size
        } else {
            len
        };
        out.push((start, end));
        start = end;
    }
    out
}

/// The entries of `list` in the ranges `bounds`, one range after the other: what the
/// chunked inserts of a role-link sync write into the mirror of assignments.
pub open spec fn concat_chunks<A>(list: Seq<A>, bounds: Seq<(usize, usize)>) -> Seq<A>
    decreases bounds.len(),
{
    if bounds.len() == 0 {
        Seq::empty()
    } else {
        concat_chunks(list, bounds.drop_last()) + list.subrange(
            bounds.last().0 as int,
            bounds.last().1 as int,
        )
    }
}

/// The first `k` ranges of a chunking write the entries up to the end of the `k`-th.
proof fn lemma_chunks_prefix<A>(list: Seq<A>, bounds: Seq<(usize, usize)>, size: nat, k: int)
    requires
        is_chunking(bounds, list.len(), size),
        1 <= k <= bounds.len(),
    ensures
        concat_chunks(list, bounds.take(k)) == list.take(bounds[k - 1].1 as int),
    decreases k,
{
    let t = bounds.take(k);
    assert(t.drop_last() =~= bounds.take(k - 1));
    assert(t.last() == bounds[k - 1]);
    let b = bounds[k - 1];
    assert(b.0 < b.1 <= list.len());
    if k == 1 {
        assert(bounds.take(0) =~= Seq::<(usize, usize)>::empty());
        assert(concat_chunks(list, bounds.take(0)) =~= Seq::<A>::empty());
        assert(Seq::<A>::empty() + list.subrange(0, b.1 as int) =~= list.take(b.1 as int));
    } else {
        lemma_chunks_prefix(list, bounds, size, k - 1);
        let p = bounds[k - 2];
        assert(p.1 == b.0);
        assert(list.take(p.1 as int) + list.subrange(b.0 as int, b.1 as int) =~= list.take(
            b.1 as int,
        ));
    }
}

/// The chunked inserts of a role-link sync write exactly the list they cut, in order.
pub proof fn law_chunks_rebuild_the_list<A>(list: Seq<A>, bounds: Seq<(usize, usize)>, size: nat)
    requires
        is_chunking(bounds, list.len(), size),
    ensures
        concat_chunks(list, bounds) == list,
{
    if bounds.len() == 0 {
        assert(list =~= Seq::<A>::empty());
    } else {
        lemma_chunks_prefix(list, bounds, size, bounds.len() as int);
        assert(bounds.take(bounds.len() as int) =~= bounds);
        assert(list.take(list.len() as int) =~= list);
    }
}

/// A role-link sync is repeatable: two syncs that get the same qualifying redeemers
/// and the same member list push the same members, and each leaves in the mirror of
/// assignments exactly the members it pushed, whatever the chunk sizes.
pub proof fn law_role_link_sync_repeats(
    qualifying_all: Seq<String>,
    members: Option<Seq<String>>,
    first: Seq<(usize, usize)>,
    first_size: nat,
    second: Seq<(usize, usize)>,
    second_size: nat,
)
    requires
        is_chunking(first, pushed_members(qualifying_all, members).len(), first_size),
        is_chunking(second, pushed_members(qualifying_all, members).len(), second_size),
    ensures
        concat_chunks(pushed_members(qualifying_all, members), first) == pushed_members(
            qualifying_all,
            members,
        ),
        concat_chunks(pushed_members(qualifying_all, members), second) == concat_chunks(
            pushed_members(qualifying_all, members),
            first,
        ),
{
    let p = pushed_members(qualifying_all, members);
    law_chunks_rebuild_the_list(p, first, first_size);
    law_chunks_rebuild_the_list(p, second, second_size);
}

} // verus!
