use vstd::prelude::*;
use std::collections::HashSet;

verus! {

broadcast use vstd::std_specs::hash::group_hash_axioms;

/// The conditions of a role link: the code groups whose redemptions grant the role.
/// No group at all means that nobody qualifies.
#[derive(Debug, Clone)]
pub struct RoleConditions {
    pub approved_batch_ids: Vec<i64>,
}

impl Default for RoleConditions {
    /// No approved group.
    fn default() -> (r: Self)
        ensures
            r.approved_batch_ids@.len() == 0,
    {
        RoleConditions { approved_batch_ids: Vec::new() }
    }
}

impl RoleConditions {
    /// With no approved group at all nobody holds the role.
    pub fn approves_nobody(&self) -> (r: bool)
        ensures
            r == (self.approved_batch_ids@.len() == 0),
    {
        self.approved_batch_ids.len() == 0
    }
}

/// Whether a member who redeemed codes of the groups `redeemed` holds the role of a
/// link with the approved groups `approved`: some approved group is among them.
pub open spec fn qualifies_spec(approved: Seq<i64>, redeemed: Set<i64>) -> bool {
    exists|i: int| 0 <= i < approved.len() && redeemed.contains(#[trigger] approved[i])
}

/// True if any group the member redeemed a code of is approved by `conditions`.
pub fn qualifies(conditions: &RoleConditions, user_redeemed_batches: &HashSet<i64>) -> (r: bool)
    ensures
        r == qualifies_spec(conditions.approved_batch_ids@, user_redeemed_batches@),
{
    let ids = &conditions.approved_batch_ids;
    if ids.len() == 0 {
        return false;
    }
    let mut i: usize = 0;
    while i < ids.len()
        invariant
            0 <= i <= ids@.len(),
            ids@ == conditions.approved_batch_ids@,
            forall|j: int| 0 <= j < i ==> !user_redeemed_batches@.contains(#[trigger] ids@[j]),
        decreases ids@.len() - i,
    {
        if user_redeemed_batches.contains(&ids[i]) {
            assert(user_redeemed_batches@.contains(ids@[i as int]));
            return true;
        }
        i = i + 1;
    }
    false
}

/// A member qualifies exactly when the approved groups and the redeemed groups meet:
/// every approved group counts, wherever it stands in the list.
pub proof fn law_qualifies_when_groups_meet(approved: Seq<i64>, redeemed: Set<i64>)
    ensures
        qualifies_spec(approved, redeemed) <==> !approved.to_set().intersect(redeemed).is_empty(),
        forall|i: int|
            0 <= i < approved.len() && redeemed.contains(#[trigger] approved[i]) ==> qualifies_spec(
                approved,
                redeemed,
            ),
{
    let both = approved.to_set().intersect(redeemed);
    if qualifies_spec(approved, redeemed) {
        let i = choose|i: int| 0 <= i < approved.len() && redeemed.contains(#[trigger] approved[i]);
        assert(approved.to_set().contains(approved[i]));
        assert(both.contains(approved[i]));
    }
    if !both.is_empty() {
        let x = both.choose();
        assert(both.contains(x));
        assert(approved.contains(x));
        let i = choose|i: int| 0 <= i < approved.len() && approved[i] == x;
        assert(redeemed.contains(approved[i]));
    }
    assert forall|i: int| 0 <= i < approved.len() && redeemed.contains(#[trigger] approved[i]) implies qualifies_spec(
        approved,
        redeemed,
    ) by {}
}

/// The order of the approved groups does not matter: reordering them (here: moving
/// the last to the front) keeps the answer.
pub proof fn law_qualifies_ignores_order(approved: Seq<i64>, redeemed: Set<i64>)
    requires
        approved.len() > 0,
    ensures
        qualifies_spec(seq![approved.last()] + approved.drop_last(), redeemed) == qualifies_spec(
            approved,
            redeemed,
        ),
{
    let moved = seq![approved.last()] + approved.drop_last();
    let n = approved.len();
    if qualifies_spec(approved, redeemed) {
        let i = choose|i: int| 0 <= i < approved.len() && redeemed.contains(#[trigger] approved[i]);
        if i == n - 1 {
            assert(moved[0] == approved[i]);
        } else {
            assert(moved[i + 1] == approved[i]);
        }
    }
    if qualifies_spec(moved, redeemed) {
        let j = choose|j: int| 0 <= j < moved.len() && redeemed.contains(#[trigger] moved[j]);
        if j == 0 {
            assert(approved[n - 1] == moved[j]);
        } else {
            assert(approved[j - 1] == moved[j]);
        }
    }
}

/// With no approved group nobody qualifies.
pub proof fn law_no_approved_group_grants_nothing(redeemed: Set<i64>)
    ensures
        !qualifies_spec(Seq::empty(), redeemed),
{
}

/// Redeeming more codes never takes a role away: whoever qualifies with the groups
/// `fewer` qualifies with any superset of them.
pub proof fn law_qualifies_monotone(approved: Seq<i64>, fewer: Set<i64>, more: Set<i64>)
    requires
        fewer.subset_of(more),
        qualifies_spec(approved, fewer),
    ensures
        qualifies_spec(approved, more),
{
    let i = choose|i: int| 0 <= i < approved.len() && fewer.contains(#[trigger] approved[i]);
    assert(more.contains(approved[i]));
}

/// Approving a further group never takes a role away.
pub proof fn law_qualifies_more_approved(approved: Seq<i64>, extra: i64, redeemed: Set<i64>)
    requires
        qualifies_spec(approved, redeemed),
    ensures
        qualifies_spec(approved.push(extra), redeemed),
{
    let i = choose|i: int| 0 <= i < approved.len() && redeemed.contains(#[trigger] approved[i]);
    assert(approved.push(extra)[i] == approved[i]);
}

} // verus!
