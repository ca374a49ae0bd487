use referral_code_role::condition::{qualifies, RoleConditions};
use referral_code_role::sync::{
    after_replace, assignment_change, chunk_bounds, follow_up, guilds_to_touch, holds_assignment,
    plan_player_sync, player_sync_needed, qualifying_members, AssignmentChange, FollowUp,
    ReplaceFollowUp, RoleCallResult, RoleLinkRow, ASSIGNMENT_INSERT_CHUNK,
};
use referral_code_role::tasks::{
    distinct_members, expired_redemption_ids, expiry_dispatch_step, pending_dispatch_step,
    DispatchTally, SendResult,
};
use std::collections::HashSet;

fn pair(g: &str, r: &str) -> (String, String) {
    (g.to_string(), r.to_string())
}

#[test]
fn qualification_needs_an_approved_redeemed_group() {
    let set: HashSet<i64> = [1, 2].into_iter().collect();
    assert!(qualifies(&RoleConditions { approved_batch_ids: vec![5, 2] }, &set));
    assert!(!qualifies(&RoleConditions { approved_batch_ids: vec![5] }, &set));
    assert!(!qualifies(&RoleConditions { approved_batch_ids: vec![] }, &set));
    assert!(RoleConditions { approved_batch_ids: vec![] }.approves_nobody());
}

#[test]
fn default_conditions_approve_nobody() {
    let d = RoleConditions::default();
    assert!(d.approved_batch_ids.is_empty());
    assert!(d.approves_nobody());
    let set: HashSet<i64> = [1].into_iter().collect();
    assert!(!qualifies(&d, &set));
    let c = d.clone();
    assert_eq!(format!("{:?}", c), "RoleConditions { approved_batch_ids: [] }");
}

#[test]
fn sync_needed_only_with_something_to_do() {
    let empty: HashSet<i64> = HashSet::new();
    assert!(!player_sync_needed(&empty, &vec![]));
    assert!(player_sync_needed(&empty, &vec![pair("g", "r")]));
    let one: HashSet<i64> = [3].into_iter().collect();
    assert!(player_sync_needed(&one, &vec![]));
}

#[test]
fn touched_guilds_are_the_union_once_each() {
    let members = vec!["a".to_string(), "b".to_string(), "a".to_string()];
    let existing = vec![pair("b", "r1"), pair("c", "r2"), pair("c", "r3")];
    let mut t = guilds_to_touch(&members, &existing);
    t.sort();
    assert_eq!(t, vec!["a".to_string(), "b".to_string(), "c".to_string()]);
}

#[test]
fn plan_grants_and_revokes() {
    let set: HashSet<i64> = [1].into_iter().collect();
    let links = vec![
        RoleLinkRow { guild_id: "g".into(), role_id: "r1".into(), api_token: "t".into(), conditions: RoleConditions { approved_batch_ids: vec![1] } },
        RoleLinkRow { guild_id: "g".into(), role_id: "r2".into(), api_token: "t".into(), conditions: RoleConditions { approved_batch_ids: vec![2] } },
        RoleLinkRow { guild_id: "g".into(), role_id: "r3".into(), api_token: "t".into(), conditions: RoleConditions { approved_batch_ids: vec![1] } },
        RoleLinkRow { guild_id: "h".into(), role_id: "r4".into(), api_token: "t".into(), conditions: RoleConditions { approved_batch_ids: vec![] } },
    ];
    let existing = vec![pair("g", "r2"), pair("g", "r3")];
    assert!(holds_assignment(&existing, "g", "r3"));
    assert!(!holds_assignment(&existing, "h", "r3"));
    let plan = plan_player_sync(&links, &set, &existing);
    assert_eq!(
        plan,
        vec![AssignmentChange::Grant, AssignmentChange::Revoke, AssignmentChange::Keep, AssignmentChange::Keep]
    );
    assert_eq!(assignment_change(true, false), AssignmentChange::Grant);
}

#[test]
fn bookkeeping_after_calls() {
    assert_eq!(follow_up(AssignmentChange::Grant, RoleCallResult::Done), FollowUp::RecordAssignment);
    assert_eq!(follow_up(AssignmentChange::Revoke, RoleCallResult::Done), FollowUp::DropAssignment);
    assert_eq!(follow_up(AssignmentChange::Grant, RoleCallResult::RoleLinkNotFound), FollowUp::DeleteOrphanLink);
    assert_eq!(follow_up(AssignmentChange::Grant, RoleCallResult::UserLimitReached), FollowUp::Skip);
    assert_eq!(follow_up(AssignmentChange::Revoke, RoleCallResult::Failed), FollowUp::Skip);
    assert_eq!(after_replace(RoleCallResult::Done), ReplaceFollowUp::RebuildMirror);
    assert_eq!(after_replace(RoleCallResult::RoleLinkNotFound), ReplaceFollowUp::DeleteOrphanLink);
    assert_eq!(after_replace(RoleCallResult::Failed), ReplaceFollowUp::Fail);
}

#[test]
fn members_filter_keeps_order() {
    let all = vec!["u1".to_string(), "u2".to_string(), "u3".to_string()];
    assert_eq!(
        qualifying_members(all.clone(), Some(vec!["u3".to_string(), "u1".to_string()])),
        vec!["u1".to_string(), "u3".to_string()]
    );
    assert_eq!(qualifying_members(all.clone(), None), all);
}

#[test]
fn chunks_cover_in_order() {
    assert_eq!(chunk_bounds(0, 3), vec![]);
    assert_eq!(chunk_bounds(7, 3), vec![(0, 3), (3, 6), (6, 7)]);
    assert_eq!(chunk_bounds(6, 3), vec![(0, 3), (3, 6)]);
    assert_eq!(chunk_bounds(120_000, ASSIGNMENT_INSERT_CHUNK), vec![(0, 50_000), (50_000, 100_000), (100_000, 120_000)]);
}

#[test]
fn repeated_role_link_sync_rebuilds_the_same_mirror() {
    let all: Vec<String> = (0..11).map(|i| format!("u{i}")).collect();
    let members: Vec<String> = (0..11).filter(|i| i % 3 != 0).map(|i| format!("u{i}")).collect();
    let first = qualifying_members(all.clone(), Some(members.clone()));
    let second = qualifying_members(all.clone(), Some(members.clone()));
    assert_eq!(first, second);
    for size in [1usize, 2, 3, 50_000] {
        let mut mirror: Vec<String> = Vec::new();
        for (start, end) in chunk_bounds(first.len(), size) {
            mirror.extend_from_slice(&first[start..end]);
        }
        assert_eq!(mirror, first);
    }
}

#[test]
fn dispatch_counting() {
    let t = DispatchTally { dispatched: 0, dropped: 0 };
    let t = pending_dispatch_step(t, SendResult::Sent).unwrap();
    let t = pending_dispatch_step(t, SendResult::Full).unwrap();
    assert_eq!(t, DispatchTally { dispatched: 1, dropped: 1 });
    assert_eq!(pending_dispatch_step(t, SendResult::Closed), None);
    assert_eq!(expiry_dispatch_step(2, SendResult::Sent), Some(3));
    assert_eq!(expiry_dispatch_step(2, SendResult::Full), Some(2));
    assert_eq!(expiry_dispatch_step(2, SendResult::Closed), None);
}

#[test]
fn expiry_rows() {
    let rows = vec![(1, "a".to_string()), (2, "b".to_string()), (3, "a".to_string())];
    assert_eq!(expired_redemption_ids(&rows), vec![1, 2, 3]);
    assert_eq!(distinct_members(&rows), vec!["a".to_string(), "b".to_string()]);
}
