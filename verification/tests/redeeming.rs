use referral_code_role::redeem::lookup_key;
use referral_code_role::redeem::{
    extract_ip, hash_ip, ip_rate_limited, pending_flag, redemption_inserted, role_expiry,
    scan_after_redeemed, scan_after_total, scan_start, user_rate_limited, CodeCandidate,
    RedeemError, ScanStep, MICROS_PER_HOUR,
};

fn cand(id: i64, kind: &str) -> CodeCandidate {
    CodeCandidate {
        code_id: id,
        batch_id: 100 + id,
        uses_count: 0,
        code_revoked: false,
        guild_id: "g".into(),
        kind: kind.into(),
        max_redemptions_per_code: None,
        max_redemptions_total: None,
        expires_at: None,
        batch_name: "b".into(),
        invite_url: None,
        role_duration_hours: None,
    }
}

/// Drives the scan with the given group totals and answers about earlier redemptions
/// of each code (`by_code`) and of any code of its group (`by_group`).
fn drive_with(
    cands: &Vec<CodeCandidate>,
    now: i64,
    totals: &[i64],
    by_code: &[bool],
    by_group: &[bool],
) -> Result<usize, RedeemError> {
    let mut step = scan_start(cands, now);
    loop {
        step = match step {
            ScanStep::CountBatchRedemptions { at, .. } => scan_after_total(cands, now, at, totals[at]),
            ScanStep::CheckAlreadyRedeemed { at, .. } => scan_after_redeemed(cands, now, at, by_code[at]),
            ScanStep::CheckRedeemedInGroup { at, .. } => scan_after_redeemed(cands, now, at, by_group[at]),
            ScanStep::Chosen(i) => return Ok(i),
            ScanStep::Rejected(e) => return Err(e),
        }
    }
}

/// Drives the scan where the member redeemed a code exactly when the member redeemed
/// in its group.
fn drive(cands: &Vec<CodeCandidate>, now: i64, totals: &[i64], already: &[bool]) -> Result<usize, RedeemError> {
    drive_with(cands, now, totals, already, already)
}

#[test]
fn no_candidate_is_invalid() {
    assert_eq!(drive(&vec![], 0, &[], &[]), Err(RedeemError::Invalid));
}

#[test]
fn each_refusal_has_its_reason() {
    let mut c = cand(1, "shared_unlimited");
    c.code_revoked = true;
    assert_eq!(drive(&vec![c], 10, &[0], &[false]), Err(RedeemError::Invalid));

    let mut c = cand(1, "shared_unlimited");
    c.expires_at = Some(9);
    assert_eq!(drive(&vec![c], 10, &[0], &[false]), Err(RedeemError::Expired));

    let mut c = cand(1, "shared_unlimited");
    c.expires_at = Some(10);
    assert_eq!(drive(&vec![c], 10, &[0], &[false]), Ok(0));

    let mut c = cand(1, "shared_unlimited");
    c.max_redemptions_total = Some(3);
    assert_eq!(drive(&vec![c], 10, &[3], &[false]), Err(RedeemError::Exhausted));

    let mut c = cand(1, "unique_per_code");
    c.uses_count = 1;
    assert_eq!(drive(&vec![c], 10, &[0], &[false]), Err(RedeemError::AlreadyUsed));

    let mut c = cand(1, "unique_per_user");
    c.uses_count = 4;
    c.max_redemptions_per_code = Some(4);
    assert_eq!(drive(&vec![c], 10, &[0], &[false]), Err(RedeemError::AlreadyUsed));

    let mut c = cand(1, "shared_unlimited");
    c.uses_count = 400;
    c.max_redemptions_per_code = Some(4);
    assert_eq!(drive(&vec![c], 10, &[0], &[false]), Ok(0));

    let c = cand(1, "unique_per_user");
    assert_eq!(drive(&vec![c], 10, &[0], &[true]), Err(RedeemError::AlreadyRedeemedByYou));
}

#[test]
fn first_usable_candidate_wins_and_last_reason_is_reported() {
    let mut a = cand(1, "unique_per_code");
    a.uses_count = 1;
    let b = cand(2, "unique_per_user");
    let c = cand(3, "shared_unlimited");
    let cands = vec![a, b, c];
    assert_eq!(drive(&cands, 10, &[0, 0, 0], &[false, true, false]), Ok(2));
    assert_eq!(drive(&cands, 10, &[0, 0, 0], &[false, false, false]), Ok(1));
    let mut d = cand(4, "shared_unlimited");
    d.expires_at = Some(0);
    let cands = vec![cand(1, "unique_per_user"), d];
    assert_eq!(drive(&cands, 10, &[0, 0], &[true, false]), Err(RedeemError::Expired));
}

#[test]
fn the_scan_asks_the_right_questions() {
    let mut c = cand(5, "shared_unlimited");
    c.max_redemptions_total = Some(2);
    let cands = vec![c];
    assert_eq!(
        scan_start(&cands, 0),
        ScanStep::CountBatchRedemptions { at: 0, batch_id: 105 }
    );
    assert_eq!(
        scan_after_total(&cands, 0, 0, 1),
        ScanStep::CheckAlreadyRedeemed { at: 0, code_id: 5 }
    );
    assert_eq!(scan_after_redeemed(&cands, 0, 0, false), ScanStep::Chosen(0));
}

#[test]
fn per_person_codes_are_claimed_once_per_group() {
    // The second code of a per-person group whose first code the member redeemed.
    let mut c2 = cand(2, "unique_per_user");
    c2.batch_id = 7;
    let only_second = vec![c2];
    assert_eq!(
        scan_start(&only_second, 0),
        ScanStep::CheckRedeemedInGroup { at: 0, batch_id: 7 }
    );
    assert_eq!(
        drive_with(&only_second, 0, &[0], &[false], &[true]),
        Err(RedeemError::AlreadyRedeemedByYou)
    );
    assert_eq!(drive_with(&only_second, 0, &[0], &[false], &[false]), Ok(0));
    // Other kinds still ask about the code itself.
    let one_time = vec![cand(3, "unique_per_code")];
    assert_eq!(
        scan_start(&one_time, 0),
        ScanStep::CheckAlreadyRedeemed { at: 0, code_id: 3 }
    );
    assert_eq!(drive_with(&one_time, 0, &[0], &[false], &[true]), Ok(0));
    let shared = vec![cand(4, "shared_unlimited")];
    assert_eq!(drive_with(&shared, 0, &[0], &[true], &[false]), Err(RedeemError::AlreadyRedeemedByYou));
}

#[test]
fn refusal_wire_names() {
    assert_eq!(RedeemError::Invalid.code(), "invalid");
    assert_eq!(RedeemError::Expired.code(), "expired");
    assert_eq!(RedeemError::Exhausted.code(), "exhausted");
    assert_eq!(RedeemError::AlreadyUsed.code(), "already_used");
    assert_eq!(RedeemError::AlreadyRedeemedByYou.code(), "already_redeemed_by_you");
}

#[test]
fn client_ip_from_headers() {
    assert_eq!(extract_ip(Some(" 1.1.1.1 ".into()), Some("2.2.2.2".into()), None), Some("1.1.1.1".into()));
    assert_eq!(extract_ip(Some("  ".into()), Some("2.2.2.2".into()), None), Some("2.2.2.2".into()));
    assert_eq!(
        extract_ip(None, None, Some(" 3.3.3.3 , 4.4.4.4".into())),
        Some("3.3.3.3".into())
    );
    assert_eq!(extract_ip(None, Some("".into()), Some(" ,4.4.4.4".into())), None);
    assert_eq!(extract_ip(None, None, None), None);
}

#[test]
fn ip_hash_is_hex_sha256() {
    assert_eq!(hash_ip("1.2.3.4"), "6694f83c9f476da31f5df6bcc520034e7e57d421d247b9d34f49edbfc84a764c");
    assert_eq!(hash_ip(""), "e3b0c44298fc1c149afbf4c8996fb92427ae41e4649b934ca495991b7852b855");
}

#[test]
fn rate_limits() {
    assert!(!user_rate_limited(19, 20));
    assert!(user_rate_limited(20, 20));
    assert!(!ip_rate_limited(99, 20));
    assert!(ip_rate_limited(100, 20));
}

#[test]
fn role_expiry_times() {
    assert_eq!(role_expiry(Some(2), 1_000), Some(1_000 + 2 * MICROS_PER_HOUR));
    assert_eq!(role_expiry(Some(0), 1_000), None);
    assert_eq!(role_expiry(Some(-3), 1_000), None);
    assert_eq!(role_expiry(None, 1_000), None);
    assert_eq!(MICROS_PER_HOUR, 3_600_000_000);
}

#[test]
fn pending_when_not_in_guild() {
    let gs = Some(vec!["a".to_string(), "b".to_string()]);
    assert!(!pending_flag(&gs, "a"));
    assert!(pending_flag(&gs, "c"));
    assert!(!pending_flag(&None, "c"));
}

#[test]
fn concurrent_insert_is_already_redeemed() {
    assert_eq!(redemption_inserted(0), Err(RedeemError::AlreadyRedeemedByYou));
    assert_eq!(redemption_inserted(1), Ok(()));
}

#[test]
fn lookup_key_of_typed_codes() {
    assert_eq!(lookup_key(" ab-c "), Some("ABC".to_string()));
    assert_eq!(lookup_key(" - "), None);
}
