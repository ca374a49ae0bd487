use referral_code_role::batch_rules::manager_check;
use referral_code_role::batch_rules::{
    after_code_insert, batch_name_taken, batch_view, code_collision_error, code_generation_sizes,
    custom_codes, ensure_batch_in_guild, ensure_code_in_guild, normalize_invite_url,
    page_window, parse_batch_kind, plan_batch_update, validate_new_batch, validate_role_duration,
    BatchKind, BatchRow, CreateBatchBody, InsertStep, UpdateBatchBody,
};
use referral_code_role::error::AppError;

fn bad(e: &AppError) -> &str {
    match e {
        AppError::BadRequest(m) => m.as_str(),
        _ => panic!("not a bad request"),
    }
}

#[test]
fn role_duration_rules() {
    assert!(matches!(validate_role_duration(None), Ok(None)));
    assert!(matches!(validate_role_duration(Some(0)), Ok(None)));
    assert!(matches!(validate_role_duration(Some(-5)), Ok(None)));
    assert!(matches!(validate_role_duration(Some(24)), Ok(Some(24))));
    assert!(matches!(validate_role_duration(Some(87600)), Ok(Some(87600))));
    let e = validate_role_duration(Some(87601)).unwrap_err();
    assert_eq!(bad(&e), "Role duration is too long (max 10 years)");
}

#[test]
fn invite_url_rules() {
    assert!(matches!(normalize_invite_url(None), Ok(None)));
    assert!(matches!(normalize_invite_url(Some("   ".into())), Ok(None)));
    assert_eq!(
        normalize_invite_url(Some("  https://discord.gg/abc ".into())).unwrap(),
        Some("https://discord.gg/abc".to_string())
    );
    assert_eq!(
        normalize_invite_url(Some("http://x".into())).unwrap(),
        Some("http://x".to_string())
    );
    let e = normalize_invite_url(Some("discord.gg/abc".into())).unwrap_err();
    assert_eq!(bad(&e), "Invite URL must start with https:// or http://");
}

fn body(kind: &str, name: &str) -> CreateBatchBody {
    CreateBatchBody {
        name: name.into(),
        description: Some("d".into()),
        kind: kind.into(),
        max_redemptions_per_code: Some(3),
        max_redemptions_total: Some(10),
        expires_at: Some(1_700_000_000_000_000),
        invite_url: Some(" https://discord.gg/x ".into()),
        role_duration_hours: Some(-1),
    }
}

#[test]
fn new_batch_checks_in_order() {
    assert_eq!(bad(&validate_new_batch(body("bogus", "")).err().unwrap()), "Invalid kind");
    assert_eq!(bad(&validate_new_batch(body("unique_per_user", "  ")).err().unwrap()), "Name required");
    let mut b = body("shared_unlimited", "Pod");
    b.invite_url = Some("ftp://x".into());
    assert_eq!(
        bad(&validate_new_batch(b).err().unwrap()),
        "Invite URL must start with https:// or http://"
    );
    let mut b = body("shared_unlimited", "Pod");
    b.role_duration_hours = Some(100000);
    assert_eq!(bad(&validate_new_batch(b).err().unwrap()), "Role duration is too long (max 10 years)");
    let ok = validate_new_batch(body("unique_per_code", "  Tier 2 ")).ok().unwrap();
    assert_eq!(ok.name, "Tier 2");
    assert_eq!(ok.kind, BatchKind::UniquePerCode);
    assert_eq!(ok.invite_url.as_deref(), Some("https://discord.gg/x"));
    assert_eq!(ok.role_duration_hours, None);
    assert_eq!(ok.max_redemptions_total, Some(10));
    assert_eq!(bad(&batch_name_taken()), "A batch with that name already exists");
}

#[test]
fn batch_kinds_read_and_write() {
    for k in [BatchKind::UniquePerCode, BatchKind::UniquePerUser, BatchKind::SharedUnlimited] {
        assert_eq!(parse_batch_kind(k.name()), Some(k));
    }
    assert_eq!(parse_batch_kind("unique"), None);
}

#[test]
fn update_plan_stops_at_a_refused_invite() {
    let plan = plan_batch_update(UpdateBatchBody {
        name: Some(" New ".into()),
        description: None,
        expires_at: Some(None),
        max_redemptions_total: Some(Some(5)),
        invite_url: Some(Some("nope".into())),
        role_duration_hours: Some(Some(5)),
    });
    assert_eq!(plan.name.as_deref(), Some("New"));
    assert_eq!(plan.expires_at, Some(None));
    assert_eq!(plan.max_redemptions_total, Some(Some(5)));
    assert!(plan.invite_url.is_none());
    assert!(plan.role_duration_hours.is_none());
    assert_eq!(bad(plan.error.as_ref().unwrap()), "Invite URL must start with https:// or http://");
}

#[test]
fn update_plan_checks_duration() {
    let plan = plan_batch_update(UpdateBatchBody {
        name: None,
        description: Some("x".into()),
        expires_at: None,
        max_redemptions_total: None,
        invite_url: Some(None),
        role_duration_hours: Some(Some(0)),
    });
    assert_eq!(plan.invite_url, Some(None));
    assert_eq!(plan.role_duration_hours, Some(None));
    assert!(plan.error.is_none());
    let plan = plan_batch_update(UpdateBatchBody {
        name: None,
        description: None,
        expires_at: None,
        max_redemptions_total: None,
        invite_url: None,
        role_duration_hours: Some(Some(90000)),
    });
    assert!(plan.role_duration_hours.is_none());
    assert_eq!(bad(plan.error.as_ref().unwrap()), "Role duration is too long (max 10 years)");
}

#[test]
fn paging_defaults_and_bounds() {
    let w = page_window(None, None);
    assert_eq!((w.page, w.page_size, w.offset), (1, 50, 0));
    let w = page_window(Some(3), Some(20));
    assert_eq!((w.page, w.page_size, w.offset), (3, 20, 40));
    let w = page_window(Some(-4), Some(10_000));
    assert_eq!((w.page, w.page_size, w.offset), (1, 500, 0));
    let w = page_window(Some(2), Some(0));
    assert_eq!((w.page, w.page_size, w.offset), (2, 1, 1));
}

fn row(cap: Option<i32>) -> BatchRow {
    BatchRow {
        id: 7,
        name: "n".into(),
        description: None,
        kind: "shared_unlimited".into(),
        max_redemptions_per_code: None,
        max_redemptions_total: cap,
        expires_at: None,
        revoked_at: None,
        created_at: 1,
        invite_url: None,
        role_duration_hours: None,
    }
}

#[test]
fn batch_view_remaining() {
    assert_eq!(batch_view(row(Some(10)), 4, 3).remaining, Some(7));
    assert_eq!(batch_view(row(Some(2)), 4, 3).remaining, Some(-1));
    assert_eq!(batch_view(row(None), 4, 3).remaining, None);
    assert_eq!(batch_view(row(None), 4, 3).total_codes, 4);
}

#[test]
fn guild_ownership_checks() {
    assert!(ensure_batch_in_guild(Some("g1".into()), "g1").is_ok());
    assert!(matches!(ensure_batch_in_guild(Some("g2".into()), "g1"), Err(AppError::Forbidden)));
    match ensure_batch_in_guild(None, "g1") {
        Err(AppError::NotFound(m)) => assert_eq!(m, "Batch not found"),
        _ => panic!(),
    }
    assert_eq!(ensure_code_in_guild(Some((9, "g1".into())), "g1").ok(), Some(9));
    assert!(matches!(ensure_code_in_guild(Some((9, "g2".into())), "g1"), Err(AppError::Forbidden)));
    match ensure_code_in_guild(None, "g1") {
        Err(AppError::NotFound(m)) => assert_eq!(m, "Code not found"),
        _ => panic!(),
    }
}

#[test]
fn generation_sizes_and_retries() {
    assert_eq!(code_generation_sizes(None, None), (0, 12));
    assert_eq!(code_generation_sizes(Some(5000), Some(2)), (1000, 6));
    assert_eq!(code_generation_sizes(Some(-1), Some(99)), (0, 20));
    assert_eq!(after_code_insert(1, true), InsertStep::Accept);
    assert_eq!(after_code_insert(4, false), InsertStep::Retry);
    assert_eq!(after_code_insert(5, false), InsertStep::GiveUp);
    assert_eq!(
        bad(&code_collision_error()),
        "Code length too short for the requested count (collisions)"
    );
}

#[test]
fn pasted_codes_are_normalized() {
    let raw = vec!["pod-code".to_string(), " - ".to_string(), "abc 1".to_string()];
    assert_eq!(custom_codes(&raw), vec!["PODCODE".to_string(), "ABC1".to_string()]);
}

#[test]
fn only_managers_pass() {
    assert!(manager_check(true).is_ok());
    assert!(matches!(manager_check(false), Err(AppError::Forbidden)));
}
