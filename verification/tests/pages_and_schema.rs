use referral_code_role::decimal::{parse_u32, u32_setting};
use referral_code_role::decimal::{decimal_string, parse_i64};
use referral_code_role::error::AppError;
use referral_code_role::pages::{logout_cookie, code_share_url, login_redirect, render_admin_page, render_svg, render_verify_page};
use referral_code_role::schema::{build_config_schema, parse_config, BatchSummary, ConfigValue, SchemaFieldKind};
use referral_code_role::condition::RoleConditions;
use referral_code_role::templates::{ADMIN_PAGE_HEAD, VERIFY_PAGE_HEAD};

#[test]
fn verify_page_carries_the_base_url() {
    let base = "https://x.example/referral-code-role";
    let page = render_verify_page(base);
    assert!(page.starts_with("<!DOCTYPE html>"));
    assert!(page.contains(&format!("href=\"{base}/favicon.ico\"")));
    assert!(page.contains(&format!("const BASE = '{base}';")));
    assert_eq!(page.matches(base).count(), 2);
    assert!(page.ends_with("</html>"));
    assert!(page.contains("*{margin:0;padding:0;box-sizing:border-box}"));
    assert!(VERIFY_PAGE_HEAD.ends_with("href=\""));
}

#[test]
fn admin_page_carries_the_base_url() {
    let base = "https://y.example/referral-code-role";
    let page = render_admin_page(base);
    assert!(page.contains(&format!("href=\"{base}/favicon.ico\"")));
    assert!(page.contains(&format!("'{base}'")));
    assert!(ADMIN_PAGE_HEAD.contains("<title>") == false);
    assert!(page.contains("Referral Code Role — Admin"));
}

#[test]
fn login_redirect_addresses() {
    assert_eq!(
        login_redirect(None),
        "/auth/login?return_to=%2Freferral-code-role%2Fverify"
    );
    assert_eq!(
        login_redirect(Some(String::new())),
        "/auth/login?return_to=%2Freferral-code-role%2Fverify"
    );
    assert_eq!(
        login_redirect(Some("AB C".into())),
        "/auth/login?return_to=%2Freferral-code-role%2Fverify%3Fcode%3DAB%2520C"
    );
}

#[test]
fn share_url_encodes_the_code() {
    assert_eq!(code_share_url("https://b", "AB-C D"), "https://b/verify?code=AB-C%20D");
    assert_eq!(code_share_url("https://b", "é"), "https://b/verify?code=%C3%A9");
}

#[test]
fn qr_renders_svg() {
    let svg = render_svg("https://b/verify?code=ABC").ok().unwrap();
    assert!(svg.starts_with("<?xml"));
    assert!(svg.contains("#0e1525"));
    assert!(svg.contains("#ffffff"));
}

#[test]
fn qr_refuses_too_much_data() {
    let long = "x".repeat(5000);
    match render_svg(&long) {
        Err(AppError::Internal(m)) => assert_eq!(m, "QR encode failed: data too long"),
        _ => panic!("expected a failure"),
    }
}

#[test]
fn decimal_agrees_with_std() {
    for n in [0i64, 7, -7, 10, 1234567890, i64::MAX, i64::MIN, -1] {
        assert_eq!(decimal_string(n), n.to_string());
        assert_eq!(parse_i64(&n.to_string()), Some(n));
    }
    for s in ["", "+", "-", "+12", "-0", "12a", " 1", "9223372036854775808", "-9223372036854775809", "007"] {
        assert_eq!(parse_i64(s), s.parse::<i64>().ok(), "input {s:?}");
    }
}

#[test]
fn config_values_are_read() {
    let values = vec![
        ConfigValue::Text("12".into()),
        ConfigValue::Integer(5),
        ConfigValue::Text("x".into()),
        ConfigValue::Other,
        ConfigValue::Text("-3".into()),
    ];
    assert_eq!(parse_config(Some(values)).approved_batch_ids, vec![12, 5, -3]);
    assert!(parse_config(None).approved_batch_ids.is_empty());
}

#[test]
fn schema_lists_groups_and_values() {
    let batches = vec![BatchSummary { id: 4, name: "Tier 2".into() }];
    let schema = build_config_schema("g1", &RoleConditions { approved_batch_ids: vec![4, 9] }, &batches, "https://b");
    assert_eq!(schema.version, 1);
    assert_eq!(schema.sections.len(), 3);
    assert_eq!(schema.approved_batch_ids, vec!["4".to_string(), "9".to_string()]);
    let picker = &schema.sections[1].fields[0];
    assert_eq!(picker.kind, SchemaFieldKind::MultiSelect);
    assert_eq!(picker.options[0].label, "Tier 2");
    assert_eq!(picker.options[0].value, "4");
    let links = &schema.sections[2].fields;
    assert_eq!(
        links[0].value.as_deref(),
        Some("Manage code groups, generate codes, view stats: https://b/admin?guild_id=g1")
    );
    assert_eq!(
        links[1].value.as_deref(),
        Some("Send this link to anyone who has a code: https://b/verify")
    );
    let values: Vec<ConfigValue> = schema.approved_batch_ids.iter().map(|s| ConfigValue::Text(s.clone())).collect();
    assert_eq!(parse_config(Some(values)).approved_batch_ids, vec![4, 9]);
}

#[test]
fn schema_without_groups_points_to_admin() {
    let schema = build_config_schema("g1", &RoleConditions { approved_batch_ids: vec![] }, &vec![], "https://b");
    let f = &schema.sections[1].fields[0];
    assert_eq!(f.key, "no_batches");
    assert_eq!(
        f.value.as_deref(),
        Some("Open the admin panel and click \"+ New code group\": https://b/admin?guild_id=g1")
    );
}

#[test]
fn u32_settings_follow_std_parsing() {
    for s in ["", "0", "+7", "-0", "-1", "4294967295", "4294967296", "12x", "32"] {
        assert_eq!(parse_u32(s), s.parse::<u32>().ok(), "input {s:?}");
    }
    assert_eq!(u32_setting(None, 32), 32);
    assert_eq!(u32_setting(Some("8".into()), 32), 8);
    assert_eq!(u32_setting(Some("many".into()), 4), 4);
}

#[test]
fn logout_cookie_expires_the_session() {
    assert_eq!(logout_cookie(), "rl_session=; Path=/; HttpOnly; SameSite=Lax; Max-Age=0");
}
