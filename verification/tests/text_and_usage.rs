use base64::Engine;
use codex_switch::text::{eq_ignore_ascii_case, join_path, pad_left, str_less, trim};
use codex_switch::usage::{
    auth_account_id_from_json, auth_api_key_from_json, auth_email, check_usage_status,
    email_from_id_token, format_percent, format_reset, format_usage, format_window_detail,
    required_field, reset_text, second_segment_of, usage_credentials, usage_from_response,
    window_label, ApiUsage, AuthJson, AuthTokens, Percent, RateLimit, RateLimitWindow,
    UsageError, UsageResponse,
};

fn pct(value: f64, text: &str) -> Percent {
    Percent { bits: value.to_bits(), text: text.to_string() }
}

fn token_with_payload(payload: &str) -> String {
    let encoded = base64::engine::general_purpose::URL_SAFE_NO_PAD.encode(payload.as_bytes());
    format!("eyJhbGciOiJub25lIn0.{}.signature", encoded)
}

#[test]
fn trim_removes_unicode_whitespace() {
    assert_eq!(trim("  abc \t\n"), "abc");
    assert_eq!(trim("\u{3000}x y\u{00A0}"), "x y");
    assert_eq!(trim("   "), "");
    assert_eq!(trim(""), "");
}

#[test]
fn pad_left_right_aligns() {
    assert_eq!(pad_left("5h", 2), "5h");
    assert_eq!(pad_left("84%", 4), " 84%");
    assert_eq!(pad_left("100.5%", 4), "100.5%");
}

#[test]
fn ascii_case_and_order() {
    assert!(eq_ignore_ascii_case("API", "api"));
    assert!(eq_ignore_ascii_case("Api", "api"));
    assert!(!eq_ignore_ascii_case("apis", "api"));
    assert!(str_less("account-a", "account-b"));
    assert!(str_less("acc", "account"));
    assert!(!str_less("b", "a"));
    assert!(!str_less("same", "same"));
}

#[test]
fn join_path_adds_one_separator() {
    assert_eq!(join_path("/keys", "auth.json"), "/keys/auth.json");
    assert_eq!(join_path("/keys/", "auth.json"), "/keys/auth.json");
    assert_eq!(join_path("", "auth.json"), "auth.json");
}

#[test]
fn window_labels() {
    assert_eq!(window_label(Some(18_000), "5h"), "5h");
    assert_eq!(window_label(Some(604_800), "7d"), "7d");
    assert_eq!(window_label(Some(120), "5h"), "2m");
    assert_eq!(window_label(Some(90), "5h"), "90s");
    assert_eq!(window_label(Some(0), "5h"), "0d");
    assert_eq!(window_label(None, "7d"), "7d");
}

#[test]
fn usage_line_layout() {
    assert_eq!(format_usage("5h", "100%", "7d", "84%"), "5h 100% 7d 84%");
    assert_eq!(format_usage("5h", "...", "7d", "..."), "5h ... 7d ...");
    assert_eq!(format_usage("5h", "--%", "7d", "--%"), "5h --% 7d --%");
    assert_eq!(format_usage("1d", "0%", "30m", "50%"), "1d 0% 30m 50%");
}

#[test]
fn percent_rendering() {
    assert_eq!(format_percent(&None), "--%");
    assert_eq!(format_percent(&Some(pct(84.0, "84%"))), "84%");
}

#[test]
fn percent_below_one_and_order() {
    assert!(pct(0.5, "0.5%").below_one());
    assert!(pct(0.0, "0%").below_one());
    assert!(!pct(1.0, "1%").below_one());
    assert!(!pct(100.0, "100%").below_one());
    assert!(!pct(f64::NAN, "NaN%").below_one());
    assert!(pct(-0.0, "-0%").below_one());
    assert!(pct(100.0, "100%").order_key() > pct(84.0, "84%").order_key());
    assert!(pct(84.0, "84%").order_key() > pct(0.0, "0%").order_key());
    assert!(pct(0.0, "0%").order_key() > pct(-0.0, "-0%").order_key());
    assert!(pct(f64::NAN, "NaN%").order_key() > pct(100.0, "100%").order_key());
}

#[test]
fn reset_texts() {
    assert_eq!(format_reset(None, Some(1), Some(0)), "reset --");
    assert_eq!(format_reset(Some(18_000), None, None), "reset in 5h 0min");
    assert_eq!(format_reset(Some(3_661), None, None), "reset in 1h 1min");
    assert_eq!(format_reset(Some(86_400), Some(1_747_051_200), Some(0)), "reset in 24h 0min");
    assert_eq!(format_reset(Some(100_000), None, Some(0)), "reset --");
    assert_eq!(format_reset(Some(100_000), Some(1_747_051_200), None), "reset --");
    assert_eq!(format_reset(Some(200_000), Some(1_747_051_200), Some(0)), "reset at 05.12 12:00");
    assert_eq!(format_reset(Some(200_000), Some(1_747_051_200), Some(8 * 3_600)), "reset at 05.12 20:00");
    assert_eq!(format_reset(Some(200_000), Some(1_747_051_200), Some(-13 * 3_600)), "reset at 05.11 23:00");
    assert_eq!(format_reset(Some(200_000), Some(951_782_400), Some(0)), "reset at 02.29 00:00");
    assert_eq!(format_reset(Some(200_000), Some(-1), Some(0)), "reset at 12.31 23:59");
    assert_eq!(format_reset(Some(200_000), Some(1_747_051_200), Some(86_400)), "reset --");
    assert_eq!(format_reset(Some(200_000), Some(8_210_266_876_799), Some(0)), "reset at 12.31 23:59");
    assert_eq!(format_reset(Some(200_000), Some(8_210_266_876_800), Some(0)), "reset --");
    assert_eq!(format_reset(Some(200_000), Some(-8_334_601_228_800), Some(0)), "reset at 01.01 00:00");
    assert_eq!(format_reset(Some(200_000), Some(-8_334_601_228_801), Some(0)), "reset --");
    assert_eq!(reset_text(Some(100_000), Some("05.12 12:00".to_string())), "reset at 05.12 12:00");
    assert_eq!(reset_text(Some(100_000), None), "reset --");
}

#[test]
fn window_detail_lines() {
    assert_eq!(
        format_window_detail("5h", &Some(pct(100.0, "100%")), Some(18_000), None, None),
        "5h 100% reset in 5h 0min"
    );
    assert_eq!(
        format_window_detail("7d", &Some(pct(84.0, "84%")), Some(200_000), Some(1_747_051_200), Some(0)),
        "7d 84% reset at 05.12 12:00"
    );
    assert_eq!(format_window_detail("7d", &None, None, None, None), "7d --% reset --");
}

fn auth(email: Option<&str>, account_id: Option<&str>, id_token: Option<String>, key: Option<&str>) -> AuthJson {
    AuthJson {
        email: email.map(str::to_string),
        tokens: Some(AuthTokens {
            access_token: Some("access".to_string()),
            account_id: account_id.map(str::to_string),
            id_token,
        }),
        openai_api_key: key.map(str::to_string),
    }
}

#[test]
fn auth_fields_are_trimmed() {
    let a = auth(None, Some("  acct-1 "), None, Some(" sk-1 "));
    assert_eq!(auth_account_id_from_json(&a), Some("acct-1".to_string()));
    assert_eq!(auth_api_key_from_json(&a), Some("sk-1".to_string()));
    let b = auth(None, Some("   "), None, Some(""));
    assert_eq!(auth_account_id_from_json(&b), None);
    assert_eq!(auth_api_key_from_json(&b), None);
}

#[test]
fn id_token_segments() {
    assert_eq!(second_segment_of("a.b.c"), Some("b".to_string()));
    assert_eq!(second_segment_of("a.b"), Some("b".to_string()));
    assert_eq!(second_segment_of("a..c"), Some("".to_string()));
    assert_eq!(second_segment_of("abc"), None);
}

#[test]
fn email_from_token_claims() {
    let token = token_with_payload("{\"email\":\"name@example.com\",\"sub\":\"x\"}");
    assert_eq!(email_from_id_token(&token), Some("name@example.com".to_string()));
    let blank = token_with_payload("{\"email\":\"  \"}");
    assert_eq!(email_from_id_token(&blank), None);
    let number = token_with_payload("{\"email\":5}");
    assert_eq!(email_from_id_token(&number), None);
    assert_eq!(email_from_id_token("no-dots"), None);
    assert_eq!(email_from_id_token("a.!!!.c"), None);
}

#[test]
fn auth_email_prefers_direct_field() {
    let token = token_with_payload("{\"email\":\"token@example.com\"}");
    assert_eq!(auth_email(&auth(Some("direct@example.com"), None, Some(token.clone()), None)), Some("direct@example.com".to_string()));
    assert_eq!(auth_email(&auth(Some("  "), None, Some(token), None)), Some("token@example.com".to_string()));
    assert_eq!(auth_email(&auth(None, None, None, None)), None);
}

#[test]
fn required_fields() {
    assert!(matches!(required_field(None, "tokens.account_id"), Err(UsageError::MissingField(n)) if n == "tokens.account_id"));
    assert!(matches!(required_field(Some(" ".to_string()), "x"), Err(UsageError::EmptyField(n)) if n == "x"));
    assert!(matches!(required_field(Some(" v ".to_string()), "x"), Ok(v) if v == " v "));
}

#[test]
fn credentials_and_status() {
    let a = auth(None, Some("acct"), None, None);
    assert!(matches!(usage_credentials(a), Ok((t, i)) if t == "access" && i == "acct"));
    let no_tokens = AuthJson { email: None, tokens: None, openai_api_key: None };
    assert!(matches!(usage_credentials(no_tokens), Err(UsageError::MissingTokens)));
    let no_id = auth(None, None, None, None);
    assert!(matches!(usage_credentials(no_id), Err(UsageError::MissingField(n)) if n == "tokens.account_id"));
    assert!(check_usage_status(200).is_ok());
    assert!(check_usage_status(299).is_ok());
    assert!(matches!(check_usage_status(401), Err(UsageError::Status(401))));
    assert!(matches!(check_usage_status(199), Err(UsageError::Status(199))));
}

fn window(remaining: f64, text: &str, seconds: u64, after: u64) -> RateLimitWindow {
    RateLimitWindow {
        remaining: Some(pct(remaining, text)),
        limit_window_seconds: Some(seconds),
        reset_after_seconds: Some(after),
        reset_at: Some(1_747_051_200),
        reset_at_utc_offset: Some(0),
    }
}

#[test]
fn usage_record_from_response() {
    let resp = UsageResponse {
        email: None,
        plan_type: Some("plus".to_string()),
        rate_limit: Some(RateLimit {
            primary_window: Some(window(100.0, "100%", 18_000, 18_000)),
            secondary_window: Some(window(84.0, "84%", 604_800, 200_000)),
        }),
    };
    let usage: ApiUsage = usage_from_response(resp, Some("name@example.com".to_string())).ok().unwrap();
    assert_eq!(usage.display_text(), "5h 100% 7d 84%");
    assert_eq!(
        usage.detail_lines(),
        vec![
            "email: name@example.com".to_string(),
            "plan_type: plus".to_string(),
            "5h 100% reset in 5h 0min".to_string(),
            "7d 84% reset at 05.12 12:00".to_string(),
        ]
    );
    assert!(usage.has_remaining_percents());
    assert!(!usage.is_low_remaining());

    let missing = UsageResponse { email: None, plan_type: None, rate_limit: None };
    assert!(matches!(usage_from_response(missing, None), Err(UsageError::MissingRateLimit)));

    let partial = UsageResponse {
        email: Some("resp@example.com".to_string()),
        plan_type: None,
        rate_limit: Some(RateLimit { primary_window: None, secondary_window: None }),
    };
    let u = usage_from_response(partial, Some("fallback@example.com".to_string())).ok().unwrap();
    assert_eq!(u.display_text(), "5h --% 7d --%");
    assert_eq!(u.email, Some("resp@example.com".to_string()));
    assert!(!u.has_remaining_percents());
}
