use codex_switch::config::{configured_dir, Config, ConfigError};
use codex_switch::profile::{
    account_kind, active_profile_name, apply_usage_update, auth_matches_account, choose_auto_account,
    collect_accounts, find_auth_path, load_api_profile, ping_report, plan_profile_switch, sort_accounts,
    toml_string, usage_state_from_update, usage_task_count, ApiAccount, ApiAccountKind, ApiProfile,
    ApiUsageTone, AutoError, ProfileDirEntry, SwitchError,
};
use codex_switch::usage::{ApiUsage, ApiUsageState, ApiUsageUpdate, AuthJson, AuthTokens, Percent};

fn pct(value: f64, text: &str) -> Percent {
    Percent { bits: value.to_bits(), text: text.to_string() }
}

fn usage(primary: Option<f64>, secondary: Option<f64>) -> ApiUsage {
    ApiUsage {
        email: Some("a@example.com".to_string()),
        plan_type: Some("plus".to_string()),
        primary_label: "5h".to_string(),
        primary_remaining: primary.map(|v| pct(v, &format!("{v}%"))),
        primary_reset_after_seconds: Some(18_000),
        primary_reset_at: None,
        primary_reset_utc_offset: None,
        secondary_label: "7d".to_string(),
        secondary_remaining: secondary.map(|v| pct(v, &format!("{v}%"))),
        secondary_reset_after_seconds: None,
        secondary_reset_at: None,
        secondary_reset_utc_offset: None,
    }
}

fn account(name: &str, state: ApiUsageState) -> ApiAccount {
    let kind = match state {
        ApiUsageState::Api(_) => ApiAccountKind::Api,
        _ => ApiAccountKind::Account,
    };
    ApiAccount {
        name: name.to_string(),
        profile_dir: format!("/keys/{name}"),
        auth_path: Some(format!("/keys/{name}/auth.json")),
        kind,
        usage: state,
    }
}

fn api_profile() -> ApiProfile {
    ApiProfile { model_provider: Some("codex".to_string()), model: Some("gpt-5.5".to_string()), auth_method: None }
}

fn names(accounts: &[ApiAccount]) -> Vec<String> {
    accounts.iter().map(|a| a.name.clone()).collect()
}

fn auth_with(account_id: Option<&str>, key: Option<&str>) -> AuthJson {
    AuthJson {
        email: None,
        tokens: Some(AuthTokens { access_token: None, account_id: account_id.map(str::to_string), id_token: None }),
        openai_api_key: key.map(str::to_string),
    }
}

#[test]
fn config_starts_unset() {
    let c = Config::new();
    assert_eq!(c.codex_config_dir, "");
    assert_eq!(c.key_dir, "");
}

#[test]
fn configured_dir_checks() {
    let unset = configured_dir("  ", "key_dir", true, true).err().unwrap();
    assert!(matches!(&unset, ConfigError::Unset(f) if f == "key_dir"));
    assert_eq!(unset.message(), "key_dir 未配置，请编辑 ~/.config/codexswitch/config.toml");
    let missing = configured_dir(" /keys ", "key_dir", false, false).err().unwrap();
    assert_eq!(missing.message(), "key_dir 不存在: /keys");
    let file = configured_dir("/keys", "codex_config_dir", true, false).err().unwrap();
    assert_eq!(file.message(), "codex_config_dir 不是目录: /keys");
    assert_eq!(configured_dir(" /keys\n", "key_dir", true, true).ok(), Some("/keys".to_string()));
}

#[test]
fn profile_kinds() {
    assert_eq!(account_kind("API", None), ApiAccountKind::Api);
    assert_eq!(account_kind("api", None), ApiAccountKind::Api);
    assert_eq!(account_kind("Api", None), ApiAccountKind::Api);
    assert_eq!(account_kind("account-a", None), ApiAccountKind::Account);
    let with_key = auth_with(None, Some(" sk-123 "));
    assert_eq!(account_kind("work", Some(&with_key)), ApiAccountKind::Api);
    let blank_key = auth_with(Some("acct"), Some("   "));
    assert_eq!(account_kind("work", Some(&blank_key)), ApiAccountKind::Account);
}

#[test]
fn api_profile_texts() {
    let text = "model_provider = \"codex\"\nmodel = \"gpt-5.5\"\n";
    let p = load_api_profile(Some(text));
    assert_eq!(p.display_text(), "API codex gpt-5.5");
    assert_eq!(
        p.detail_lines(),
        vec![
            "type: api key".to_string(),
            "model_provider: codex".to_string(),
            "model: gpt-5.5".to_string(),
            "preferred_auth_method: apikey".to_string(),
        ]
    );
    let empty = load_api_profile(None);
    assert_eq!(empty.display_text(), "API api --");
    assert_eq!(toml_string(Some("model = \"  \""), "model"), None);
    assert_eq!(toml_string(Some("model = 5"), "model"), None);
    assert_eq!(toml_string(Some("not toml ["), "model"), None);
    assert_eq!(toml_string(Some("preferred_auth_method = \"apikey\""), "preferred_auth_method"), Some("apikey".to_string()));
}

#[test]
fn tones_and_texts() {
    let green = account("g", ApiUsageState::Loaded(usage(Some(100.0), Some(84.0))));
    let orange = account("o", ApiUsageState::Loaded(usage(Some(0.5), Some(84.0))));
    let red_incomplete = account("i", ApiUsageState::Loaded(usage(None, Some(84.0))));
    let red = account("r", ApiUsageState::Unavailable(None));
    let white = account("w", ApiUsageState::Loading);
    let api = account("API", ApiUsageState::Api(api_profile()));
    assert_eq!(green.usage_tone(), ApiUsageTone::Success);
    assert_eq!(orange.usage_tone(), ApiUsageTone::Warning);
    assert_eq!(red_incomplete.usage_tone(), ApiUsageTone::Error);
    assert_eq!(red.usage_tone(), ApiUsageTone::Error);
    assert_eq!(white.usage_tone(), ApiUsageTone::Default);
    assert_eq!(api.usage_tone(), ApiUsageTone::Default);
    assert_eq!(green.usage_sort_rank(), 3);
    assert_eq!(orange.usage_sort_rank(), 2);
    assert_eq!(white.usage_sort_rank(), 1);
    assert_eq!(red.usage_sort_rank(), 0);
    assert_eq!(white.usage_text(), "5h ... 7d ...");
    assert_eq!(red.usage_text(), "5h --% 7d --%");
    assert_eq!(api.usage_text(), "API codex gpt-5.5");
    assert_eq!(green.usage_text(), "5h 100% 7d 84%");
    assert!(green.needs_usage_fetch());
    assert!(!api.needs_usage_fetch());
    assert_eq!(white.usage_sort_score(), red.usage_sort_score());
    assert!(green.usage_sort_score() > orange.usage_sort_score());
}

#[test]
fn detail_lines_by_state() {
    let white = account("w", ApiUsageState::Loading);
    assert_eq!(
        white.detail_lines(),
        vec!["email: loading...", "plan_type: loading...", "5h ... reset in ...", "7d ... reset in ..."]
    );
    let red = account("r", ApiUsageState::Unavailable(Some("r@example.com".to_string())));
    assert_eq!(red.detail_lines(), vec!["email: r@example.com", "plan_type: --", "5h --% reset --", "7d --% reset --"]);
    let red2 = account("r", ApiUsageState::Unavailable(None));
    assert_eq!(red2.detail_lines()[0], "email: --");
}

#[test]
fn sorting_follows_colour_then_quota_then_name() {
    let mut accounts = vec![
        account("red", ApiUsageState::Unavailable(None)),
        account("white", ApiUsageState::Loading),
        account("orange", ApiUsageState::Loaded(usage(Some(0.5), Some(90.0)))),
        account("green-low", ApiUsageState::Loaded(usage(Some(40.0), Some(90.0)))),
        account("green-b", ApiUsageState::Loaded(usage(Some(80.0), Some(50.0)))),
        account("green-a", ApiUsageState::Loaded(usage(Some(80.0), Some(50.0)))),
        account("green-c", ApiUsageState::Loaded(usage(Some(80.0), Some(70.0)))),
        account("API", ApiUsageState::Api(api_profile())),
    ];
    sort_accounts(&mut accounts);
    assert_eq!(
        names(&accounts),
        vec!["green-c", "green-a", "green-b", "green-low", "orange", "API", "white", "red"]
    );
}

#[test]
fn sorting_is_stable_for_same_place() {
    let mut a = account("same", ApiUsageState::Loading);
    a.profile_dir = "first".to_string();
    let mut b = account("same", ApiUsageState::Loading);
    b.profile_dir = "second".to_string();
    let mut accounts = vec![a, b];
    sort_accounts(&mut accounts);
    assert_eq!(accounts[0].profile_dir, "first");
    assert_eq!(accounts[1].profile_dir, "second");
    let mut empty: Vec<ApiAccount> = Vec::new();
    sort_accounts(&mut empty);
    assert!(empty.is_empty());
}

#[test]
fn usage_updates() {
    let mut accounts = vec![account("a", ApiUsageState::Loading), account("b", ApiUsageState::Loading)];
    let update = ApiUsageUpdate { account_name: "b".to_string(), usage: Some(usage(Some(100.0), Some(100.0))), email: None };
    assert!(apply_usage_update(&mut accounts, update));
    assert!(matches!(accounts[1].usage, ApiUsageState::Loaded(_)));
    assert!(matches!(accounts[0].usage, ApiUsageState::Loading));
    let failed = ApiUsageUpdate { account_name: "a".to_string(), usage: None, email: Some("a@example.com".to_string()) };
    assert!(apply_usage_update(&mut accounts, failed));
    assert!(matches!(&accounts[0].usage, ApiUsageState::Unavailable(Some(e)) if e == "a@example.com"));
    let unknown = ApiUsageUpdate { account_name: "zzz".to_string(), usage: None, email: None };
    assert!(!apply_usage_update(&mut accounts, unknown));
    assert!(matches!(
        usage_state_from_update(ApiUsageUpdate { account_name: String::new(), usage: None, email: None }),
        ApiUsageState::Unavailable(None)
    ));
}

#[test]
fn auto_choice() {
    let empty: Vec<ApiAccount> = Vec::new();
    assert!(matches!(choose_auto_account(&empty), Err(AutoError::NoAccounts)));
    assert_eq!(AutoError::NoAccounts.message(), "没有可用账号");
    let only_api = vec![account("API", ApiUsageState::Api(api_profile())), account("x", ApiUsageState::Unavailable(None))];
    assert!(matches!(choose_auto_account(&only_api), Err(AutoError::NoCandidate)));
    assert_eq!(AutoError::NoCandidate.message(), "没有可自动切换的账号（API profile 不参与 auto）");
    let mut accounts = vec![
        account("API", ApiUsageState::Api(api_profile())),
        account("low", ApiUsageState::Loaded(usage(Some(10.0), Some(10.0)))),
        account("high", ApiUsageState::Loaded(usage(Some(90.0), Some(10.0)))),
    ];
    assert_eq!(usage_task_count(&accounts), 2);
    sort_accounts(&mut accounts);
    let i = choose_auto_account(&accounts).ok().unwrap();
    assert_eq!(accounts[i].name, "high");
}

#[test]
fn ping_lines() {
    let ok = vec![account("a", ApiUsageState::Loaded(usage(Some(1.0), Some(1.0)))), account("API", ApiUsageState::Api(api_profile()))];
    assert_eq!(ping_report(&ok), vec!["all accounts ok"]);
    let bad = vec![
        account("a", ApiUsageState::Unavailable(Some("a@example.com".to_string()))),
        account("b", ApiUsageState::Loaded(usage(Some(1.0), Some(1.0)))),
        account("c", ApiUsageState::Unavailable(None)),
    ];
    assert_eq!(ping_report(&bad), vec!["a@example.com", "c /keys/c"]);
}

#[test]
fn collecting_accounts() {
    let entries = vec![
        ProfileDirEntry { name: ".git".to_string(), is_dir: true, auth_exists: false, auth: None },
        ProfileDirEntry { name: ".account-config.toml".to_string(), is_dir: false, auth_exists: false, auth: None },
        ProfileDirEntry { name: "account-a".to_string(), is_dir: true, auth_exists: true, auth: Some(auth_with(Some("id-a"), None)) },
        ProfileDirEntry { name: "API".to_string(), is_dir: true, auth_exists: true, auth: None },
        ProfileDirEntry { name: "keyed".to_string(), is_dir: true, auth_exists: true, auth: Some(auth_with(None, Some("sk"))) },
        ProfileDirEntry { name: "empty".to_string(), is_dir: true, auth_exists: false, auth: Some(auth_with(None, Some("sk"))) },
    ];
    let accounts = collect_accounts("/keys", &entries, &api_profile());
    assert_eq!(names(&accounts), vec!["account-a", "API", "keyed", "empty"]);
    assert_eq!(accounts[0].profile_dir, "/keys/account-a");
    assert_eq!(accounts[0].auth_path, Some("/keys/account-a/auth.json".to_string()));
    assert_eq!(accounts[0].kind, ApiAccountKind::Account);
    assert!(matches!(accounts[0].usage, ApiUsageState::Loading));
    assert_eq!(accounts[1].kind, ApiAccountKind::Api);
    assert!(matches!(accounts[1].usage, ApiUsageState::Api(_)));
    assert_eq!(accounts[2].kind, ApiAccountKind::Api);
    assert_eq!(accounts[3].kind, ApiAccountKind::Account);
    assert_eq!(accounts[3].auth_path, None);
    assert_eq!(find_auth_path("/keys/x", false), None);
}

#[test]
fn switch_plans() {
    let a = account("account-a", ApiUsageState::Loading);
    let plan = plan_profile_switch("/keys", "/home/u/.codex", &a).ok().unwrap();
    assert_eq!(plan.auth_source, "/keys/account-a/auth.json");
    assert_eq!(plan.auth_target, "/home/u/.codex/auth.json");
    assert_eq!(plan.config_source, "/keys/.account-config.toml");
    assert_eq!(plan.config_target, "/home/u/.codex/config.toml");
    let api = account("API", ApiUsageState::Api(api_profile()));
    let plan = plan_profile_switch("/keys/", "/c", &api).ok().unwrap();
    assert_eq!(plan.config_source, "/keys/.api-config.toml");
    let mut no_auth = account("b", ApiUsageState::Loading);
    no_auth.auth_path = None;
    let err = plan_profile_switch("/keys", "/c", &no_auth).err().unwrap();
    assert_eq!(err.message(), "b 缺少 auth.json: /keys/b");
    assert_eq!(SwitchError::MissingTemplate("/keys/.api-config.toml".to_string()).message(), "缺少默认配置模板: /keys/.api-config.toml");
}

#[test]
fn active_profile_matching() {
    let accounts = vec![
        account("account-a", ApiUsageState::Loading),
        account("account-b", ApiUsageState::Loading),
        account("API", ApiUsageState::Api(api_profile())),
    ];
    let auths = vec![Some(auth_with(Some("id-a"), None)), Some(auth_with(Some(" id-b "), None)), Some(auth_with(None, Some("sk-1")))];
    let active_b = auth_with(Some("id-b"), None);
    assert_eq!(active_profile_name(Some(&active_b), &accounts, &auths), Some("account-b".to_string()));
    let active_api = auth_with(None, Some(" sk-1"));
    assert_eq!(active_profile_name(Some(&active_api), &accounts, &auths), Some("API".to_string()));
    let unknown = auth_with(Some("id-z"), None);
    assert_eq!(active_profile_name(Some(&unknown), &accounts, &auths), None);
    assert_eq!(active_profile_name(None, &accounts, &auths), None);
    assert!(!auth_matches_account(Some(&active_b), &accounts[1], None));
    let mut no_path = account("account-b", ApiUsageState::Loading);
    no_path.auth_path = None;
    assert!(!auth_matches_account(Some(&active_b), &no_path, Some(&auths[1].as_ref().unwrap())));
}
