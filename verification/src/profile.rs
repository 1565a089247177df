//! Profiles: the accounts and API-key profiles found in the key directory, their
//! classification, ordering, and the files a switch copies.

use vstd::prelude::*;
use crate::text;
use crate::usage;
use crate::usage::{ApiUsageState, AuthJson};

verus! {

/// What the API-key template `.api-config.toml` names.
pub struct ApiProfile {
    pub model_provider: Option<String>,
    pub model: Option<String>,
    pub auth_method: Option<String>,
}

fn copy_opt(o: &Option<String>) -> (r: Option<String>)
    ensures
        r == *o,
{
    match o {
        Some(s) => Some(s.clone()),
        None => None,
    }
}

impl Clone for ApiProfile {
    fn clone(&self) -> (r: Self)
        ensures
            r == *self,
    {
        ApiProfile {
            model_provider: copy_opt(&self.model_provider),
            model: copy_opt(&self.model),
            auth_method: copy_opt(&self.auth_method),
        }
    }
}

/// The characters of an optional string, `default` where it is absent.
pub open spec fn or_default(o: Option<String>, default: Seq<char>) -> Seq<char> {
    match o {
        Some(s) => s@,
        None => default,
    }
}

fn text_or(o: &Option<String>, default: &str) -> (r: String)
    ensures
        r@ == or_default(*o, default@),
{
    match o {
        Some(s) => s.clone(),
        None => default.to_owned(),
    }
}

/// The list text of an API-key profile.
pub open spec fn api_profile_display(p: ApiProfile) -> Seq<char> {
    "API "@ + or_default(p.model_provider, "api"@) + seq![' '] + or_default(p.model, "--"@)
}

/// The detail panel of an API-key profile.
pub open spec fn api_profile_details(p: ApiProfile) -> Seq<Seq<char>> {
    seq![
        "type: api key"@,
        "model_provider: "@ + or_default(p.model_provider, "--"@),
        "model: "@ + or_default(p.model, "--"@),
        "preferred_auth_method: "@ + or_default(p.auth_method, "apikey"@),
    ]
}

impl ApiProfile {
    /// The list text, such as `API codex gpt-5.5`.
    pub fn display_text(&self) -> (r: String)
        ensures
            r@ == api_profile_display(*self),
    {
        let mut r = "API ".to_owned();
        let provider = text_or(&self.model_provider, "api");
        r.append(provider.as_str());
        text::push_char(&mut r, ' ');
        let model = text_or(&self.model, "--");
        r.append(model.as_str());
        r
    }

    /// The detail panel of an API-key profile.
    pub fn detail_lines(&self) -> (r: Vec<String>)
        ensures
            usage::lines_of(r@) == api_profile_details(*self),
    {
        let mut provider = "model_provider: ".to_owned();
        let p = text_or(&self.model_provider, "--");
        provider.append(p.as_str());
        let mut model = "model: ".to_owned();
        let m = text_or(&self.model, "--");
        model.append(m.as_str());
        let mut method = "preferred_auth_method: ".to_owned();
        let a = text_or(&self.auth_method, "apikey");
        method.append(a.as_str());
        let mut r = Vec::new();
        r.push("type: api key".to_owned());
        r.push(provider);
        r.push(model);
        r.push(method);
        proof {
            assert(usage::lines_of(r@) =~= api_profile_details(*self));
        }
        r
    }
}

/// Whether a profile is an ordinary account or an API-key profile.
#[derive(Clone, Copy, Debug, PartialEq, Eq, Structural)]
pub enum ApiAccountKind {
    Account,
    Api,
}

/// The colour class of an account's usage.
#[derive(Clone, Copy, Debug, PartialEq, Eq, Structural)]
pub enum ApiUsageTone {
    /// White: still loading, or an API-key profile.
    Default,
    /// Green: both windows have at least one percent left.
    Success,
    /// Orange: some window has less than one percent left.
    Warning,
    /// Red: the usage could not be fetched or is incomplete.
    Error,
}

/// A profile directory under the key directory.
pub struct ApiAccount {
    pub name: String,
    pub profile_dir: String,
    pub auth_path: Option<String>,
    pub kind: ApiAccountKind,
    pub usage: ApiUsageState,
}

/// The colour class of a usage state.
pub open spec fn tone_of(s: ApiUsageState) -> ApiUsageTone {
    match s {
        ApiUsageState::Loading => ApiUsageTone::Default,
        ApiUsageState::Api(_) => ApiUsageTone::Default,
        ApiUsageState::Unavailable(_) => ApiUsageTone::Error,
        ApiUsageState::Loaded(u) => if usage::low_remaining(u) {
            ApiUsageTone::Warning
        } else if usage::has_both_percents(u) {
            ApiUsageTone::Success
        } else {
            ApiUsageTone::Error
        },
    }
}

/// The rank of a colour class: green first, then orange, white, and red last.
pub open spec fn tone_rank(t: ApiUsageTone) -> u8 {
    match t {
        ApiUsageTone::Error => 0,
        ApiUsageTone::Default => 1,
        ApiUsageTone::Warning => 2,
        ApiUsageTone::Success => 3,
    }
}

/// The order key of an optional remaining percentage; unknown counts as zero.
pub open spec fn percent_score(p: Option<usage::Percent>) -> u64 {
    match p {
        Some(p) => usage::total_order_key(p.bits),
        None => usage::total_order_key(0),
    }
}

/// The order key of the primary window's remaining percentage.
pub open spec fn primary_score(s: ApiUsageState) -> u64 {
    match s {
        ApiUsageState::Loaded(u) => percent_score(u.primary_remaining),
        _ => usage::total_order_key(0),
    }
}

/// The order key of the secondary window's remaining percentage.
pub open spec fn secondary_score(s: ApiUsageState) -> u64 {
    match s {
        ApiUsageState::Loaded(u) => percent_score(u.secondary_remaining),
        _ => usage::total_order_key(0),
    }
}

/// The list text of a usage state.
pub open spec fn usage_text_of(s: ApiUsageState) -> Seq<char> {
    match s {
        ApiUsageState::Loading => usage::usage_line("5h"@, "..."@, "7d"@, "..."@),
        ApiUsageState::Loaded(u) => usage::usage_display(u),
        ApiUsageState::Api(p) => api_profile_display(p),
        ApiUsageState::Unavailable(_) => usage::usage_line("5h"@, "--%"@, "7d"@, "--%"@),
    }
}

fn score_of(p: &Option<usage::Percent>) -> (r: u64)
    ensures
        r == percent_score(*p),
{
    match p {
        Some(p) => p.order_key(),
        None => 0x8000_0000_0000_0000,
    }
}

impl ApiAccount {
    /// Whether the account's usage is fetched: only ordinary accounts are.
    pub fn needs_usage_fetch(&self) -> (r: bool)
        ensures
            r == (self.kind == ApiAccountKind::Account),
    {
        self.kind == ApiAccountKind::Account
    }

    /// The text in the list's right column.
    pub fn usage_text(&self) -> (r: String)
        ensures
            r@ == usage_text_of(self.usage),
    {
        match &self.usage {
            ApiUsageState::Loading => usage::format_usage("5h", "...", "7d", "..."),
            ApiUsageState::Loaded(u) => u.display_text(),
            ApiUsageState::Api(p) => p.display_text(),
            ApiUsageState::Unavailable(_) => usage::format_usage("5h", "--%", "7d", "--%"),
        }
    }

    /// The colour class of the account.
    pub fn usage_tone(&self) -> (r: ApiUsageTone)
        ensures
            r == tone_of(self.usage),
    {
        match &self.usage {
            ApiUsageState::Loading => ApiUsageTone::Default,
            ApiUsageState::Api(_) => ApiUsageTone::Default,
            ApiUsageState::Unavailable(_) => ApiUsageTone::Error,
            ApiUsageState::Loaded(u) => {
                if u.is_low_remaining() {
                    ApiUsageTone::Warning
                } else if u.has_remaining_percents() {
                    ApiUsageTone::Success
                } else {
                    ApiUsageTone::Error
                }
            },
        }
    }

    /// The order key of the primary window's remaining percentage (zero where
    /// unknown or not loaded).
    pub fn usage_sort_score(&self) -> (r: u64)
        ensures
            r == primary_score(self.usage),
    {
        match &self.usage {
            ApiUsageState::Loaded(u) => score_of(&u.primary_remaining),
            _ => 0x8000_0000_0000_0000,
        }
    }

    /// The order key of the secondary window's remaining percentage.
    pub fn usage_secondary_sort_score(&self) -> (r: u64)
        ensures
            r == secondary_score(self.usage),
    {
        match &self.usage {
            ApiUsageState::Loaded(u) => score_of(&u.secondary_remaining),
            _ => 0x8000_0000_0000_0000,
        }
    }

    /// The rank of the account's colour class.
    pub fn usage_sort_rank(&self) -> (r: u8)
        ensures
            r == tone_rank(tone_of(self.usage)),
    {
        match self.usage_tone() {
            ApiUsageTone::Error => 0,
            ApiUsageTone::Default => 1,
            ApiUsageTone::Warning => 2,
            ApiUsageTone::Success => 3,
        }
    }
}

/// Whether `lines` is the detail panel of an account in state `s`.
pub open spec fn account_details(s: ApiUsageState, lines: Seq<Seq<char>>) -> bool {
    match s {
        ApiUsageState::Loading => lines == seq![
            "email: loading..."@,
            "plan_type: loading..."@,
            "5h ... reset in ..."@,
            "7d ... reset in ..."@,
        ],
        ApiUsageState::Api(p) => lines == api_profile_details(p),
        ApiUsageState::Unavailable(email) => lines == seq![
            "email: "@ + usage::or_dashes(email),
            "plan_type: --"@,
            "5h --% reset --"@,
            "7d --% reset --"@,
        ],
        ApiUsageState::Loaded(u) => usage::usage_details(u, lines),
    }
}

impl ApiAccount {
    /// The detail panel of the account.
    pub fn detail_lines(&self) -> (r: Vec<String>)
        ensures
            account_details(self.usage, usage::lines_of(r@)),
    {
        match &self.usage {
            ApiUsageState::Loading => {
                let mut r = Vec::new();
                r.push("email: loading...".to_owned());
                r.push("plan_type: loading...".to_owned());
                r.push("5h ... reset in ...".to_owned());
                r.push("7d ... reset in ...".to_owned());
                proof {
                    assert(usage::lines_of(r@) =~= seq![
                        "email: loading..."@,
                        "plan_type: loading..."@,
                        "5h ... reset in ..."@,
                        "7d ... reset in ..."@,
                    ]);
                }
                r
            },
            ApiUsageState::Api(p) => p.detail_lines(),
            ApiUsageState::Unavailable(email) => {
                let mut first = "email: ".to_owned();
                let e = text_or(email, "--");
                first.append(e.as_str());
                let mut r = Vec::new();
                r.push(first);
                r.push("plan_type: --".to_owned());
                r.push("5h --% reset --".to_owned());
                r.push("7d --% reset --".to_owned());
                proof {
                    assert(usage::lines_of(r@) =~= seq![
                        "email: "@ + usage::or_dashes(*email),
                        "plan_type: --"@,
                        "5h --% reset --"@,
                        "7d --% reset --"@,
                    ]);
                }
                r
            },
            ApiUsageState::Loaded(u) => u.detail_lines(),
        }
    }
}

/// Name for the string member `key` of the TOML document `document`, as toml's
/// `from_str::<Value>` then `Value::get` and `Value::as_str` give it: `None` where
/// the text is not TOML, has no such key, or its value is not a string.
pub uninterp spec fn toml_string_member_of(document: Seq<char>, key: Seq<char>) -> Option<Seq<char>>;

/// Reads the string member `key` of a TOML document with toml (`from_str::<Value>`,
/// `Value::get`, `Value::as_str`). Claimed: the result is `toml_string_member_of` of
/// the arguments; what that is is not stated.
#[verifier::external_body]
fn toml_string_member(document: &str, key: &str) -> (r: Option<String>)
    ensures
        usage::opt_chars(r) == toml_string_member_of(document@, key@),
{
    match toml::from_str::<toml::Value>(document) {
        Ok(v) => v.get(key).and_then(toml::Value::as_str).map(str::to_string),
        Err(_) => None,
    }
}

/// A setting of the API-key template, when the template could be read and the
/// setting is a non-blank string.
pub open spec fn template_setting(document: Option<Seq<char>>, key: Seq<char>) -> Option<Seq<char>> {
    match document {
        Some(d) => usage::non_blank(toml_string_member_of(d, key)),
        None => None,
    }
}

/// The view of an optional borrowed string.
pub open spec fn opt_str(o: Option<&str>) -> Option<Seq<char>> {
    match o {
        Some(s) => Some(s@),
        None => None,
    }
}

/// A non-blank string setting of the template text `config` (`None` where the
/// template could not be read).
pub fn toml_string(config: Option<&str>, key: &str) -> (r: Option<String>)
    ensures
        usage::opt_chars(r) == template_setting(opt_str(config), key@),
{
    match config {
        Some(document) => usage::keep_non_blank(toml_string_member(document, key)),
        None => None,
    }
}

/// The API-key profile that the template text `config` describes.
pub fn load_api_profile(config: Option<&str>) -> (r: ApiProfile)
    ensures
        usage::opt_chars(r.model_provider) == template_setting(opt_str(config), "model_provider"@),
        usage::opt_chars(r.model) == template_setting(opt_str(config), "model"@),
        usage::opt_chars(r.auth_method) == template_setting(
            opt_str(config),
            "preferred_auth_method"@,
        ),
{
    ApiProfile {
        model_provider: toml_string(config, "model_provider"),
        model: toml_string(config, "model"),
        auth_method: toml_string(config, "preferred_auth_method"),
    }
}

/// The account an optional reference points to.
pub open spec fn deref_account(o: Option<&ApiAccount>) -> Option<ApiAccount> {
    match o {
        Some(a) => Some(*a),
        None => None,
    }
}

/// The `auth.json` of a profile, where it could be read and parsed.
pub open spec fn deref_auth(o: Option<&AuthJson>) -> Option<AuthJson> {
    match o {
        Some(a) => Some(*a),
        None => None,
    }
}

/// Whether a profile's `auth.json` carries a non-blank API key.
pub open spec fn uses_api_key(auth: Option<AuthJson>) -> bool {
    match auth {
        Some(a) => usage::trimmed_non_blank(usage::opt_chars(a.openai_api_key)) is Some,
        None => false,
    }
}

/// The kind of a profile: a directory named `api` in any letter case, or one whose
/// `auth.json` carries a non-blank `OPENAI_API_KEY`, is an API-key profile.
pub open spec fn kind_of(dir_name: Seq<char>, auth: Option<AuthJson>) -> ApiAccountKind {
    if text::eq_ignoring_ascii_case(dir_name, "api"@) {
        ApiAccountKind::Api
    } else if uses_api_key(auth) {
        ApiAccountKind::Api
    } else {
        ApiAccountKind::Account
    }
}

/// Classifies the profile directory `dir_name`, whose `auth.json` was read as
/// `auth` (`None` where it is absent or could not be read).
pub fn account_kind(dir_name: &str, auth: Option<&AuthJson>) -> (r: ApiAccountKind)
    ensures
        r == kind_of(dir_name@, deref_auth(auth)),
{
    if text::eq_ignore_ascii_case(dir_name, "api") {
        return ApiAccountKind::Api;
    }
    if usage::auth_uses_api_key(auth) {
        return ApiAccountKind::Api;
    }
    ApiAccountKind::Account
}

/// The path of a profile's `auth.json`.
pub fn auth_file_path(profile_dir: &str) -> (r: String)
    ensures
        r@ == text::joined_path(profile_dir@, "auth.json"@),
{
    text::join_path(profile_dir, "auth.json")
}

/// The path of a profile's `auth.json`, where `auth_exists` reports that it exists.
pub fn find_auth_path(profile_dir: &str, auth_exists: bool) -> (r: Option<String>)
    ensures
        auth_exists ==> (r matches Some(p) && p@ == text::joined_path(profile_dir@, "auth.json"@)),
        !auth_exists ==> r is None,
{
    if auth_exists {
        Some(auth_file_path(profile_dir))
    } else {
        None
    }
}

/// One entry of the key directory, as listed: its name, whether it is a
/// directory, whether it holds an `auth.json`, and that file's content where it
/// could be read and parsed.
pub struct ProfileDirEntry {
    pub name: String,
    pub is_dir: bool,
    pub auth_exists: bool,
    pub auth: Option<AuthJson>,
}

/// Whether a listed entry is a profile: a directory other than `.git`.
pub open spec fn is_profile_entry(e: ProfileDirEntry) -> bool {
    e.is_dir && e.name@ != ".git"@
}

/// The `auth.json` an entry's classification reads.
pub open spec fn entry_auth(e: ProfileDirEntry) -> Option<AuthJson> {
    if e.auth_exists {
        e.auth
    } else {
        None
    }
}

/// Whether `a` is the account built from the profile entry `e`.
pub open spec fn account_built(key_dir: Seq<char>, e: ProfileDirEntry, p: ApiProfile, a: ApiAccount) -> bool {
    let dir = text::joined_path(key_dir, e.name@);
    let kind = kind_of(e.name@, entry_auth(e));
    &&& a.name@ == e.name@
    &&& a.profile_dir@ == dir
    &&& usage::opt_chars(a.auth_path) == if e.auth_exists {
        Some(text::joined_path(dir, "auth.json"@))
    } else {
        None
    }
    &&& a.kind == kind
    &&& a.usage == if kind == ApiAccountKind::Account {
        ApiUsageState::Loading
    } else {
        ApiUsageState::Api(p)
    }
}

/// Whether `out` is the accounts built, in order, from the profile entries of `es`.
pub open spec fn accounts_built(
    key_dir: Seq<char>,
    es: Seq<ProfileDirEntry>,
    p: ApiProfile,
    out: Seq<ApiAccount>,
) -> bool
    decreases es.len(),
{
    if es.len() == 0 {
        out.len() == 0
    } else if is_profile_entry(es.last()) {
        &&& out.len() > 0
        &&& account_built(key_dir, es.last(), p, out.last())
        &&& accounts_built(key_dir, es.drop_last(), p, out.drop_last())
    } else {
        accounts_built(key_dir, es.drop_last(), p, out)
    }
}

/// The accounts of the key directory `key_dir`, from its listed entries: one per
/// profile directory, in listing order, with usage loading for accounts and the
/// template `api_profile` for API-key profiles.
pub fn collect_accounts(key_dir: &str, entries: &Vec<ProfileDirEntry>, api_profile: &ApiProfile) -> (r: Vec<
    ApiAccount,
>)
    ensures
        accounts_built(key_dir@, entries@, *api_profile, r@),
{
    let mut out: Vec<ApiAccount> = Vec::new();
    let n = entries.len();
    let mut i: usize = 0;
    while i < n
        invariant
            n == entries@.len(),
            i <= n,
            accounts_built(key_dir@, entries@.take(i as int), *api_profile, out@),
        decreases n - i,
    {
        let e = &entries[i];
        proof {
            assert(entries@.take(i + 1).drop_last() =~= entries@.take(i as int));
            assert(entries@.take(i + 1).last() == entries@[i as int]);
        }
        if e.is_dir && !text::str_equal(e.name.as_str(), ".git") {
            let profile_dir = text::join_path(key_dir, e.name.as_str());
            let auth_path = find_auth_path(profile_dir.as_str(), e.auth_exists);
            let auth = if e.auth_exists {
                e.auth.as_ref()
            } else {
                None
            };
            let kind = account_kind(e.name.as_str(), auth);
            let usage = match kind {
                ApiAccountKind::Account => ApiUsageState::Loading,
                ApiAccountKind::Api => ApiUsageState::Api(api_profile.clone()),
            };
            let account = ApiAccount {
                name: e.name.clone(),
                profile_dir,
                auth_path,
                kind,
                usage,
            };
            let ghost before = out@;
            out.push(account);
            proof {
                assert(out@.drop_last() =~= before);
            }
        }
        i = i + 1;
    }
    proof {
        assert(entries@.take(n as int) =~= entries@);
    }
    out
}

/// The copies a switch to a profile makes.
pub struct ProfileSwitch {
    pub auth_source: String,
    pub auth_target: String,
    pub config_source: String,
    pub config_target: String,
}

/// Why a switch cannot be made.
pub enum SwitchError {
    /// The profile has no `auth.json`.
    MissingAuth { name: String, profile_dir: String },
    /// The configuration template for the profile's kind does not exist; it holds its path.
    MissingTemplate(String),
}

/// The message of a switch error.
pub open spec fn switch_error_text(e: SwitchError) -> Seq<char> {
    match e {
        SwitchError::MissingAuth { name, profile_dir } => name@ + " 缺少 auth.json: "@ + profile_dir@,
        SwitchError::MissingTemplate(path) => "缺少默认配置模板: "@ + path@,
    }
}

impl SwitchError {
    /// The message shown for the error.
    pub fn message(&self) -> (r: String)
        ensures
            r@ == switch_error_text(*self),
    {
        match self {
            SwitchError::MissingAuth { name, profile_dir } => {
                let mut r = name.clone();
                r.append(" 缺少 auth.json: ");
                r.append(profile_dir.as_str());
                r
            },
            SwitchError::MissingTemplate(path) => {
                let mut r = "缺少默认配置模板: ".to_owned();
                r.append(path.as_str());
                r
            },
        }
    }
}

/// The template a profile of kind `kind` switches Codex's configuration to.
pub open spec fn template_name(kind: ApiAccountKind) -> Seq<char> {
    match kind {
        ApiAccountKind::Account => ".account-config.toml"@,
        ApiAccountKind::Api => ".api-config.toml"@,
    }
}

/// The copies that switch Codex, configured in `target_dir`, to `account` of the
/// key directory `key_dir`: its `auth.json`, and the template for its kind as
/// `config.toml`. An account without `auth.json` cannot be switched to.
pub fn plan_profile_switch(key_dir: &str, target_dir: &str, account: &ApiAccount) -> (r: Result<
    ProfileSwitch,
    SwitchError,
>)
    ensures
        account.auth_path is None ==> (r matches Err(SwitchError::MissingAuth { name, profile_dir })
            && name == account.name && profile_dir == account.profile_dir),
        account.auth_path matches Some(auth) ==> (r matches Ok(plan) && plan.auth_source == auth
            && plan.auth_target@ == text::joined_path(target_dir@, "auth.json"@)
            && plan.config_source@ == text::joined_path(key_dir@, template_name(account.kind))
            && plan.config_target@ == text::joined_path(target_dir@, "config.toml"@)),
{
    let auth_source = match &account.auth_path {
        Some(p) => p.clone(),
        None => {
            return Err(
                SwitchError::MissingAuth {
                    name: account.name.clone(),
                    profile_dir: account.profile_dir.clone(),
                },
            );
        },
    };
    let config_source = match account.kind {
        ApiAccountKind::Account => text::join_path(key_dir, ".account-config.toml"),
        ApiAccountKind::Api => text::join_path(key_dir, ".api-config.toml"),
    };
    Ok(
        ProfileSwitch {
            auth_source,
            auth_target: text::join_path(target_dir, "auth.json"),
            config_source,
            config_target: text::join_path(target_dir, "config.toml"),
        },
    )
}

/// Whether two optional values are both present and equal.
pub open spec fn both_equal(a: Option<Seq<char>>, b: Option<Seq<char>>) -> bool {
    a is Some && b is Some && a == b
}

/// The trimmed, non-blank account id of an optional `auth.json`.
pub open spec fn account_id_of(auth: Option<AuthJson>) -> Option<Seq<char>> {
    match auth {
        Some(a) => usage::trimmed_non_blank(usage::auth_account_id_field(a)),
        None => None,
    }
}

/// The trimmed, non-blank API key of an optional `auth.json`.
pub open spec fn api_key_of(auth: Option<AuthJson>) -> Option<Seq<char>> {
    match auth {
        Some(a) => usage::trimmed_non_blank(usage::opt_chars(a.openai_api_key)),
        None => None,
    }
}

/// Whether the active `auth.json` is that of `account`, whose own `auth.json` was
/// read as `profile`: accounts by account id, API-key profiles by key.
pub open spec fn auth_matches(active: Option<AuthJson>, account: ApiAccount, profile: Option<AuthJson>) -> bool {
    &&& account.auth_path is Some
    &&& match account.kind {
        ApiAccountKind::Account => both_equal(account_id_of(active), account_id_of(profile)),
        ApiAccountKind::Api => both_equal(api_key_of(active), api_key_of(profile)),
    }
}

fn both_present_and_equal(a: Option<String>, b: Option<String>) -> (r: bool)
    ensures
        r == both_equal(usage::opt_chars(a), usage::opt_chars(b)),
{
    match (a, b) {
        (Some(x), Some(y)) => text::str_equal(x.as_str(), y.as_str()),
        _ => false,
    }
}

/// Whether the active `auth.json` (read as `active`) is that of `account`, whose
/// own `auth.json` was read as `profile_auth`.
pub fn auth_matches_account(
    active: Option<&AuthJson>,
    account: &ApiAccount,
    profile_auth: Option<&AuthJson>,
) -> (r: bool)
    ensures
        r == auth_matches(deref_auth(active), *account, deref_auth(profile_auth)),
{
    if account.auth_path.is_none() {
        return false;
    }
    match account.kind {
        ApiAccountKind::Account => both_present_and_equal(
            usage::auth_account_id(active),
            usage::auth_account_id(profile_auth),
        ),
        ApiAccountKind::Api => both_present_and_equal(
            usage::auth_api_key(active),
            usage::auth_api_key(profile_auth),
        ),
    }
}

/// The `auth.json` read for the account at index `i` (none beyond the list).
pub open spec fn auth_at(auths: Seq<Option<AuthJson>>, i: int) -> Option<AuthJson> {
    if 0 <= i < auths.len() {
        auths[i]
    } else {
        None
    }
}

/// Whether the account at index `i` is the active one.
pub open spec fn active_at(
    active: Option<AuthJson>,
    accounts: Seq<ApiAccount>,
    auths: Seq<Option<AuthJson>>,
    i: int,
) -> bool {
    auth_matches(active, accounts[i], auth_at(auths, i))
}

/// The name of the profile in use: the first account whose `auth.json` matches the
/// active one. `profile_auths[i]` is the `auth.json` of `accounts[i]` as read.
pub fn active_profile_name(
    active: Option<&AuthJson>,
    accounts: &Vec<ApiAccount>,
    profile_auths: &Vec<Option<AuthJson>>,
) -> (r: Option<String>)
    ensures
        r is None <==> forall|i: int|
            0 <= i < accounts@.len() ==> !active_at(deref_auth(active), accounts@, profile_auths@, i),
        r matches Some(name) ==> exists|i: int|
            0 <= i < accounts@.len() && active_at(deref_auth(active), accounts@, profile_auths@, i)
                && name == accounts@[i].name && forall|j: int|
                0 <= j < i ==> !active_at(deref_auth(active), accounts@, profile_auths@, j),
{
    let n = accounts.len();
    let mut i: usize = 0;
    while i < n
        invariant
            n == accounts@.len(),
            i <= n,
            forall|j: int|
                0 <= j < i ==> !active_at(deref_auth(active), accounts@, profile_auths@, j),
        decreases n - i,
    {
        let profile_auth = if i < profile_auths.len() {
            profile_auths[i].as_ref()
        } else {
            None
        };
        proof {
            assert(deref_auth(profile_auth) == auth_at(profile_auths@, i as int));
        }
        if auth_matches_account(active, &accounts[i], profile_auth) {
            assert(active_at(deref_auth(active), accounts@, profile_auths@, i as int));
            return Some(accounts[i].name.clone());
        }
        i = i + 1;
    }
    None
}

/// The usage state an update sets.
pub open spec fn state_of_update(update: usage::ApiUsageUpdate) -> ApiUsageState {
    match update.usage {
        Some(u) => ApiUsageState::Loaded(u),
        None => ApiUsageState::Unavailable(update.email),
    }
}

/// The usage state an update sets: its usage, else unavailable with its email.
pub fn usage_state_from_update(update: usage::ApiUsageUpdate) -> (r: ApiUsageState)
    ensures
        r == state_of_update(update),
{
    match update.usage {
        Some(u) => ApiUsageState::Loaded(u),
        None => ApiUsageState::Unavailable(update.email),
    }
}

/// Whether `accounts[i]` is the first account named `name`.
pub open spec fn first_named(accounts: Seq<ApiAccount>, name: Seq<char>, i: int) -> bool {
    &&& 0 <= i < accounts.len()
    &&& accounts[i].name@ == name
    &&& forall|j: int| 0 <= j < i ==> accounts[j].name@ != name
}

/// Whether `after` is `before` with the usage of its account at `i` set to `state`.
pub open spec fn usage_replaced(
    before: Seq<ApiAccount>,
    after: Seq<ApiAccount>,
    i: int,
    state: ApiUsageState,
) -> bool {
    &&& after.len() == before.len()
    &&& forall|j: int| 0 <= j < before.len() && j != i ==> after[j] == before[j]
    &&& after[i].name == before[i].name
    &&& after[i].profile_dir == before[i].profile_dir
    &&& after[i].auth_path == before[i].auth_path
    &&& after[i].kind == before[i].kind
    &&& after[i].usage == state
}

/// Records a fetched usage on the first account of its name. Returns whether an
/// account of that name exists; where none does, nothing changes.
pub fn apply_usage_update(accounts: &mut Vec<ApiAccount>, update: usage::ApiUsageUpdate) -> (r: bool)
    ensures
        r <==> exists|i: int| first_named(old(accounts)@, update.account_name@, i),
        !r ==> final(accounts)@ == old(accounts)@,
        forall|i: int|
            first_named(old(accounts)@, update.account_name@, i) ==> usage_replaced(
                old(accounts)@,
                final(accounts)@,
                i,
                state_of_update(update),
            ),
{
    let n = accounts.len();
    let mut i: usize = 0;
    while i < n
        invariant
            n == accounts@.len(),
            accounts@ == old(accounts)@,
            i <= n,
            forall|j: int| 0 <= j < i ==> accounts@[j].name@ != update.account_name@,
        decreases n - i,
    {
        if text::str_equal(accounts[i].name.as_str(), update.account_name.as_str()) {
            let ghost before = accounts@;
            let ghost name = update.account_name@;
            let ghost upd = update;
            let state = usage_state_from_update(update);
            let mut account = accounts.remove(i);
            account.usage = state;
            accounts.insert(i, account);
            proof {
                assert(first_named(before, name, i as int));
                assert forall|k: int| first_named(before, name, k) implies k == i by {
                    if k < i {
                    } else if k > i {
                        assert(before[i as int].name@ == name);
                    }
                }
                assert(usage_replaced(before, accounts@, i as int, state_of_update(upd)));
            }
            return true;
        }
        i = i + 1;
    }
    false
}

/// The rank of an account's colour class.
pub open spec fn account_rank(a: ApiAccount) -> u8 {
    tone_rank(tone_of(a.usage))
}

/// Whether `a` is listed before `b`: green, then orange, white and red; within a
/// colour, more primary quota left first, then more secondary quota left, then by
/// name.
pub open spec fn precedes(a: ApiAccount, b: ApiAccount) -> bool {
    let (ra, rb) = (account_rank(a), account_rank(b));
    let (pa, pb) = (primary_score(a.usage), primary_score(b.usage));
    let (sa, sb) = (secondary_score(a.usage), secondary_score(b.usage));
    ||| ra > rb
    ||| ra == rb && pa > pb
    ||| ra == rb && pa == pb && sa > sb
    ||| ra == rb && pa == pb && sa == sb && text::chars_less(a.name@, b.name@)
}

/// Whether `a` and `b` have the same place in the order.
pub open spec fn same_place(a: ApiAccount, b: ApiAccount) -> bool {
    &&& account_rank(a) == account_rank(b)
    &&& primary_score(a.usage) == primary_score(b.usage)
    &&& secondary_score(a.usage) == secondary_score(b.usage)
    &&& a.name@ == b.name@
}

/// Whether no account of `s` is listed after one it precedes.
pub open spec fn sorted_accounts(s: Seq<ApiAccount>) -> bool {
    forall|i: int, j: int| 0 <= i < j < s.len() ==> !precedes(#[trigger] s[j], #[trigger] s[i])
}

/// Whether `out` is `orig` stably sorted, `perm` giving for each position of `out`
/// the position in `orig` its account came from.
pub open spec fn stable_sort_of(orig: Seq<ApiAccount>, out: Seq<ApiAccount>, perm: Seq<int>) -> bool {
    &&& out.len() == orig.len()
    &&& perm.len() == out.len()
    &&& forall|k: int| 0 <= k < out.len() ==> 0 <= #[trigger] perm[k] < orig.len()
    &&& forall|k: int| 0 <= k < out.len() ==> #[trigger] out[k] == orig[perm[k]]
    &&& forall|k: int, l: int| 0 <= k < l < out.len() ==> #[trigger] perm[k] != #[trigger] perm[l]
    &&& sorted_accounts(out)
    &&& forall|k: int, l: int|
        0 <= k < l < out.len() && same_place(#[trigger] out[k], #[trigger] out[l]) ==> perm[k]
            < perm[l]
}

/// The order never lists an account before itself, nor two accounts each before
/// the other.
pub proof fn lemma_precedes_asymmetric(a: ApiAccount, b: ApiAccount)
    ensures
        precedes(a, b) ==> !precedes(b, a),
{
    text::lemma_chars_less_asym(a.name@, b.name@);
}

/// The order is transitive.
pub proof fn lemma_precedes_transitive(a: ApiAccount, b: ApiAccount, c: ApiAccount)
    requires
        precedes(a, b),
        precedes(b, c),
    ensures
        precedes(a, c),
{
    if account_rank(a) == account_rank(b) && account_rank(b) == account_rank(c)
        && primary_score(a.usage) == primary_score(b.usage) && primary_score(b.usage)
        == primary_score(c.usage) && secondary_score(a.usage) == secondary_score(b.usage)
        && secondary_score(b.usage) == secondary_score(c.usage) {
        text::lemma_chars_less_trans(a.name@, b.name@, c.name@);
    }
}

/// Accounts that neither precede the other have the same place.
pub proof fn lemma_unordered_same_place(a: ApiAccount, b: ApiAccount)
    requires
        !precedes(a, b),
        !precedes(b, a),
    ensures
        same_place(a, b),
{
    if a.name@ != b.name@ {
        text::lemma_chars_less_total(a.name@, b.name@);
    }
}

/// Whether `a` is listed before `b`.
pub fn account_precedes(a: &ApiAccount, b: &ApiAccount) -> (r: bool)
    ensures
        r == precedes(*a, *b),
{
    let ra = a.usage_sort_rank();
    let rb = b.usage_sort_rank();
    if ra != rb {
        return ra > rb;
    }
    let pa = a.usage_sort_score();
    let pb = b.usage_sort_score();
    if pa != pb {
        return pa > pb;
    }
    let sa = a.usage_secondary_sort_score();
    let sb = b.usage_secondary_sort_score();
    if sa != sb {
        return sa > sb;
    }
    text::str_less(a.name.as_str(), b.name.as_str())
}

fn insertion_point(out: &Vec<ApiAccount>, x: &ApiAccount) -> (p: usize)
    ensures
        p <= out@.len(),
        forall|i: int| 0 <= i < p ==> !precedes(*x, #[trigger] out@[i]),
        p < out@.len() ==> precedes(*x, out@[p as int]),
{
    let n = out.len();
    let mut i: usize = 0;
    while i < n && !account_precedes(x, &out[i])
        invariant
            n == out@.len(),
            i <= n,
            forall|k: int| 0 <= k < i ==> !precedes(*x, #[trigger] out@[k]),
        decreases n - i,
    {
        i = i + 1;
    }
    i
}

proof fn lemma_insert_keeps_order(
    out: Seq<ApiAccount>,
    perm: Seq<int>,
    orig: Seq<ApiAccount>,
    x: ApiAccount,
    p: int,
    c: int,
)
    requires
        0 <= p <= out.len(),
        c == out.len(),
        c < orig.len(),
        orig[c] == x,
        perm.len() == out.len(),
        forall|k: int| 0 <= k < out.len() ==> 0 <= #[trigger] perm[k] < c,
        forall|k: int| 0 <= k < out.len() ==> #[trigger] out[k] == orig[perm[k]],
        forall|k: int, l: int| 0 <= k < l < out.len() ==> #[trigger] perm[k] != #[trigger] perm[l],
        sorted_accounts(out),
        forall|k: int, l: int|
            0 <= k < l < out.len() && same_place(#[trigger] out[k], #[trigger] out[l]) ==> perm[k]
                < perm[l],
        forall|i: int| 0 <= i < p ==> !precedes(x, #[trigger] out[i]),
        p < out.len() ==> precedes(x, out[p]),
    ensures
        ({
            let out2 = out.insert(p, x);
            let perm2 = perm.insert(p, c);
            &&& perm2.len() == out2.len()
            &&& forall|k: int| 0 <= k < out2.len() ==> 0 <= #[trigger] perm2[k] < c + 1
            &&& forall|k: int| 0 <= k < out2.len() ==> #[trigger] out2[k] == orig[perm2[k]]
            &&& forall|k: int, l: int|
                0 <= k < l < out2.len() ==> #[trigger] perm2[k] != #[trigger] perm2[l]
            &&& sorted_accounts(out2)
            &&& forall|k: int, l: int|
                0 <= k < l < out2.len() && same_place(#[trigger] out2[k], #[trigger] out2[l])
                    ==> perm2[k] < perm2[l]
        }),
{
    let out2 = out.insert(p, x);
    let perm2 = perm.insert(p, c);
    out.insert_ensures(p, x);
    perm.insert_ensures(p, c);
    assert forall|k: int| 0 <= k < out2.len() implies 0 <= #[trigger] perm2[k] < c + 1
        && out2[k] == orig[perm2[k]] by {
        if k < p {
        } else if k > p {
            assert(out2[k] == out[k - 1]);
            assert(perm2[k] == perm[k - 1]);
        }
    }
    assert forall|k: int, l: int| 0 <= k < l < out2.len() implies #[trigger] perm2[k]
        != #[trigger] perm2[l] by {
        if k > p {
            assert(perm2[k] == perm[k - 1]);
            assert(perm2[l] == perm[l - 1]);
        } else if k == p {
            assert(perm2[l] == perm[l - 1]);
        } else if l > p {
            assert(perm2[l] == perm[l - 1]);
        }
    }
    assert forall|k: int, l: int| 0 <= k < l < out2.len() implies !precedes(
        #[trigger] out2[l],
        #[trigger] out2[k],
    ) && (same_place(out2[k], out2[l]) ==> perm2[k] < perm2[l]) by {
        if l < p {
        } else if l == p {
            assert(!precedes(x, out[k]));
        } else if k < p {
            assert(out2[l] == out[l - 1]);
            assert(perm2[l] == perm[l - 1]);
        } else if k == p {
            let y = out[l - 1];
            assert(out2[l] == y);
            assert(precedes(x, out[p]));
            lemma_precedes_asymmetric(x, out[p]);
            if l - 1 > p {
                assert(!precedes(out[l - 1], out[p]));
            }
            if precedes(y, x) {
                lemma_precedes_transitive(y, x, out[p]);
                lemma_precedes_asymmetric(out[p], out[p]);
            }
            if same_place(x, y) {
                // `y` would be placed exactly as `x`, so it would precede out[p].
                assert(precedes(y, out[p]));
                lemma_precedes_asymmetric(out[p], out[p]);
            }
        } else {
            assert(out2[k] == out[k - 1]);
            assert(out2[l] == out[l - 1]);
            assert(perm2[k] == perm[k - 1]);
            assert(perm2[l] == perm[l - 1]);
        }
    }
}

/// Puts the accounts in list order: green, then orange, white and red; within a
/// colour, more primary quota left first, then more secondary quota left, then by
/// name; accounts of the same place keep their relative order.
pub fn sort_accounts(accounts: &mut Vec<ApiAccount>)
    ensures
        final(accounts)@.to_multiset() == old(accounts)@.to_multiset(),
        sorted_accounts(final(accounts)@),
        exists|perm: Seq<int>| stable_sort_of(old(accounts)@, final(accounts)@, perm),
{
    broadcast use vstd::seq_lib::group_to_multiset_ensures, vstd::multiset::group_multiset_axioms;

    let ghost orig = accounts@;
    let mut rest: Vec<ApiAccount> = Vec::new();
    std::mem::swap(&mut rest, accounts);
    let mut out: Vec<ApiAccount> = Vec::new();
    let ghost mut perm: Seq<int> = Seq::empty();
    proof {
        assert(orig.skip(0) =~= orig);
        assert(out@.to_multiset().add(rest@.to_multiset()) =~= orig.to_multiset());
    }
    while rest.len() > 0
        invariant
            rest@ == orig.skip(out@.len() as int),
            out@.len() <= orig.len(),
            out@.to_multiset().add(rest@.to_multiset()) == orig.to_multiset(),
            perm.len() == out@.len(),
            forall|k: int| 0 <= k < out@.len() ==> 0 <= #[trigger] perm[k] < out@.len(),
            forall|k: int| 0 <= k < out@.len() ==> #[trigger] out@[k] == orig[perm[k]],
            forall|k: int, l: int|
                0 <= k < l < out@.len() ==> #[trigger] perm[k] != #[trigger] perm[l],
            sorted_accounts(out@),
            forall|k: int, l: int|
                0 <= k < l < out@.len() && same_place(#[trigger] out@[k], #[trigger] out@[l])
                    ==> perm[k] < perm[l],
        decreases rest.len(),
    {
        let ghost rest_before = rest@;
        let ghost out_before = out@;
        let ghost c = out@.len() as int;
        let x = rest.remove(0);
        let p = insertion_point(&out, &x);
        proof {
            assert(orig[c] == x);
            lemma_insert_keeps_order(out_before, perm, orig, x, p as int, c);
        }
        out.insert(p, x);
        proof {
            perm = perm.insert(p as int, c);
            assert(rest@ =~= orig.skip(out@.len() as int));
            assert(rest_before.remove(0) == rest@);
            assert(out@.remove(p as int) =~= out_before);
            assert(out@[p as int] == x);
            assert(rest_before[0] == x);
            rest_before.to_multiset_ensures();
            out@.to_multiset_ensures();
            assert(rest_before.remove(0).to_multiset() =~= rest_before.to_multiset().remove(x));
            assert(out@.remove(p as int).to_multiset() =~= out@.to_multiset().remove(x));
            assert(out@.contains(x));
            assert(rest_before.contains(x));
            assert(out@.to_multiset().count(x) > 0);
            assert(rest_before.to_multiset().count(x) > 0);
            assert(out@.to_multiset().add(rest@.to_multiset()) =~= orig.to_multiset());
        }
    }
    proof {
        assert(stable_sort_of(orig, out@, perm));
    }
    *accounts = out;
}

/// The number of accounts of `s` whose usage is fetched.
pub open spec fn fetch_count(s: Seq<ApiAccount>) -> nat
    decreases s.len(),
{
    if s.len() == 0 {
        0
    } else {
        fetch_count(s.drop_last()) + if s.last().kind == ApiAccountKind::Account {
            1nat
        } else {
            0nat
        }
    }
}

proof fn lemma_fetch_count_bound(s: Seq<ApiAccount>)
    ensures
        fetch_count(s) <= s.len(),
    decreases s.len(),
{
    if s.len() > 0 {
        lemma_fetch_count_bound(s.drop_last());
    }
}

/// How many usage fetches the accounts need: one per ordinary account.
pub fn usage_task_count(accounts: &Vec<ApiAccount>) -> (r: usize)
    ensures
        r == fetch_count(accounts@),
{
    let n = accounts.len();
    let mut count: usize = 0;
    let mut i: usize = 0;
    while i < n
        invariant
            n == accounts@.len(),
            i <= n,
            count == fetch_count(accounts@.take(i as int)),
        decreases n - i,
    {
        proof {
            assert(accounts@.take(i + 1).drop_last() =~= accounts@.take(i as int));
            lemma_fetch_count_bound(accounts@.take(i as int));
        }
        if accounts[i].needs_usage_fetch() {
            count = count + 1;
        }
        i = i + 1;
    }
    proof {
        assert(accounts@.take(n as int) =~= accounts@);
    }
    count
}

/// Why `auto` cannot switch.
pub enum AutoError {
    /// The key directory holds no profile.
    NoAccounts,
    /// No account's usage could be fetched; API-key profiles take no part.
    NoCandidate,
}

/// The message of an `auto` error.
pub open spec fn auto_error_text(e: AutoError) -> Seq<char> {
    match e {
        AutoError::NoAccounts => "没有可用账号"@,
        AutoError::NoCandidate => "没有可自动切换的账号（API profile 不参与 auto）"@,
    }
}

impl AutoError {
    /// The message shown for the error.
    pub fn message(&self) -> (r: String)
        ensures
            r@ == auto_error_text(*self),
    {
        match self {
            AutoError::NoAccounts => "没有可用账号".to_owned(),
            AutoError::NoCandidate => "没有可自动切换的账号（API profile 不参与 auto）".to_owned(),
        }
    }
}

/// The account `auto` switches to: the first, in list order, whose usage was fetched.
pub fn choose_auto_account(accounts: &Vec<ApiAccount>) -> (r: Result<usize, AutoError>)
    ensures
        accounts@.len() == 0 ==> r matches Err(AutoError::NoAccounts),
        accounts@.len() > 0 && (forall|i: int|
            0 <= i < accounts@.len() ==> !(#[trigger] accounts@[i].usage is Loaded)) ==> r matches Err(
            AutoError::NoCandidate,
        ),
        r matches Ok(i) ==> i < accounts@.len() && accounts@[i as int].usage is Loaded && forall|j: int|
            0 <= j < i ==> !(#[trigger] accounts@[j].usage is Loaded),
        r is Ok || (accounts@.len() == 0 || forall|i: int|
            0 <= i < accounts@.len() ==> !(#[trigger] accounts@[i].usage is Loaded)),
{
    let n = accounts.len();
    if n == 0 {
        return Err(AutoError::NoAccounts);
    }
    let mut i: usize = 0;
    while i < n
        invariant
            n == accounts@.len(),
            i <= n,
            forall|j: int| 0 <= j < i ==> !(#[trigger] accounts@[j].usage is Loaded),
        decreases n - i,
    {
        if let ApiUsageState::Loaded(_) = &accounts[i].usage {
            return Ok(i);
        }
        i = i + 1;
    }
    Err(AutoError::NoCandidate)
}

/// The line `ping` prints for an account whose usage could not be fetched: its
/// email, else its name and directory. Other accounts print nothing.
pub open spec fn ping_line(a: ApiAccount) -> Option<Seq<char>> {
    if a.kind == ApiAccountKind::Account {
        match a.usage {
            ApiUsageState::Unavailable(email) => match email {
                Some(e) => Some(e@),
                None => Some(a.name@ + seq![' '] + a.profile_dir@),
            },
            _ => None,
        }
    } else {
        None
    }
}

/// The failure lines of `s`, in order.
pub open spec fn ping_failures(s: Seq<ApiAccount>) -> Seq<Seq<char>>
    decreases s.len(),
{
    if s.len() == 0 {
        Seq::empty()
    } else {
        match ping_line(s.last()) {
            Some(l) => ping_failures(s.drop_last()).push(l),
            None => ping_failures(s.drop_last()),
        }
    }
}

/// What `ping` prints once every account's usage fetch has ended: a line per
/// account whose usage could not be fetched, or `all accounts ok`.
pub fn ping_report(accounts: &Vec<ApiAccount>) -> (r: Vec<String>)
    ensures
        usage::lines_of(r@) == if ping_failures(accounts@).len() == 0 {
            seq!["all accounts ok"@]
        } else {
            ping_failures(accounts@)
        },
{
    let n = accounts.len();
    let mut lines: Vec<String> = Vec::new();
    let mut i: usize = 0;
    while i < n
        invariant
            n == accounts@.len(),
            i <= n,
            usage::lines_of(lines@) == ping_failures(accounts@.take(i as int)),
        decreases n - i,
    {
        proof {
            assert(accounts@.take(i + 1).drop_last() =~= accounts@.take(i as int));
        }
        let a = &accounts[i];
        let ghost before = lines@;
        assert(accounts@.take(i + 1).last() == *a);
        if a.kind == ApiAccountKind::Account {
            if let ApiUsageState::Unavailable(email) = &a.usage {
                let line = match email {
                    Some(e) => e.clone(),
                    None => {
                        let mut l = a.name.clone();
                        text::push_char(&mut l, ' ');
                        l.append(a.profile_dir.as_str());
                        assert(l@ =~= a.name@ + seq![' '] + a.profile_dir@);
                        l
                    },
                };
                lines.push(line);
                proof {
                    assert(usage::lines_of(lines@) =~= usage::lines_of(before).push(lines@.last()@));
                }
            }
        }
        i = i + 1;
    }
    proof {
        assert(accounts@.take(n as int) =~= accounts@);
    }
    if lines.len() == 0 {
        let mut ok = Vec::new();
        ok.push("all accounts ok".to_owned());
        proof {
            assert(usage::lines_of(ok@) =~= seq!["all accounts ok"@]);
        }
        ok
    } else {
        lines
    }
}

/// In a sorted list, the account `auto` picks, the first whose usage was fetched,
/// is preceded by no other account whose usage was fetched.
pub proof fn lemma_auto_choice_is_first_in_order(accounts: Seq<ApiAccount>, i: int)
    requires
        sorted_accounts(accounts),
        0 <= i < accounts.len(),
        accounts[i].usage is Loaded,
        forall|j: int| 0 <= j < i ==> !(#[trigger] accounts[j].usage is Loaded),
    ensures
        forall|j: int|
            0 <= j < accounts.len() && (#[trigger] accounts[j].usage is Loaded) ==> !precedes(
                accounts[j],
                accounts[i],
            ),
{
    assert forall|j: int|
        0 <= j < accounts.len() && (#[trigger] accounts[j].usage is Loaded) implies !precedes(
        accounts[j],
        accounts[i],
    ) by {
        if j > i {
            assert(!precedes(accounts[j], accounts[i]));
        } else if j == i {
            lemma_precedes_asymmetric(accounts[i], accounts[i]);
        }
    }
}

/// A green account precedes every account that is not green.
pub proof fn lemma_green_before_others(a: ApiAccount, b: ApiAccount)
    requires
        tone_of(a.usage) == ApiUsageTone::Success,
        tone_of(b.usage) != ApiUsageTone::Success,
    ensures
        precedes(a, b),
{
}

/// For a fetched usage whose known percentages are finite and not negative (bit
/// patterns below that of infinity), the colour is orange exactly when some known
/// window has less than one percent left (bits below those of `1.0`), whichever
/// window it is; green exactly when both windows are known and have at least one
/// percent left; red otherwise.
pub proof fn lemma_tone_of_fetched_usage(u: usage::ApiUsage)
    requires
        u.primary_remaining matches Some(p) ==> p.bits < 0x7FF0_0000_0000_0000,
        u.secondary_remaining matches Some(p) ==> p.bits < 0x7FF0_0000_0000_0000,
    ensures
        tone_of(ApiUsageState::Loaded(u)) == ApiUsageTone::Warning <==> (
        (u.primary_remaining matches Some(p) && p.bits < 0x3FF0_0000_0000_0000) || (
        u.secondary_remaining matches Some(q) && q.bits < 0x3FF0_0000_0000_0000)),
        tone_of(ApiUsageState::Loaded(u)) == ApiUsageTone::Success <==> (
        u.primary_remaining matches Some(p) && p.bits >= 0x3FF0_0000_0000_0000 && (
        u.secondary_remaining matches Some(q) && q.bits >= 0x3FF0_0000_0000_0000)),
        tone_of(ApiUsageState::Loaded(u)) != ApiUsageTone::Default,
{
}

/// A fetched usage with a window below one percent never ranks with the green
/// accounts: every green account precedes it.
pub proof fn lemma_exhausted_window_ranks_below_green(
    green: ApiAccount,
    other: ApiAccount,
    u: usage::ApiUsage,
)
    requires
        tone_of(green.usage) == ApiUsageTone::Success,
        other.usage == ApiUsageState::Loaded(u),
        (u.primary_remaining matches Some(p) && p.bits < 0x3FF0_0000_0000_0000) || (
        u.secondary_remaining matches Some(q) && q.bits < 0x3FF0_0000_0000_0000),
    ensures
        precedes(green, other),
{
}

} // verus!
