//! The tool's own configuration: where Codex reads its configuration, and
//! where the profiles are kept.

use vstd::prelude::*;
use crate::text;

verus! {

/// `~/.config/codexswitch/config.toml`.
pub struct Config {
    /// The directory Codex reads `auth.json` and `config.toml` from.
    pub codex_config_dir: String,
    /// The directory that holds one subdirectory per profile.
    pub key_dir: String,
}

impl Config {
    /// A configuration with both directories unset.
    pub fn new() -> (r: Self)
        ensures
            r.codex_config_dir@.len() == 0,
            r.key_dir@.len() == 0,
    {
        Config { codex_config_dir: String::new(), key_dir: String::new() }
    }
}

/// Why a configured directory cannot be used.
pub enum ConfigError {
    /// The setting is blank; it holds the setting's name.
    Unset(String),
    /// Nothing exists at the path.
    Missing { field: String, path: String },
    /// The path is not a directory.
    NotDir { field: String, path: String },
}

/// The message of a configuration error.
pub open spec fn config_error_text(e: ConfigError) -> Seq<char> {
    match e {
        ConfigError::Unset(field) => field@ + " 未配置，请编辑 ~/.config/codexswitch/config.toml"@,
        ConfigError::Missing { field, path } => field@ + " 不存在: "@ + path@,
        ConfigError::NotDir { field, path } => field@ + " 不是目录: "@ + path@,
    }
}

impl ConfigError {
    /// The message shown for the error.
    pub fn message(&self) -> (r: String)
        ensures
            r@ == config_error_text(*self),
    {
        match self {
            ConfigError::Unset(field) => {
                let mut r = field.clone();
                r.append(" 未配置，请编辑 ~/.config/codexswitch/config.toml");
                r
            },
            ConfigError::Missing { field, path } => {
                let mut r = field.clone();
                r.append(" 不存在: ");
                r.append(path.as_str());
                r
            },
            ConfigError::NotDir { field, path } => {
                let mut r = field.clone();
                r.append(" 不是目录: ");
                r.append(path.as_str());
                r
            },
        }
    }
}

/// The directory a setting names, checked. `exists` and `is_dir` report what is
/// found at the trimmed value's path; they matter only where the value is not blank.
pub fn configured_dir(value: &str, field_name: &str, exists: bool, is_dir: bool) -> (r: Result<
    String,
    ConfigError,
>)
    ensures
        text::blank(value@) ==> (r matches Err(ConfigError::Unset(f)) && f@ == field_name@),
        !text::blank(value@) && !exists ==> (r matches Err(ConfigError::Missing { field, path })
            && field@ == field_name@ && path@ == text::trimmed(value@)),
        !text::blank(value@) && exists && !is_dir ==> (r matches Err(
            ConfigError::NotDir { field, path },
        ) && field@ == field_name@ && path@ == text::trimmed(value@)),
        !text::blank(value@) && exists && is_dir ==> (r matches Ok(p) && p@ == text::trimmed(
            value@,
        )),
{
    let path = text::trim(value);
    if path.as_str().unicode_len() == 0 {
        return Err(ConfigError::Unset(field_name.to_owned()));
    }
    if !exists {
        return Err(ConfigError::Missing { field: field_name.to_owned(), path });
    }
    if !is_dir {
        return Err(ConfigError::NotDir { field: field_name.to_owned(), path });
    }
    Ok(path)
}

} // verus!
