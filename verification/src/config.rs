//! Application settings and their validation.

use vstd::prelude::*;

use crate::text::{is_blank, owned, str_is_blank};
use crate::types::SerisError;

verus! {

/// Application settings loaded from the Seris config file.
#[derive(Debug, Clone)]
pub struct AppConfig {
    /// Discord bot token used to authenticate the client.
    pub discord_token: String,
    /// NASA API key used for APOD requests.
    pub nasa_api_key: String,
}

/// Whether `error` reports that the setting `field` is empty.
pub open spec fn is_empty_setting_error(error: SerisError, field: Seq<char>) -> bool {
    error matches SerisError::InvalidConfig { field: f, reason } && f@ == field && reason@ == "must not be empty"@
}

impl AppConfig {
    /// Validates required configuration values: neither the token nor the key
    /// may be empty or whitespace only; the token is checked first.
    pub fn validate(&self) -> (checked: Result<(), SerisError>)
        ensures
            is_blank(self.discord_token@) ==> (checked matches Err(e) && is_empty_setting_error(e, "discord_token"@)),
            !is_blank(self.discord_token@) && is_blank(self.nasa_api_key@) ==> (checked matches Err(e)
                && is_empty_setting_error(e, "nasa_api_key"@)),
            !is_blank(self.discord_token@) && !is_blank(self.nasa_api_key@) ==> checked is Ok,
    {
        if str_is_blank(self.discord_token.as_str()) {
            return Err(SerisError::InvalidConfig { field: "discord_token", reason: "must not be empty" });
        }
        if str_is_blank(self.nasa_api_key.as_str()) {
            return Err(SerisError::InvalidConfig { field: "nasa_api_key", reason: "must not be empty" });
        }
        Ok(())
    }
}

/// The path components of the config file: `SERIS_CONFIG_FILE` when set,
/// otherwise `seris/config.toml` under `XDG_CONFIG_HOME`, otherwise
/// `.config/seris/config.toml` under `HOME`; none when neither is set.
pub open spec fn config_path_parts(
    explicit: Option<Seq<char>>,
    xdg_config_home: Option<Seq<char>>,
    home: Option<Seq<char>>,
) -> Option<Seq<Seq<char>>> {
    match explicit {
        Some(path) => Some(seq![path]),
        None => match xdg_config_home {
            Some(base) => Some(seq![base, "seris"@, "config.toml"@]),
            None => match home {
                Some(base) => Some(seq![base, ".config"@, "seris"@, "config.toml"@]),
                None => None,
            },
        },
    }
}

/// The texts of a list of strings.
pub open spec fn texts(parts: Seq<String>) -> Seq<Seq<char>> {
    parts.map_values(|p: String| p@)
}

/// Chooses the config file's path, as components to join, from the values of
/// `SERIS_CONFIG_FILE`, `XDG_CONFIG_HOME` and `HOME`.
pub fn config_file_components(
    explicit: Option<String>,
    xdg_config_home: Option<String>,
    home: Option<String>,
) -> (parts: Option<Vec<String>>)
    ensures
        match parts {
            Some(p) => config_path_parts(
                crate::text::opt_text(explicit),
                crate::text::opt_text(xdg_config_home),
                crate::text::opt_text(home),
            ) == Some(texts(p@)),
            None => config_path_parts(
                crate::text::opt_text(explicit),
                crate::text::opt_text(xdg_config_home),
                crate::text::opt_text(home),
            ) is None,
        },
{
    match explicit {
        Some(path) => {
            let mut parts = Vec::new();
            parts.push(path);
            assert(texts(parts@) =~= seq![parts@[0]@]);
            Some(parts)
        },
        None => match xdg_config_home {
            Some(base) => {
                let mut parts = Vec::new();
                parts.push(base);
                parts.push(owned("seris"));
                parts.push(owned("config.toml"));
                assert(texts(parts@) =~= seq![parts@[0]@, "seris"@, "config.toml"@]);
                Some(parts)
            },
            None => match home {
                Some(base) => {
                    let mut parts = Vec::new();
                    parts.push(base);
                    parts.push(owned(".config"));
                    parts.push(owned("seris"));
                    parts.push(owned("config.toml"));
                    assert(texts(parts@) =~= seq![parts@[0]@, ".config"@, "seris"@, "config.toml"@]);
                    Some(parts)
                },
                None => None,
            },
        },
    }
}

} // verus!
