//! The Slack CLI's configuration (`config.toml`) and credentials (`credentials.toml`): where
//! they live, and how a profile, its tokens and its channel aliases are resolved.
use vstd::prelude::*;
use crate::app_error::{AppError, ErrorKind};
use crate::resolve::{join_path, path_join};
use crate::str_map::{Duplicate, StrMap};
use crate::text::{append_str, concat};

verus! {

/// The view of an optional string.
pub open spec fn ostr(o: Option<String>) -> Option<Seq<char>> {
    match o {
        Some(s) => Some(s@),
        None => None,
    }
}

/// The view of an optional string slice.
pub open spec fn oref(o: Option<&str>) -> Option<Seq<char>> {
    match o {
        Some(s) => Some(s@),
        None => None,
    }
}

/// Copies an optional string.
fn dup_opt(o: &Option<String>) -> (r: Option<String>)
    ensures
        ostr(r) == ostr(*o),
{
    match o {
        Some(s) => Some(s.clone()),
        None => None,
    }
}

/// The base directory named by an XDG variable, or `<HOME>/<fallback>` when it is unset.
pub open spec fn xdg_base(xdg: Option<Seq<char>>, home: Option<Seq<char>>, fallback: Seq<char>) -> Seq<
    char,
> {
    match xdg {
        Some(x) => x,
        None => home.unwrap() + "/"@ + fallback,
    }
}

/// The configuration directory: `$XDG_CONFIG_HOME/slacli`, or `$HOME/.config/slacli`.
pub open spec fn config_dir_spec(xdg_config_home: Option<Seq<char>>, home: Option<Seq<char>>) -> Seq<
    char,
> {
    path_join(xdg_base(xdg_config_home, home, ".config"@), "slacli"@)
}

/// `<XDG value>` or `<HOME>/<fallback>`, joined with `slacli`.
pub(crate) fn app_dir(xdg: Option<&str>, home: Option<&str>, fallback: &str) -> (r: String)
    requires
        xdg.is_some() || home.is_some(),
    ensures
        r@ == path_join(xdg_base(oref(xdg), oref(home), fallback@), "slacli"@),
{
    let base = match xdg {
        Some(x) => x.to_string(),
        None => {
            let mut b = home.unwrap().to_string();
            append_str(&mut b, "/");
            append_str(&mut b, fallback);
            b
        },
    };
    join_path(base.as_str(), "slacli")
}

/// The configuration directory, from the values of `XDG_CONFIG_HOME` and `HOME` (one of
/// them must be set).
pub fn config_dir(xdg_config_home: Option<&str>, home: Option<&str>) -> (r: String)
    requires
        xdg_config_home.is_some() || home.is_some(),
    ensures
        r@ == config_dir_spec(oref(xdg_config_home), oref(home)),
{
    app_dir(xdg_config_home, home, ".config")
}

/// A channel alias: the channel's ID and a description.
#[derive(Debug)]
pub struct ChannelEntry {
    pub id: String,
    pub description: String,
}

impl View for ChannelEntry {
    type V = (Seq<char>, Seq<char>);

    open spec fn view(&self) -> (Seq<char>, Seq<char>) {
        (self.id@, self.description@)
    }
}

impl Duplicate for ChannelEntry {
    fn duplicate(&self) -> (r: Self) {
        ChannelEntry { id: self.id.clone(), description: self.description.clone() }
    }
}

/// The view of an optional map of channel aliases.
pub open spec fn channels_view(o: Option<StrMap<ChannelEntry>>) -> Option<
    Map<Seq<char>, (Seq<char>, Seq<char>)>,
> {
    match o {
        Some(m) => Some(m@),
        None => None,
    }
}

/// Copies an optional map of channel aliases.
fn dup_channels(o: &Option<StrMap<ChannelEntry>>) -> (r: Option<StrMap<ChannelEntry>>)
    ensures
        channels_view(r) == channels_view(*o),
{
    match o {
        Some(m) => Some(m.duplicate()),
        None => None,
    }
}

/// A profile's settings in `config.toml`.
#[derive(Debug)]
pub struct ProfileConfig {
    pub description: Option<String>,
    pub channels: Option<StrMap<ChannelEntry>>,
}

impl View for ProfileConfig {
    type V = (Option<Seq<char>>, Option<Map<Seq<char>, (Seq<char>, Seq<char>)>>);

    open spec fn view(&self) -> Self::V {
        (ostr(self.description), channels_view(self.channels))
    }
}

impl Duplicate for ProfileConfig {
    fn duplicate(&self) -> (r: Self) {
        ProfileConfig {
            description: dup_opt(&self.description),
            channels: dup_channels(&self.channels),
        }
    }
}

impl Default for ProfileConfig {
    fn default() -> (r: Self)
        ensures
            r.description is None,
            r.channels is None,
    {
        ProfileConfig { description: None, channels: None }
    }
}

/// The contents of `config.toml`.
#[derive(Debug)]
pub struct Config {
    pub default_profile: Option<String>,
    pub editor: Option<String>,
    pub profiles: Option<StrMap<ProfileConfig>>,
}

impl Default for Config {
    fn default() -> (r: Self)
        ensures
            r.default_profile is None,
            r.editor is None,
            r.profiles is None,
    {
        Config { default_profile: None, editor: None, profiles: None }
    }
}

/// A profile's tokens in `credentials.toml`.
#[derive(Debug)]
pub struct ProfileCredentials {
    pub bot_token: Option<String>,
    pub user_token: Option<String>,
}

impl View for ProfileCredentials {
    type V = (Option<Seq<char>>, Option<Seq<char>>);

    open spec fn view(&self) -> Self::V {
        (ostr(self.bot_token), ostr(self.user_token))
    }
}

impl Duplicate for ProfileCredentials {
    fn duplicate(&self) -> (r: Self) {
        ProfileCredentials {
            bot_token: dup_opt(&self.bot_token),
            user_token: dup_opt(&self.user_token),
        }
    }
}

impl Default for ProfileCredentials {
    fn default() -> (r: Self)
        ensures
            r.bot_token is None,
            r.user_token is None,
    {
        ProfileCredentials { bot_token: None, user_token: None }
    }
}

/// The contents of `credentials.toml`.
#[derive(Debug)]
pub struct Credentials {
    pub profiles: StrMap<ProfileCredentials>,
}

impl Default for Credentials {
    fn default() -> (r: Self)
        ensures
            r.profiles@ == Map::<Seq<char>, (Option<Seq<char>>, Option<Seq<char>>)>::empty(),
    {
        Credentials { profiles: StrMap::new() }
    }
}

/// A profile's tokens and channel aliases, gathered from both files.
#[derive(Debug)]
pub struct ResolvedProfile {
    pub bot_token: Option<String>,
    pub user_token: Option<String>,
    pub channels: Option<StrMap<ChannelEntry>>,
}

impl View for ResolvedProfile {
    type V = (
        Option<Seq<char>>,
        Option<Seq<char>>,
        Option<Map<Seq<char>, (Seq<char>, Seq<char>)>>,
    );

    open spec fn view(&self) -> Self::V {
        (ostr(self.bot_token), ostr(self.user_token), channels_view(self.channels))
    }
}

/// The profiles of `config.toml`; none when the table is absent.
pub open spec fn config_profiles(c: Config) -> Map<
    Seq<char>,
    (Option<Seq<char>>, Option<Map<Seq<char>, (Seq<char>, Seq<char>)>>),
> {
    match c.profiles {
        Some(m) => m@,
        None => Map::empty(),
    }
}

/// The message when no profile is named.
pub open spec fn no_profile_msg() -> Seq<char> {
    "No profile specified. Use --profile or set default_profile in config.toml."@
}

/// The message when `config.toml` has no such profile.
pub open spec fn config_missing_msg(name: Seq<char>) -> Seq<char> {
    "Profile '"@ + name + "' not found in config.toml."@
}

/// The message when `credentials.toml` has no such profile.
pub open spec fn credentials_missing_msg(name: Seq<char>) -> Seq<char> {
    "Profile '"@ + name + "' not found in credentials.toml. Run 'slacli init'."@
}

/// The profile in use: the one given on the command line, else the default one.
pub open spec fn chosen_profile(cli: Option<Seq<char>>, default: Option<Seq<char>>) -> Option<
    Seq<char>,
> {
    match cli {
        Some(n) => Some(n),
        None => default,
    }
}

/// The outcome of resolving a profile from both files.
pub open spec fn resolution(
    profiles: Map<Seq<char>, (Option<Seq<char>>, Option<Map<Seq<char>, (Seq<char>, Seq<char>)>>)>,
    creds: Map<Seq<char>, (Option<Seq<char>>, Option<Seq<char>>)>,
    cli: Option<Seq<char>>,
    default: Option<Seq<char>>,
) -> Result<
    (Option<Seq<char>>, Option<Seq<char>>, Option<Map<Seq<char>, (Seq<char>, Seq<char>)>>),
    (ErrorKind, Seq<char>),
> {
    match chosen_profile(cli, default) {
        None => Err((ErrorKind::Config, no_profile_msg())),
        Some(n) => if !profiles.contains_key(n) {
            Err((ErrorKind::Config, config_missing_msg(n)))
        } else if !creds.contains_key(n) {
            Err((ErrorKind::Config, credentials_missing_msg(n)))
        } else {
            Ok((creds[n].0, creds[n].1, profiles[n].1))
        },
    }
}

/// The view of a result that fails with an `AppError`.
pub open spec fn result_view<T: View>(r: Result<T, AppError>) -> Result<T::V, (ErrorKind, Seq<char>)> {
    match r {
        Ok(v) => Ok(v@),
        Err(e) => Err(e@),
    }
}

impl Config {
    /// `config.toml` in the configuration directory.
    pub fn config_path(xdg_config_home: Option<&str>, home: Option<&str>) -> (r: String)
        requires
            xdg_config_home.is_some() || home.is_some(),
        ensures
            r@ == path_join(config_dir_spec(oref(xdg_config_home), oref(home)), "config.toml"@),
    {
        let dir = config_dir(xdg_config_home, home);
        join_path(dir.as_str(), "config.toml")
    }

    /// The profile name to use: the command line's, else `default_profile`.
    pub fn resolve_profile_name(&self, cli_profile: Option<&str>) -> (r: Result<String, AppError>)
        ensures
            result_view(r) == match chosen_profile(oref(cli_profile), ostr(self.default_profile)) {
                Some(n) => Ok(n),
                None => Err((ErrorKind::Config, no_profile_msg())),
            },
    {
        if let Some(name) = cli_profile {
            return Ok(name.to_string());
        }
        match &self.default_profile {
            Some(d) => Ok(d.clone()),
            None => Err(
                AppError::Config(
                    "No profile specified. Use --profile or set default_profile in config.toml.".to_string(),
                ),
            ),
        }
    }

    /// The named profile's settings.
    pub fn get_profile(&self, name: &str) -> (r: Result<&ProfileConfig, AppError>)
        ensures
            match r {
                Ok(p) => config_profiles(*self).contains_key(name@) && p@ == config_profiles(
                    *self,
                )[name@],
                Err(e) => !config_profiles(*self).contains_key(name@) && e@ == (
                    ErrorKind::Config,
                    config_missing_msg(name@),
                ),
            },
    {
        let found = match &self.profiles {
            Some(m) => m.get(name),
            None => None,
        };
        match found {
            Some(p) => Ok(p),
            None => {
                let mut msg = concat("Profile '", name);
                append_str(&mut msg, "' not found in config.toml.");
                Err(AppError::Config(msg))
            },
        }
    }

    /// The profile in use, with its tokens from the credentials and its channel aliases.
    pub fn resolve_profile(&self, credentials: &Credentials, cli_profile: Option<&str>) -> (r:
        Result<ResolvedProfile, AppError>)
        ensures
            result_view(r) == resolution(
                config_profiles(*self),
                credentials.profiles@,
                oref(cli_profile),
                ostr(self.default_profile),
            ),
    {
        let name = match self.resolve_profile_name(cli_profile) {
            Ok(n) => n,
            Err(e) => return Err(e),
        };
        let profile_config = match self.get_profile(name.as_str()) {
            Ok(p) => p,
            Err(e) => return Err(e),
        };
        let profile_creds = match credentials.get_profile(name.as_str()) {
            Ok(p) => p,
            Err(e) => return Err(e),
        };
        Ok(
            ResolvedProfile {
                bot_token: dup_opt(&profile_creds.bot_token),
                user_token: dup_opt(&profile_creds.user_token),
                channels: dup_channels(&profile_config.channels),
            },
        )
    }

    /// The editor to open: `editor` from the file, else the value of `EDITOR`, else `vim`.
    pub fn resolve_editor(&self, env_editor: Option<&str>) -> (r: String)
        ensures
            r@ == match ostr(self.editor) {
                Some(e) => e,
                None => match oref(env_editor) {
                    Some(e) => e,
                    None => "vim"@,
                },
            },
    {
        match &self.editor {
            Some(e) => e.clone(),
            None => match env_editor {
                Some(e) => e.to_string(),
                None => "vim".to_string(),
            },
        }
    }
}

impl Credentials {
    /// `credentials.toml` in the configuration directory.
    pub fn credentials_path(xdg_config_home: Option<&str>, home: Option<&str>) -> (r: String)
        requires
            xdg_config_home.is_some() || home.is_some(),
        ensures
            r@ == path_join(
                config_dir_spec(oref(xdg_config_home), oref(home)),
                "credentials.toml"@,
            ),
    {
        let dir = config_dir(xdg_config_home, home);
        join_path(dir.as_str(), "credentials.toml")
    }

    /// The named profile's tokens.
    pub fn get_profile(&self, name: &str) -> (r: Result<&ProfileCredentials, AppError>)
        ensures
            match r {
                Ok(p) => self.profiles@.contains_key(name@) && p@ == self.profiles@[name@],
                Err(e) => !self.profiles@.contains_key(name@) && e@ == (
                    ErrorKind::Config,
                    credentials_missing_msg(name@),
                ),
            },
    {
        match self.profiles.get(name) {
            Some(p) => Ok(p),
            None => {
                let mut msg = concat("Profile '", name);
                append_str(&mut msg, "' not found in credentials.toml. Run 'slacli init'.");
                Err(AppError::Config(msg))
            },
        }
    }
}

impl ResolvedProfile {
    /// The bot token, which must be configured.
    pub fn bot_token(&self) -> (r: Result<&str, AppError>)
        ensures
            match r {
                Ok(t) => ostr(self.bot_token) == Some(t@),
                Err(e) => self.bot_token is None && e@ == (
                    ErrorKind::Config,
                    "Bot token not configured. Run 'slacli init'."@,
                ),
            },
    {
        match &self.bot_token {
            Some(t) => Ok(t.as_str()),
            None => Err(AppError::Config("Bot token not configured. Run 'slacli init'.".to_string())),
        }
    }

    /// The user token, which must be configured.
    pub fn user_token(&self) -> (r: Result<&str, AppError>)
        ensures
            match r {
                Ok(t) => ostr(self.user_token) == Some(t@),
                Err(e) => self.user_token is None && e@ == (
                    ErrorKind::Config,
                    "User token not configured. Run 'slacli init'."@,
                ),
            },
    {
        match &self.user_token {
            Some(t) => Ok(t.as_str()),
            None => Err(
                AppError::Config("User token not configured. Run 'slacli init'.".to_string()),
            ),
        }
    }

    /// The channel ID for an alias; anything else is taken as a channel ID as it stands.
    pub fn resolve_channel(&self, input: &str) -> (r: String)
        ensures
            r@ == match channels_view(self.channels) {
                Some(m) => if m.contains_key(input@) {
                    m[input@].0
                } else {
                    input@
                },
                None => input@,
            },
    {
        let found = match &self.channels {
            Some(m) => m.get(input),
            None => None,
        };
        match found {
            Some(entry) => entry.id.clone(),
            None => input.to_string(),
        }
    }
}

/// A profile named on the command line overrides `default_profile`: the outcome does not
/// depend on the default then.
pub proof fn law_cli_profile_overrides_default(
    profiles: Map<Seq<char>, (Option<Seq<char>>, Option<Map<Seq<char>, (Seq<char>, Seq<char>)>>)>,
    creds: Map<Seq<char>, (Option<Seq<char>>, Option<Seq<char>>)>,
    name: Seq<char>,
    default1: Option<Seq<char>>,
    default2: Option<Seq<char>>,
)
    ensures
        resolution(profiles, creds, Some(name), default1) == resolution(
            profiles,
            creds,
            Some(name),
            default2,
        ),
{
}

/// Without a profile on the command line, the default profile is the one resolved; with
/// neither, resolution fails with the "no profile" error.
pub proof fn law_default_profile_used(
    profiles: Map<Seq<char>, (Option<Seq<char>>, Option<Map<Seq<char>, (Seq<char>, Seq<char>)>>)>,
    creds: Map<Seq<char>, (Option<Seq<char>>, Option<Seq<char>>)>,
    default: Option<Seq<char>>,
)
    ensures
        default matches Some(d) ==> resolution(profiles, creds, None, default) == resolution(
            profiles,
            creds,
            Some(d),
            None,
        ),
        default is None ==> resolution(profiles, creds, None, default) == Err::<
            (Option<Seq<char>>, Option<Seq<char>>, Option<Map<Seq<char>, (Seq<char>, Seq<char>)>>),
            (ErrorKind, Seq<char>),
        >((ErrorKind::Config, no_profile_msg())),
{
}

} // verus!
