//! The decisions of `slacli init`: the profile name, the description prompt, and the tokens
//! that are kept.
use vstd::prelude::*;
use crate::app_error::{AppError, ErrorKind};
use crate::config::{config_profiles, ostr, Config, Credentials, ProfileConfig, ProfileCredentials};
use crate::str_map::{Duplicate, StrMap};
use crate::text::{append_str, has_prefix, trim, trim_str};

verus! {

/// The profile name typed at the prompt: the line without surrounding whitespace, which must
/// not be empty.
pub fn profile_name_from_input(line: &str) -> (r: Result<String, AppError>)
    ensures
        match r {
            Ok(n) => n@ == trim(line@) && n@.len() > 0,
            Err(e) => trim(line@).len() == 0 && e@ == (
                ErrorKind::Validation,
                "Profile name is required."@,
            ),
        },
{
    let name = trim_str(line);
    if name.unicode_len() == 0 {
        return Err(AppError::Validation("Profile name is required.".to_string()));
    }
    Ok(name)
}

/// The prompt for the description, showing the current one when there is one.
pub open spec fn description_prompt_spec(current: Option<Seq<char>>) -> Seq<char> {
    match current {
        Some(d) => if d.len() == 0 {
            "Profile description (optional): "@
        } else {
            "Profile description (optional) ["@ + d + "]: "@
        },
        None => "Profile description (optional): "@,
    }
}

/// The prompt for the profile description.
pub fn description_prompt(current: Option<&str>) -> (r: String)
    ensures
        r@ == description_prompt_spec(crate::config::oref(current)),
{
    match current {
        Some(d) => if d.unicode_len() == 0 {
            "Profile description (optional): ".to_string()
        } else {
            let mut s = "Profile description (optional) [".to_string();
            append_str(&mut s, d);
            append_str(&mut s, "]: ");
            s
        },
        None => "Profile description (optional): ".to_string(),
    }
}

/// The profile's entry after `init`: a non-blank description replaces the old one (trimmed);
/// the channels stay.
pub open spec fn registered_profile(
    old: Option<(Option<Seq<char>>, Option<Map<Seq<char>, (Seq<char>, Seq<char>)>>)>,
    description_input: Seq<char>,
) -> (Option<Seq<char>>, Option<Map<Seq<char>, (Seq<char>, Seq<char>)>>) {
    let (d, ch) = match old {
        Some(p) => p,
        None => (None, None),
    };
    (if trim(description_input).len() > 0 {
        Some(trim(description_input))
    } else {
        d
    }, ch)
}

/// Records the profile in the configuration: creates its entry if needed, sets a non-blank
/// description, and makes it the default profile when there is none.
pub fn register_profile(config: &mut Config, name: &str, description_input: &str)
    ensures
        final(config).profiles is Some,
        config_profiles(*final(config)) == config_profiles(*old(config)).insert(
            name@,
            registered_profile(
                if config_profiles(*old(config)).contains_key(name@) {
                    Some(config_profiles(*old(config))[name@])
                } else {
                    None
                },
                description_input@,
            ),
        ),
        ostr(final(config).default_profile) == match ostr(old(config).default_profile) {
            Some(d) => Some(d),
            None => Some(name@),
        },
        ostr(final(config).editor) == ostr(old(config).editor),
        trim(description_input@).len() > 0 ==> config_profiles(*final(config))[name@].0 == Some(
            trim(description_input@),
        ),
{
    let mut profiles = match config.profiles.take() {
        Some(m) => m,
        None => StrMap::new(),
    };
    let mut entry = match profiles.get(name) {
        Some(p) => p.duplicate(),
        None => ProfileConfig::default(),
    };
    let desc = trim_str(description_input);
    if desc.unicode_len() > 0 {
        entry.description = Some(desc);
    }
    profiles.insert(name.to_string(), entry);
    config.profiles = Some(profiles);
    if config.default_profile.is_none() {
        config.default_profile = Some(name.to_string());
    }
}

/// The two kinds of token that `init` asks for.
#[derive(Debug, Clone, Copy, PartialEq, Eq, Structural)]
pub enum TokenKind {
    User,
    Bot,
}

/// The prefix a token of each kind has.
pub open spec fn token_prefix(k: TokenKind) -> Seq<char> {
    match k {
        TokenKind::User => "xoxp-"@,
        TokenKind::Bot => "xoxb-"@,
    }
}

/// The message for a token with the wrong prefix.
pub open spec fn token_prefix_msg(k: TokenKind) -> Seq<char> {
    match k {
        TokenKind::User => "User token must start with 'xoxp-'."@,
        TokenKind::Bot => "Bot token must start with 'xoxb-'."@,
    }
}

/// What a token typed at the prompt comes to: nothing when empty (the stored one stays),
/// the token when it has its kind's prefix, else a validation error.
pub open spec fn checked_token(kind: TokenKind, input: Seq<char>) -> Result<
    Option<Seq<char>>,
    (ErrorKind, Seq<char>),
> {
    if input.len() == 0 {
        Ok(None)
    } else if token_prefix(kind).is_prefix_of(input) {
        Ok(Some(input))
    } else {
        Err((ErrorKind::Validation, token_prefix_msg(kind)))
    }
}

/// Checks a token typed at the prompt: empty keeps the stored one (`None`); otherwise it
/// must have its kind's prefix.
pub fn check_token(kind: TokenKind, input: &str) -> (r: Result<Option<String>, AppError>)
    ensures
        match r {
            Ok(t) => checked_token(kind, input@) == Ok::<
                Option<Seq<char>>,
                (ErrorKind, Seq<char>),
            >(ostr(t)),
            Err(e) => checked_token(kind, input@) == Err::<
                Option<Seq<char>>,
                (ErrorKind, Seq<char>),
            >(e@),
        },
{
    if input.unicode_len() == 0 {
        return Ok(None);
    }
    let (prefix, msg) = match kind {
        TokenKind::User => ("xoxp-", "User token must start with 'xoxp-'."),
        TokenKind::Bot => ("xoxb-", "Bot token must start with 'xoxb-'."),
    };
    if has_prefix(input, prefix) {
        Ok(Some(input.to_string()))
    } else {
        Err(AppError::Validation(msg.to_string()))
    }
}

/// A token after `init`: the new one if one was given, else the stored one.
pub open spec fn kept_token(new: Option<Seq<char>>, stored: Option<Seq<char>>) -> Option<Seq<char>> {
    match new {
        Some(t) => Some(t),
        None => stored,
    }
}

/// Records the checked tokens: the profile's entry is created if needed, and each token that
/// was given replaces the stored one.
pub fn apply_tokens(credentials: &mut Credentials, name: &str, user: Option<String>, bot: Option<String>)
    ensures
        final(credentials).profiles@ == old(credentials).profiles@.insert(
            name@,
            if old(credentials).profiles@.contains_key(name@) {
                (
                    kept_token(ostr(bot), old(credentials).profiles@[name@].0),
                    kept_token(ostr(user), old(credentials).profiles@[name@].1),
                )
            } else {
                (ostr(bot), ostr(user))
            },
        ),
{
    let mut entry = match credentials.profiles.get(name) {
        Some(p) => p.duplicate(),
        None => ProfileCredentials::default(),
    };
    if user.is_some() {
        entry.user_token = user;
    }
    if bot.is_some() {
        entry.bot_token = bot;
    }
    credentials.profiles.insert(name.to_string(), entry);
}

/// Tokens are merged one at a time: an empty answer at a prompt keeps the stored token, and
/// an accepted one replaces it.
pub proof fn law_tokens_merge(kind: TokenKind, input: Seq<char>, stored: Option<Seq<char>>)
    requires
        checked_token(kind, input) is Ok,
    ensures
        input.len() == 0 ==> kept_token(checked_token(kind, input)->Ok_0, stored) == stored,
        input.len() > 0 ==> kept_token(checked_token(kind, input)->Ok_0, stored) == Some(input),
{
}

/// A description typed at the prompt that is not blank becomes the profile's description,
/// trimmed, whatever it was before; a blank one keeps the old description (none for a new
/// profile). The channels of the profile are kept either way.
pub proof fn law_typed_description_wins(
    old: Option<(Option<Seq<char>>, Option<Map<Seq<char>, (Seq<char>, Seq<char>)>>)>,
    description_input: Seq<char>,
)
    ensures
        trim(description_input).len() > 0 ==> registered_profile(old, description_input).0 == Some(
            trim(description_input),
        ),
        trim(description_input).len() == 0 ==> registered_profile(old, description_input).0
            == match old {
            Some(p) => p.0,
            None => None,
        },
        registered_profile(old, description_input).1 == match old {
            Some(p) => p.1,
            None => None,
        },
{
}

} // verus!
