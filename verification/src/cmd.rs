//! The decisions of the three commands: `configure`, `path` and `prompt`.

use vstd::prelude::*;
use crate::config::{copy_text, lookup, Config, Fraction, Profile, ProfileView};
use crate::error::{Error, ErrorView};
use crate::path::{join, joined};
use crate::resolve::resolution;
use crate::text::{trim, trimmed};

verus! {

/// The command that sets up a profile.
#[derive(Debug, Clone, Copy, PartialEq, Eq, Structural)]
pub struct CmdConfigure;

/// The command that shows where the client keeps its files.
#[derive(Debug, Clone, Copy, PartialEq, Eq, Structural)]
pub struct CmdPath;

/// The command that sends a message.
#[derive(Debug, Clone, Copy, PartialEq, Eq, Structural)]
pub struct CmdPrompt;

/// The profile `name` with no setting at all.
pub open spec fn blank(name: Seq<char>) -> ProfileView {
    ProfileView {
        name,
        source_profile: None,
        api_key: None,
        organization_id: None,
        use_history: None,
        model: None,
        temperature: None,
        top_p: None,
        max_tokens: None,
        presence_penalty: None,
        frequency_penalty: None,
        user: None,
    }
}

impl CmdConfigure {
    /// The name of the command.
    pub const NAME: &'static str = "configure";

    /// The profile that the command works on: the one of that name as the
    /// store has it, or one without settings where the store has none.
    pub fn profile_to_edit(config: &Config, profile_name: &str) -> (r: Profile)
        ensures
            r@ == (match lookup(config@, profile_name@) {
                Some(i) => config@[i],
                None => blank(profile_name@),
            }),
    {
        match config.get_profile(profile_name, false) {
            Ok(Some(profile)) => profile,
            _ => Profile {
                name: String::from_str(profile_name),
                source_profile: None,
                api_key: None,
                organization_id: None,
                use_history: None,
                model: None,
                temperature: None,
                top_p: None,
                max_tokens: None,
                presence_penalty: None,
                frequency_penalty: None,
                user: None,
            },
        }
    }
}

impl CmdPath {
    /// The name of the command.
    pub const NAME: &'static str = "path";

    /// The directory to show: `directory` itself, or the directory of one
    /// profile in it where a profile is named.
    pub fn scoped(directory: String, profile_name: Option<&str>) -> (r: String)
        ensures
            r@ == (match profile_name {
                Some(name) => joined(directory@, name@),
                None => directory@,
            }),
    {
        match profile_name {
            Some(name) => join(directory.as_str(), name),
            None => directory,
        }
    }
}

/// The settings given on the command line, which go before those of the profile.
#[derive(Debug, PartialEq, Eq)]
pub struct Overrides {
    pub temperature: Option<Fraction>,
    pub top_p: Option<Fraction>,
    pub max_tokens: Option<u64>,
    pub presence_penalty: Option<Fraction>,
    pub frequency_penalty: Option<Fraction>,
    pub user: Option<String>,
}

/// An [`Overrides`] with its text as a sequence of characters.
pub struct OverridesView {
    pub temperature: Option<Fraction>,
    pub top_p: Option<Fraction>,
    pub max_tokens: Option<u64>,
    pub presence_penalty: Option<Fraction>,
    pub frequency_penalty: Option<Fraction>,
    pub user: Option<Seq<char>>,
}

impl View for Overrides {
    type V = OverridesView;

    open spec fn view(&self) -> OverridesView {
        OverridesView {
            temperature: self.temperature,
            top_p: self.top_p,
            max_tokens: self.max_tokens,
            presence_penalty: self.presence_penalty,
            frequency_penalty: self.frequency_penalty,
            user: self.user.deep_view(),
        }
    }
}

/// The value of a setting for the request: the one given on the command
/// line, or the profile's where none was given.
pub open spec fn preferred<T>(given: Option<T>, own: Option<T>) -> Option<T> {
    if given.is_some() {
        given
    } else {
        own
    }
}

/// The profile `p` with the settings of the command line in place of its own.
pub open spec fn overridden(p: ProfileView, o: OverridesView) -> ProfileView {
    ProfileView {
        temperature: preferred(o.temperature, p.temperature),
        top_p: preferred(o.top_p, p.top_p),
        max_tokens: preferred(o.max_tokens, p.max_tokens),
        presence_penalty: preferred(o.presence_penalty, p.presence_penalty),
        frequency_penalty: preferred(o.frequency_penalty, p.frequency_penalty),
        user: preferred(o.user, p.user),
        ..p
    }
}

impl CmdPrompt {
    /// The name of the command.
    pub const NAME: &'static str = "prompt";

    /// The resolved profile `profile_name` of the store. A name that the
    /// store does not hold is reported as `ProfileNotFound`; a profile that
    /// does not resolve, with the error of its resolution.
    pub fn select(config: &Config, profile_name: &str) -> (r: Result<Profile, Error>)
        ensures
            match lookup(config@, profile_name@) {
                None => r.is_err() && r.unwrap_err()@ == ErrorView::ProfileNotFound(
                    profile_name@,
                ),
                Some(i) => match resolution(config@[i], config@) {
                    Ok(p) => r.is_ok() && r.unwrap()@ == p,
                    Err(e) => r.is_err() && r.unwrap_err()@ == e,
                },
            },
    {
        match config.get_profile(profile_name, true) {
            Ok(Some(profile)) => Ok(profile),
            Ok(None) => Err(Error::ProfileNotFound(String::from_str(profile_name))),
            Err(e) => Err(e),
        }
    }

    /// Puts the settings of the command line in place of the profile's own.
    pub fn apply(profile: Profile, overrides: &Overrides) -> (r: Profile)
        ensures
            r@ == overridden(profile@, overrides@),
    {
        let mut r = profile;
        if overrides.temperature.is_some() {
            r.temperature = overrides.temperature;
        }
        if overrides.top_p.is_some() {
            r.top_p = overrides.top_p;
        }
        if overrides.max_tokens.is_some() {
            r.max_tokens = overrides.max_tokens;
        }
        if overrides.presence_penalty.is_some() {
            r.presence_penalty = overrides.presence_penalty;
        }
        if overrides.frequency_penalty.is_some() {
            r.frequency_penalty = overrides.frequency_penalty;
        }
        if overrides.user.is_some() {
            r.user = copy_text(&overrides.user);
        }
        r
    }

    /// The message that the user wrote in the editor, `text` being what
    /// the scratch file holds: an empty file gives up the prompt, any other
    /// is the message once the white space at its ends is cut off.
    pub fn edited_message(text: &str) -> (r: Result<String, Error>)
        ensures
            match r {
                Ok(message) => text@.len() > 0 && message@ == trimmed(text@),
                Err(e) => text@.len() == 0 && e == Error::EmptyPrompt,
            },
    {
        if text.unicode_len() == 0 {
            Err(Error::EmptyPrompt)
        } else {
            Ok(trim(text))
        }
    }
}

} // verus!
