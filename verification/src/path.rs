//! Where the client keeps its files: everything lies under one directory
//! of the user's home.

use vstd::prelude::*;
use crate::error::Error;

verus! {

/// The name of the client's directory under `.config`.
pub const APP_NAME: &'static str = "chatgpt_cli";

/// The path `base` extended by `part`: a `part` that starts at the root
/// stands alone; otherwise the two are put together, with a separator
/// between them unless `base` is empty or ends in one.
pub open spec fn joined(base: Seq<char>, part: Seq<char>) -> Seq<char> {
    if part.len() > 0 && part[0] == '/' {
        part
    } else if base.len() > 0 && base.last() != '/' {
        base + seq!['/'] + part
    } else {
        base + part
    }
}

/// The client's directory for the home directory `home`.
pub open spec fn config_dir_of(home: Seq<char>) -> Seq<char> {
    joined(joined(home, ".config"@), APP_NAME@)
}

/// The file of the profile store.
pub open spec fn config_file_of(dir: Seq<char>) -> Seq<char> {
    joined(dir, "config.toml"@)
}

/// The directory of the pre-set messages of all profiles.
pub open spec fn pre_messages_dir_of(dir: Seq<char>) -> Seq<char> {
    joined(dir, "pre_messages"@)
}

/// The directory of the pre-set messages of the profile `profile_name`.
pub open spec fn profile_pre_messages_dir_of(dir: Seq<char>, profile_name: Seq<char>) -> Seq<
    char,
> {
    joined(pre_messages_dir_of(dir), profile_name)
}

/// The directory of the history of all profiles.
pub open spec fn history_dir_of(dir: Seq<char>) -> Seq<char> {
    joined(dir, "history"@)
}

/// The directory of the history of the profile `profile_name`.
pub open spec fn profile_history_dir_of(dir: Seq<char>, profile_name: Seq<char>) -> Seq<char> {
    joined(history_dir_of(dir), profile_name)
}

/// The directory of scratch files.
pub open spec fn cache_dir_of(dir: Seq<char>) -> Seq<char> {
    joined(dir, "cache"@)
}

/// The directory of the message that is being edited.
pub open spec fn editting_message_dir_of(dir: Seq<char>) -> Seq<char> {
    joined(cache_dir_of(dir), "editting_message"@)
}

/// The file of the message that is being edited.
pub open spec fn editting_message_file_of(dir: Seq<char>) -> Seq<char> {
    joined(editting_message_dir_of(dir), "EDITTING_MESSAGE"@)
}

/// Extends the path `base` by `part`.
pub fn join(base: &str, part: &str) -> (r: String)
    ensures
        r@ == joined(base@, part@),
{
    proof {
        reveal_strlit("/");
    }
    let part_len = part.unicode_len();
    if part_len > 0 && part.get_char(0) == '/' {
        return String::from_str(part);
    }
    let base_len = base.unicode_len();
    let mut r = String::from_str(base);
    if base_len > 0 && base.get_char(base_len - 1) != '/' {
        r.append("/");
        assert(r@ =~= base@ + seq!['/']);
    }
    r.append(part);
    r
}

/// The user's home directory as `dirs::home_dir` finds it, as text. The
/// answer depends on the environment and on the user's record in the
/// system, so nothing is claimed of it; a home directory whose path is not
/// Unicode text counts as unknown.
#[verifier::external_body]
fn home_directory() -> (r: Option<String>) {
    match dirs::home_dir() {
        Some(path) => path.into_os_string().into_string().ok(),
        None => None,
    }
}

/// The client's directory for the home directory `home`; without a home
/// directory there is none.
pub fn config_dir_from(home: Option<String>) -> (r: Result<String, Error>)
    ensures
        match home {
            Some(h) => r.is_ok() && r.unwrap()@ == config_dir_of(h@),
            None => r == Err::<String, Error>(Error::NoHomeDirectory),
        },
{
    match home {
        Some(h) => {
            let under = join(h.as_str(), ".config");
            Ok(join(under.as_str(), APP_NAME))
        },
        None => Err(Error::NoHomeDirectory),
    }
}

/// The file of the profile store under the client's directory `dir`.
pub fn config_file_in(dir: &str) -> (r: String)
    ensures
        r@ == config_file_of(dir@),
{
    join(dir, "config.toml")
}

/// The directory of the pre-set messages under the client's directory `dir`.
pub fn pre_messages_dir_in(dir: &str) -> (r: String)
    ensures
        r@ == pre_messages_dir_of(dir@),
{
    join(dir, "pre_messages")
}

/// The directory of the pre-set messages of one profile.
pub fn profile_pre_messages_dir_in(dir: &str, profile_name: &str) -> (r: String)
    ensures
        r@ == profile_pre_messages_dir_of(dir@, profile_name@),
{
    let all = pre_messages_dir_in(dir);
    join(all.as_str(), profile_name)
}

/// The directory of the history under the client's directory `dir`.
pub fn history_dir_in(dir: &str) -> (r: String)
    ensures
        r@ == history_dir_of(dir@),
{
    join(dir, "history")
}

/// The directory of the history of one profile.
pub fn profile_history_dir_in(dir: &str, profile_name: &str) -> (r: String)
    ensures
        r@ == profile_history_dir_of(dir@, profile_name@),
{
    let all = history_dir_in(dir);
    join(all.as_str(), profile_name)
}

/// The directory of scratch files under the client's directory `dir`.
pub fn cache_dir_in(dir: &str) -> (r: String)
    ensures
        r@ == cache_dir_of(dir@),
{
    join(dir, "cache")
}

/// The directory of the message that is being edited.
pub fn editting_message_dir_in(dir: &str) -> (r: String)
    ensures
        r@ == editting_message_dir_of(dir@),
{
    let cache = cache_dir_in(dir);
    join(cache.as_str(), "editting_message")
}

/// The file of the message that is being edited.
pub fn editting_message_file_in(dir: &str) -> (r: String)
    ensures
        r@ == editting_message_file_of(dir@),
{
    let parent = editting_message_dir_in(dir);
    join(parent.as_str(), "EDITTING_MESSAGE")
}

/// `path` is the client's directory for some home directory.
pub open spec fn is_config_dir(path: Seq<char>) -> bool {
    exists|home: Seq<char>| path == #[trigger] config_dir_of(home)
}

/// The client's directory of the user who runs the program.
pub fn get_path_config_dir() -> (r: Result<String, Error>)
    ensures
        match r {
            Ok(dir) => is_config_dir(dir@),
            Err(e) => e == Error::NoHomeDirectory,
        },
{
    let home = home_directory();
    config_dir_from(home)
}

/// The file of the profile store.
pub fn get_path_config_file() -> (r: Result<String, Error>)
    ensures
        match r {
            Ok(p) => exists|dir: Seq<char>| is_config_dir(dir) && p@ == #[trigger] config_file_of(dir),
            Err(e) => e == Error::NoHomeDirectory,
        },
{
    match get_path_config_dir() {
        Ok(dir) => Ok(config_file_in(dir.as_str())),
        Err(e) => Err(e),
    }
}

/// The directory of the pre-set messages of all profiles.
pub fn get_path_pre_messages_dir() -> (r: Result<String, Error>)
    ensures
        match r {
            Ok(p) => exists|dir: Seq<char>|
                is_config_dir(dir) && p@ == #[trigger] pre_messages_dir_of(dir),
            Err(e) => e == Error::NoHomeDirectory,
        },
{
    match get_path_config_dir() {
        Ok(dir) => Ok(pre_messages_dir_in(dir.as_str())),
        Err(e) => Err(e),
    }
}

/// The directory of the pre-set messages of the profile `profile_name`.
pub fn get_path_profile_pre_messages_dir(profile_name: &str) -> (r: Result<String, Error>)
    ensures
        match r {
            Ok(p) => exists|dir: Seq<char>|
                is_config_dir(dir) && p@ == #[trigger] profile_pre_messages_dir_of(
                    dir,
                    profile_name@,
                ),
            Err(e) => e == Error::NoHomeDirectory,
        },
{
    match get_path_config_dir() {
        Ok(dir) => Ok(profile_pre_messages_dir_in(dir.as_str(), profile_name)),
        Err(e) => Err(e),
    }
}

/// The directory of the history of all profiles.
pub fn get_path_history_dir() -> (r: Result<String, Error>)
    ensures
        match r {
            Ok(p) => exists|dir: Seq<char>| is_config_dir(dir) && p@ == #[trigger] history_dir_of(dir),
            Err(e) => e == Error::NoHomeDirectory,
        },
{
    match get_path_config_dir() {
        Ok(dir) => Ok(history_dir_in(dir.as_str())),
        Err(e) => Err(e),
    }
}

/// The directory of the history of the profile `profile_name`.
pub fn get_path_profile_history_dir(profile_name: &str) -> (r: Result<String, Error>)
    ensures
        match r {
            Ok(p) => exists|dir: Seq<char>|
                is_config_dir(dir) && p@ == #[trigger] profile_history_dir_of(dir, profile_name@),
            Err(e) => e == Error::NoHomeDirectory,
        },
{
    match get_path_config_dir() {
        Ok(dir) => Ok(profile_history_dir_in(dir.as_str(), profile_name)),
        Err(e) => Err(e),
    }
}

/// The directory of scratch files.
pub fn get_path_cache_dir() -> (r: Result<String, Error>)
    ensures
        match r {
            Ok(p) => exists|dir: Seq<char>| is_config_dir(dir) && p@ == #[trigger] cache_dir_of(dir),
            Err(e) => e == Error::NoHomeDirectory,
        },
{
    match get_path_config_dir() {
        Ok(dir) => Ok(cache_dir_in(dir.as_str())),
        Err(e) => Err(e),
    }
}

/// The directory of the message that is being edited.
pub fn get_path_editting_message_dir() -> (r: Result<String, Error>)
    ensures
        match r {
            Ok(p) => exists|dir: Seq<char>|
                is_config_dir(dir) && p@ == #[trigger] editting_message_dir_of(dir),
            Err(e) => e == Error::NoHomeDirectory,
        },
{
    match get_path_config_dir() {
        Ok(dir) => Ok(editting_message_dir_in(dir.as_str())),
        Err(e) => Err(e),
    }
}

/// The file of the message that is being edited.
pub fn get_path_editting_message_file() -> (r: Result<String, Error>)
    ensures
        match r {
            Ok(p) => exists|dir: Seq<char>|
                is_config_dir(dir) && p@ == #[trigger] editting_message_file_of(dir),
            Err(e) => e == Error::NoHomeDirectory,
        },
{
    match get_path_config_dir() {
        Ok(dir) => Ok(editting_message_file_in(dir.as_str())),
        Err(e) => Err(e),
    }
}

} // verus!
