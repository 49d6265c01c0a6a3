use chatgpt_cli::cmd::{CmdPath, CmdPrompt};
use chatgpt_cli::error::Error;
use chatgpt_cli::path::{
    cache_dir_in, config_dir_from, config_file_in, editting_message_dir_in,
    editting_message_file_in, get_path_cache_dir, get_path_config_dir, get_path_config_file,
    get_path_editting_message_dir, get_path_editting_message_file, get_path_history_dir,
    get_path_pre_messages_dir, get_path_profile_history_dir, get_path_profile_pre_messages_dir,
    history_dir_in, join, pre_messages_dir_in, profile_history_dir_in,
    profile_pre_messages_dir_in, APP_NAME,
};

#[test]
fn join_puts_a_separator_between() {
    assert_eq!(join("/home/u", ".config"), "/home/u/.config");
    assert_eq!(join("/home/u/", ".config"), "/home/u/.config");
    assert_eq!(join("", "a"), "a");
    assert_eq!(join("a", ""), "a/");
    assert_eq!(join("", ""), "");
    assert_eq!(join("/", "a"), "/a");
    assert_eq!(join("é", "ñ"), "é/ñ");
}

#[test]
fn join_lets_a_rooted_part_stand_alone() {
    assert_eq!(join("/home/u", "/etc"), "/etc");
    assert_eq!(join("", "/"), "/");
}

#[test]
fn join_agrees_with_the_standard_library() {
    if std::path::MAIN_SEPARATOR != '/' {
        return;
    }
    for (base, part) in [
        ("/home/u", ".config"),
        ("/home/u/", "x"),
        ("", "a"),
        ("a", ""),
        ("/a", "/b"),
        ("a/b", "c/d"),
        ("/", "a"),
    ] {
        let expected = std::path::Path::new(base).join(part);
        assert_eq!(join(base, part), expected.to_str().unwrap());
    }
}

#[test]
fn config_dir_lies_under_dot_config() {
    assert_eq!(
        config_dir_from(Some("/home/alice".to_string())),
        Ok(format!("/home/alice/.config/{}", APP_NAME))
    );
    assert_eq!(config_dir_from(None), Err(Error::NoHomeDirectory));
}

#[test]
fn files_and_directories_under_the_config_dir() {
    let dir = "/home/alice/.config/app";
    assert_eq!(config_file_in(dir), "/home/alice/.config/app/config.toml");
    assert_eq!(pre_messages_dir_in(dir), "/home/alice/.config/app/pre_messages");
    assert_eq!(
        profile_pre_messages_dir_in(dir, "default"),
        "/home/alice/.config/app/pre_messages/default"
    );
    assert_eq!(history_dir_in(dir), "/home/alice/.config/app/history");
    assert_eq!(profile_history_dir_in(dir, "work"), "/home/alice/.config/app/history/work");
    assert_eq!(cache_dir_in(dir), "/home/alice/.config/app/cache");
    assert_eq!(editting_message_dir_in(dir), "/home/alice/.config/app/cache/editting_message");
    assert_eq!(
        editting_message_file_in(dir),
        "/home/alice/.config/app/cache/editting_message/EDITTING_MESSAGE"
    );
}

#[test]
fn paths_of_the_running_user_hang_together() {
    match get_path_config_dir() {
        Ok(dir) => {
            assert!(dir.ends_with(APP_NAME));
            assert_eq!(get_path_config_file(), Ok(config_file_in(&dir)));
            assert_eq!(get_path_pre_messages_dir(), Ok(pre_messages_dir_in(&dir)));
            assert_eq!(
                get_path_profile_pre_messages_dir("p"),
                Ok(profile_pre_messages_dir_in(&dir, "p"))
            );
            assert_eq!(get_path_history_dir(), Ok(history_dir_in(&dir)));
            assert_eq!(get_path_profile_history_dir("p"), Ok(profile_history_dir_in(&dir, "p")));
            assert_eq!(get_path_cache_dir(), Ok(cache_dir_in(&dir)));
            assert_eq!(get_path_editting_message_dir(), Ok(editting_message_dir_in(&dir)));
            assert_eq!(get_path_editting_message_file(), Ok(editting_message_file_in(&dir)));
        }
        Err(e) => {
            assert_eq!(e, Error::NoHomeDirectory);
            assert_eq!(get_path_config_file(), Err(Error::NoHomeDirectory));
            assert_eq!(get_path_profile_history_dir("p"), Err(Error::NoHomeDirectory));
        }
    }
}

#[test]
fn path_command_shows_a_directory_or_that_of_a_profile() {
    assert_eq!(CmdPath::scoped("/cfg/history".to_string(), None), "/cfg/history");
    assert_eq!(CmdPath::scoped("/cfg/history".to_string(), Some("work")), "/cfg/history/work");
    assert_eq!(CmdPath::NAME, "path");
    assert_eq!(CmdPrompt::NAME, "prompt");
}
