use chatgpt_cli::api::Role;
use chatgpt_cli::error::Error;
use chatgpt_cli::listing::{
    extension, file_kind, kind_for_extension, role_for, role_of_file, sort_names, FileKind, Scope,
};
use chatgpt_cli::loader::{fits, Loaded, Loader, Pending};
use chatgpt_cli::messages::{RawSavedMessage, SavedMessage};

fn names(list: &[&str]) -> Vec<String> {
    list.iter().map(|s| s.to_string()).collect()
}

fn user_record(text: &str) -> RawSavedMessage {
    RawSavedMessage { system: None, assistant: None, user: Some(text.to_string()) }
}

fn assistant_record(text: &str) -> RawSavedMessage {
    RawSavedMessage { system: None, assistant: Some(text.to_string()), user: None }
}

#[test]
fn missing_directory_gives_no_messages() {
    let loader = Loader::new(Scope::PreMessages, "/home/u/.config/app/pre_messages/p", Vec::new());
    assert_eq!(loader.pending(), None);
    assert_eq!(loader.finish(), Vec::new());
    let loader = Loader::new(Scope::History, "/nowhere", Vec::new());
    assert_eq!(loader.feed_all(Vec::new()), Some(Ok(Vec::new())));
}

#[test]
fn json_then_text_in_the_order_of_the_names() {
    let mut loader = Loader::new(Scope::PreMessages, "dir", names(&["system.txt", "a.json"]));
    assert_eq!(loader.names(), &names(&["a.json", "system.txt"]));
    assert_eq!(
        loader.pending(),
        Some(Pending {
            name: "a.json".to_string(),
            path: "dir/a.json".to_string(),
            kind: FileKind::Json
        })
    );
    let parsed = vec![
        SavedMessage::User("hi".to_string()),
        SavedMessage::Assistant("hello".to_string()),
    ];
    assert_eq!(loader.feed(Loaded::Messages(parsed)), Ok(()));
    assert_eq!(
        loader.pending(),
        Some(Pending {
            name: "system.txt".to_string(),
            path: "dir/system.txt".to_string(),
            kind: FileKind::Text
        })
    );
    assert_eq!(loader.feed(Loaded::Text("You are helpful.".to_string())), Ok(()));
    assert_eq!(loader.pending(), None);
    assert_eq!(
        loader.finish(),
        vec![
            SavedMessage::User("hi".to_string()),
            SavedMessage::Assistant("hello".to_string()),
            SavedMessage::System("You are helpful.".to_string()),
        ]
    );
}

#[test]
fn whole_load_in_one_call() {
    let loader = Loader::new(Scope::PreMessages, "dir", names(&["system.txt", "a.json"]));
    let contents = vec![
        Loaded::Messages(vec![
            SavedMessage::User("hi".to_string()),
            SavedMessage::Assistant("hello".to_string()),
        ]),
        Loaded::Text("You are helpful.".to_string()),
    ];
    assert_eq!(
        loader.feed_all(contents),
        Some(Ok(vec![
            SavedMessage::User("hi".to_string()),
            SavedMessage::Assistant("hello".to_string()),
            SavedMessage::System("You are helpful.".to_string()),
        ]))
    );
}

#[test]
fn yaml_record_without_a_field_fails_the_load() {
    let mut loader = Loader::new(Scope::PreMessages, "dir", names(&["a.yaml"]));
    let records = vec![
        user_record("hi"),
        RawSavedMessage { system: None, assistant: None, user: None },
    ];
    assert_eq!(loader.feed(Loaded::Records(records)), Err(Error::EmptyMessageRecord));
    assert_eq!(loader.pending().map(|p| p.name), Some("a.yaml".to_string()));
    assert_eq!(loader.finish(), Vec::new());
}

#[test]
fn yaml_records_become_messages() {
    let mut loader = Loader::new(Scope::PreMessages, "dir", names(&["b.YML", "a.yaml"]));
    assert_eq!(loader.pending().map(|p| p.kind), Some(FileKind::Yaml));
    assert_eq!(loader.feed(Loaded::Records(vec![user_record("one")])), Ok(()));
    assert_eq!(loader.pending().map(|p| p.name), Some("b.YML".to_string()));
    assert_eq!(loader.pending().map(|p| p.kind), Some(FileKind::Yaml));
    assert_eq!(loader.feed(Loaded::Records(vec![assistant_record("two")])), Ok(()));
    assert_eq!(
        loader.finish(),
        vec![SavedMessage::User("one".to_string()), SavedMessage::Assistant("two".to_string())]
    );
}

#[test]
fn text_file_without_a_role_in_its_name_is_skipped() {
    let mut loader = Loader::new(Scope::PreMessages, "dir", names(&["notes.txt", "My-USER.md"]));
    assert_eq!(loader.pending().map(|p| p.name), Some("My-USER.md".to_string()));
    assert_eq!(loader.feed(Loaded::Text("question".to_string())), Ok(()));
    assert_eq!(loader.pending().map(|p| p.name), Some("notes.txt".to_string()));
    assert_eq!(loader.feed(Loaded::Text("ignored".to_string())), Ok(()));
    assert_eq!(loader.pending(), None);
    assert_eq!(loader.finish(), vec![SavedMessage::User("question".to_string())]);
}

#[test]
fn unreadable_file_is_reported_with_its_path() {
    let mut loader = Loader::new(Scope::PreMessages, "/cfg/pre", names(&["a.json"]));
    assert_eq!(
        loader.feed(Loaded::Unreadable("permission denied".to_string())),
        Err(Error::UnreadableFile {
            path: "/cfg/pre/a.json".to_string(),
            cause: "permission denied".to_string()
        })
    );
}

#[test]
fn unparseable_file_is_reported_with_its_path() {
    let mut loader = Loader::new(Scope::History, "/cfg/history/p", names(&["1700000000.yaml"]));
    assert_eq!(
        loader.feed(Loaded::Unparseable("bad indent".to_string())),
        Err(Error::UnparseableContent {
            path: "/cfg/history/p/1700000000.yaml".to_string(),
            cause: "bad indent".to_string()
        })
    );
}

#[test]
fn first_failure_ends_the_whole_load() {
    let loader = Loader::new(Scope::History, "h", names(&["2.yaml", "1.yaml", "3.yaml"]));
    let contents = vec![
        Loaded::Records(vec![user_record("a")]),
        Loaded::Unparseable("first".to_string()),
        Loaded::Unreadable("second".to_string()),
    ];
    assert_eq!(
        loader.feed_all(contents),
        Some(Err(Error::UnparseableContent {
            path: "h/2.yaml".to_string(),
            cause: "first".to_string()
        }))
    );
}

#[test]
fn history_files_are_always_yaml() {
    assert_eq!(file_kind(Scope::History, "1700000000.yaml"), FileKind::Yaml);
    assert_eq!(file_kind(Scope::History, "notes.json"), FileKind::Yaml);
    assert_eq!(file_kind(Scope::History, "system"), FileKind::Yaml);
    let loader = Loader::new(Scope::History, "h", names(&["2.yaml", "10.yaml"]));
    let contents = vec![
        Loaded::Records(vec![user_record("ten"), assistant_record("TEN")]),
        Loaded::Records(vec![user_record("two"), assistant_record("TWO")]),
    ];
    assert_eq!(
        loader.feed_all(contents),
        Some(Ok(vec![
            SavedMessage::User("ten".to_string()),
            SavedMessage::Assistant("TEN".to_string()),
            SavedMessage::User("two".to_string()),
            SavedMessage::Assistant("TWO".to_string()),
        ]))
    );
}

#[test]
fn kind_goes_by_the_lower_cased_extension() {
    assert_eq!(file_kind(Scope::PreMessages, "a.json"), FileKind::Json);
    assert_eq!(file_kind(Scope::PreMessages, "A.JSON"), FileKind::Json);
    assert_eq!(file_kind(Scope::PreMessages, "a.Yaml"), FileKind::Yaml);
    assert_eq!(file_kind(Scope::PreMessages, "a.yml"), FileKind::Yaml);
    assert_eq!(file_kind(Scope::PreMessages, "a.txt"), FileKind::Text);
    assert_eq!(file_kind(Scope::PreMessages, "system"), FileKind::Text);
    assert_eq!(file_kind(Scope::PreMessages, ".json"), FileKind::Text);
    assert_eq!(file_kind(Scope::PreMessages, "a.json.bak"), FileKind::Text);
    assert_eq!(file_kind(Scope::PreMessages, "a.tar.json"), FileKind::Json);
}

#[test]
fn kind_for_a_normalized_extension() {
    assert_eq!(kind_for_extension(&Some("json".to_string())), FileKind::Json);
    assert_eq!(kind_for_extension(&Some("yaml".to_string())), FileKind::Yaml);
    assert_eq!(kind_for_extension(&Some("yml".to_string())), FileKind::Yaml);
    assert_eq!(kind_for_extension(&Some("JSON".to_string())), FileKind::Text);
    assert_eq!(kind_for_extension(&Some("".to_string())), FileKind::Text);
    assert_eq!(kind_for_extension(&None), FileKind::Text);
}

#[test]
fn extension_is_what_follows_the_last_dot() {
    assert_eq!(extension("a.json"), Some("json".to_string()));
    assert_eq!(extension("a.tar.gz"), Some("gz".to_string()));
    assert_eq!(extension("a."), Some("".to_string()));
    assert_eq!(extension("a"), None);
    assert_eq!(extension(""), None);
    assert_eq!(extension(".hidden"), None);
    assert_eq!(extension(".hidden.txt"), Some("txt".to_string()));
    assert_eq!(extension(".."), None);
    assert_eq!(extension("..."), Some("".to_string()));
    assert_eq!(extension("é.ñ"), Some("ñ".to_string()));
}

#[test]
fn extension_agrees_with_the_standard_library() {
    for name in ["a.json", "a.tar.gz", "a.", "a", ".hidden", ".hidden.txt", "..", "...", "x.y.z"] {
        let expected = std::path::Path::new(name)
            .extension()
            .map(|e| e.to_str().unwrap().to_string());
        assert_eq!(extension(name), expected);
    }
}

#[test]
fn role_is_looked_for_in_fixed_order() {
    assert_eq!(role_for("system.txt"), Some(Role::System));
    assert_eq!(role_for("01_assistant"), Some(Role::Assistant));
    assert_eq!(role_for("my user notes"), Some(Role::User));
    assert_eq!(role_for("user_of_system"), Some(Role::System));
    assert_eq!(role_for("user-assistant"), Some(Role::Assistant));
    assert_eq!(role_for("notes.txt"), None);
    assert_eq!(role_for("SYSTEM"), None);
    assert_eq!(role_for(""), None);
}

#[test]
fn role_of_a_file_sets_case_aside() {
    assert_eq!(role_of_file("SYSTEM.txt"), Some(Role::System));
    assert_eq!(role_of_file("Assistant.md"), Some(Role::Assistant));
    assert_eq!(role_of_file("uSeR"), Some(Role::User));
    assert_eq!(role_of_file("readme"), None);
}

#[test]
fn names_are_sorted_like_a_dictionary() {
    assert_eq!(
        sort_names(names(&["b", "a", "ab", "", "B", "a.json", "10", "9", "system.txt"])),
        names(&["", "10", "9", "B", "a", "a.json", "ab", "b", "system.txt"])
    );
    assert_eq!(sort_names(Vec::new()), Vec::<String>::new());
    assert_eq!(sort_names(names(&["x", "x"])), names(&["x", "x"]));
}

#[test]
fn sort_agrees_with_the_standard_library() {
    let given = names(&["é", "z", "e", "zz", "Z", "日本", "a-b", "a/b", "a b", "ab"]);
    let mut expected = given.clone();
    expected.sort();
    assert_eq!(sort_names(given), expected);
}

#[test]
fn loaded_values_fit_their_kind() {
    assert!(fits(FileKind::Json, &Loaded::Messages(Vec::new())));
    assert!(!fits(FileKind::Yaml, &Loaded::Messages(Vec::new())));
    assert!(fits(FileKind::Yaml, &Loaded::Records(Vec::new())));
    assert!(!fits(FileKind::Text, &Loaded::Records(Vec::new())));
    assert!(fits(FileKind::Text, &Loaded::Text(String::new())));
    assert!(!fits(FileKind::Json, &Loaded::Text(String::new())));
    assert!(fits(FileKind::Text, &Loaded::Unreadable(String::new())));
    assert!(fits(FileKind::Json, &Loaded::Unparseable(String::new())));
    assert!(!fits(FileKind::Text, &Loaded::Unparseable(String::new())));
}

#[test]
fn what_does_not_fit_the_pending_file_is_not_taken() {
    let mut loader = Loader::new(Scope::PreMessages, "dir", names(&["a.json"]));
    assert_eq!(loader.try_feed(Loaded::Text("plain".to_string())), None);
    assert_eq!(loader.try_feed(Loaded::Records(Vec::new())), None);
    assert_eq!(loader.pending().map(|p| p.name), Some("a.json".to_string()));
    assert_eq!(
        loader.try_feed(Loaded::Messages(vec![SavedMessage::User("hi".to_string())])),
        Some(Ok(()))
    );
    assert_eq!(loader.pending(), None);
    assert_eq!(loader.try_feed(Loaded::Messages(Vec::new())), None);
    assert_eq!(loader.try_feed(Loaded::Unreadable("late".to_string())), None);
    assert_eq!(loader.finish(), vec![SavedMessage::User("hi".to_string())]);
}

#[test]
fn try_feed_reports_the_failure_of_a_file() {
    let mut loader = Loader::new(Scope::History, "h", names(&["1.yaml"]));
    assert_eq!(
        loader.try_feed(Loaded::Unreadable("gone".to_string())),
        Some(Err(Error::UnreadableFile { path: "h/1.yaml".to_string(), cause: "gone".to_string() }))
    );
    assert_eq!(loader.pending().map(|p| p.name), Some("1.yaml".to_string()));
}

#[test]
fn contents_that_do_not_fit_the_files_are_not_run() {
    let loader = Loader::new(Scope::PreMessages, "dir", names(&["a.json", "b.txt"]));
    assert_eq!(loader.feed_all(vec![Loaded::Messages(Vec::new())]), None);
    let loader = Loader::new(Scope::PreMessages, "dir", names(&["a.json", "b.txt"]));
    assert_eq!(
        loader.feed_all(vec![Loaded::Unreadable("x".to_string()), Loaded::Records(Vec::new())]),
        None
    );
    let loader = Loader::new(Scope::PreMessages, "dir", Vec::new());
    assert_eq!(loader.feed_all(vec![Loaded::Text(String::new())]), None);
}

#[test]
fn a_load_runs_on_from_where_it_stands() {
    let mut loader = Loader::new(Scope::PreMessages, "dir", names(&["b-user", "a-system"]));
    assert_eq!(loader.feed(Loaded::Text("rules".to_string())), Ok(()));
    assert_eq!(
        loader.feed_all(vec![Loaded::Text("question".to_string())]),
        Some(Ok(vec![
            SavedMessage::System("rules".to_string()),
            SavedMessage::User("question".to_string()),
        ]))
    );
}
