use chatgpt_cli::cmd::{CmdConfigure, CmdPrompt, Overrides};
use chatgpt_cli::config::{find_profile, Config, Fraction, Profile};
use chatgpt_cli::error::Error;

fn bare(name: &str) -> Profile {
    Profile {
        name: name.to_string(),
        source_profile: None,
        api_key: None,
        organization_id: None,
        use_history: None,
        model: None,
        temperature: None,
        top_p: None,
        max_tokens: None,
        presence_penalty: None,
        frequency_penalty: None,
        user: None,
    }
}

fn fraction(value: f32) -> Fraction {
    Fraction { bits: value.to_bits() }
}

fn with_source(name: &str, source: &str) -> Profile {
    let mut p = bare(name);
    p.source_profile = Some(source.to_string());
    p
}

#[test]
fn self_contained_profile_resolves_to_itself() {
    let mut p = bare("default");
    p.api_key = Some("sk-1".to_string());
    p.model = Some("gpt-4".to_string());
    p.temperature = Some(fraction(0.5));
    let other = with_source("other", "default");
    let list = vec![p.clone(), other];
    assert_eq!(p.resolve(&list), Ok(p.clone()));
    assert_eq!(p.resolve(&[]), Ok(p));
}

#[test]
fn profile_without_key_and_source_is_refused() {
    let p = bare("default");
    let mut rich = bare("rich");
    rich.api_key = Some("sk-1".to_string());
    assert_eq!(p.resolve(&[rich]), Err(Error::MissingCredential));
    assert_eq!(p.resolve(&[]), Err(Error::MissingCredential));
}

#[test]
fn dangling_source_ends_the_walk() {
    let p = with_source("work", "missing");
    assert_eq!(p.resolve(&[p.clone()]), Err(Error::MissingCredential));
    let mut keyed = with_source("work", "missing");
    keyed.api_key = Some("sk-2".to_string());
    assert_eq!(keyed.resolve(&[keyed.clone()]), Ok(keyed.clone()));
}

#[test]
fn nearest_ancestor_wins_field_by_field() {
    let mut child = with_source("child", "parent");
    child.model = Some("child-model".to_string());
    let mut parent = with_source("parent", "grand");
    parent.model = Some("parent-model".to_string());
    parent.temperature = Some(fraction(0.25));
    parent.use_history = Some(false);
    let mut grand = bare("grand");
    grand.api_key = Some("sk-grand".to_string());
    grand.temperature = Some(fraction(0.75));
    grand.top_p = Some(fraction(0.5));
    grand.max_tokens = Some(128);
    grand.presence_penalty = Some(fraction(1.0));
    grand.frequency_penalty = Some(fraction(-1.0));
    grand.user = Some("someone".to_string());
    grand.organization_id = Some("org-1".to_string());
    grand.use_history = Some(true);
    let list = vec![grand.clone(), child.clone(), parent.clone()];

    let resolved = child.resolve(&list).unwrap();
    assert_eq!(resolved.name, "child");
    assert_eq!(resolved.source_profile, Some("parent".to_string()));
    assert_eq!(resolved.model, Some("child-model".to_string()));
    assert_eq!(resolved.temperature, Some(fraction(0.25)));
    assert_eq!(resolved.use_history, Some(false));
    assert_eq!(resolved.api_key, Some("sk-grand".to_string()));
    assert_eq!(resolved.top_p, Some(fraction(0.5)));
    assert_eq!(resolved.max_tokens, Some(128));
    assert_eq!(resolved.presence_penalty, Some(fraction(1.0)));
    assert_eq!(resolved.frequency_penalty, Some(fraction(-1.0)));
    assert_eq!(resolved.user, Some("someone".to_string()));
    assert_eq!(resolved.organization_id, Some("org-1".to_string()));
}

#[test]
fn model_is_inherited_without_a_temperature() {
    let child = with_source("child", "parent");
    let mut parent = bare("parent");
    parent.api_key = Some("sk".to_string());
    parent.model = Some("gpt-4".to_string());
    let resolved = child.resolve(&[child.clone(), parent]).unwrap();
    assert_eq!(resolved.model, Some("gpt-4".to_string()));
    assert_eq!(resolved.temperature, None);
}

#[test]
fn chain_without_any_key_is_refused() {
    let child = with_source("child", "parent");
    let mut parent = bare("parent");
    parent.model = Some("gpt-4".to_string());
    assert_eq!(child.resolve(&[child.clone(), parent]), Err(Error::MissingCredential));
}

#[test]
fn resolving_twice_changes_nothing() {
    let child = with_source("child", "parent");
    let mut parent = bare("parent");
    parent.api_key = Some("sk".to_string());
    parent.user = Some("u".to_string());
    let list = vec![child.clone(), parent];
    let once = child.resolve(&list).unwrap();
    let twice = once.resolve(&list).unwrap();
    assert_eq!(once, twice);
}

#[test]
fn cycle_of_two_is_reported() {
    let a = with_source("a", "b");
    let b = with_source("b", "a");
    let list = vec![a.clone(), b];
    assert_eq!(a.resolve(&list), Err(Error::CyclicProfileChain));
}

#[test]
fn cycle_is_reported_even_with_a_key() {
    let mut a = with_source("a", "a");
    a.api_key = Some("sk".to_string());
    assert_eq!(a.resolve(&[a.clone()]), Err(Error::CyclicProfileChain));
}

#[test]
fn chain_through_every_profile_is_no_cycle() {
    let a = with_source("a", "b");
    let b = with_source("b", "c");
    let mut c = bare("c");
    c.api_key = Some("sk-c".to_string());
    let list = vec![c, b, a.clone()];
    assert_eq!(a.resolve(&list).unwrap().api_key, Some("sk-c".to_string()));
}

#[test]
fn first_profile_of_a_name_is_the_one_found() {
    let mut first = bare("dup");
    first.api_key = Some("first".to_string());
    let mut second = bare("dup");
    second.api_key = Some("second".to_string());
    let list = vec![bare("x"), first, second];
    assert_eq!(find_profile(&list, "dup"), Some(1));
    assert_eq!(find_profile(&list, "nobody"), None);
    let child = with_source("child", "dup");
    assert_eq!(child.resolve(&list).unwrap().api_key, Some("first".to_string()));
}

#[test]
fn merge_fills_only_what_is_absent() {
    let mut work = bare("work");
    work.api_key = Some("mine".to_string());
    work.max_tokens = Some(1);
    let mut from = bare("from");
    from.api_key = Some("theirs".to_string());
    from.max_tokens = Some(2);
    from.model = Some("m".to_string());
    from.source_profile = Some("elsewhere".to_string());
    work.merge(&from);
    assert_eq!(work.name, "work");
    assert_eq!(work.source_profile, None);
    assert_eq!(work.api_key, Some("mine".to_string()));
    assert_eq!(work.max_tokens, Some(1));
    assert_eq!(work.model, Some("m".to_string()));
}

#[test]
fn new_store_is_empty() {
    let config = Config::new();
    assert!(config.profile.is_empty());
    assert_eq!(config.get_profile("default", false), Ok(None));
    assert_eq!(config.get_profile("default", true), Ok(None));
}

#[test]
fn upsert_appends_then_replaces() {
    let mut config = Config::new();
    let mut a = bare("a");
    a.api_key = Some("1".to_string());
    config.upsert_profile(a.clone());
    config.upsert_profile(bare("b"));
    assert_eq!(config.profile.len(), 2);
    let mut a2 = bare("a");
    a2.api_key = Some("2".to_string());
    config.upsert_profile(a2.clone());
    assert_eq!(config.profile.len(), 2);
    assert_eq!(config.profile[0], a2);
    assert_eq!(config.profile[1], bare("b"));
}

#[test]
fn get_profile_plain_and_resolved() {
    let mut config = Config::new();
    let child = with_source("child", "parent");
    let mut parent = bare("parent");
    parent.api_key = Some("sk".to_string());
    config.upsert_profile(child.clone());
    config.upsert_profile(parent);
    assert_eq!(config.get_profile("child", false), Ok(Some(child)));
    let resolved = config.get_profile("child", true).unwrap().unwrap();
    assert_eq!(resolved.api_key, Some("sk".to_string()));
    config.upsert_profile(bare("empty"));
    assert_eq!(config.get_profile("empty", true), Err(Error::MissingCredential));
    assert_eq!(config.get_profile("empty", false), Ok(Some(bare("empty"))));
}

#[test]
fn select_reports_an_unknown_profile() {
    let mut config = Config::new();
    let mut p = bare("default");
    p.api_key = Some("sk".to_string());
    config.upsert_profile(p.clone());
    assert_eq!(CmdPrompt::select(&config, "default"), Ok(p));
    assert_eq!(
        CmdPrompt::select(&config, "other"),
        Err(Error::ProfileNotFound("other".to_string()))
    );
    config.upsert_profile(bare("keyless"));
    assert_eq!(CmdPrompt::select(&config, "keyless"), Err(Error::MissingCredential));
}

#[test]
fn overrides_go_before_the_profile() {
    let mut p = bare("default");
    p.temperature = Some(fraction(0.1));
    p.user = Some("own".to_string());
    p.max_tokens = Some(10);
    let overrides = Overrides {
        temperature: Some(fraction(0.9)),
        top_p: None,
        max_tokens: None,
        presence_penalty: Some(fraction(0.5)),
        frequency_penalty: None,
        user: Some("given".to_string()),
    };
    let r = CmdPrompt::apply(p, &overrides);
    assert_eq!(r.temperature, Some(fraction(0.9)));
    assert_eq!(r.top_p, None);
    assert_eq!(r.max_tokens, Some(10));
    assert_eq!(r.presence_penalty, Some(fraction(0.5)));
    assert_eq!(r.user, Some("given".to_string()));
    assert_eq!(r.name, "default");
}

#[test]
fn configure_edits_the_stored_profile_or_a_blank_one() {
    let mut config = Config::new();
    let mut p = bare("default");
    p.model = Some("gpt-4".to_string());
    config.upsert_profile(p.clone());
    assert_eq!(CmdConfigure::profile_to_edit(&config, "default"), p);
    assert_eq!(CmdConfigure::profile_to_edit(&config, "fresh"), bare("fresh"));
    assert_eq!(CmdConfigure::NAME, "configure");
}
