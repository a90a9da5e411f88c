use cryptopanic_fetcher::{
    list_preferences, manage_configuration, run_configure, ApplicationError, ConfigureAction,
    ConfigureEvent, ConfigureOptions, ConfigureState, ConfigureStep, Preferences,
};

fn options(api_token: Option<&str>, data_dir: Option<&str>, list: bool) -> ConfigureOptions {
    ConfigureOptions {
        api_token: api_token.map(|s| s.to_string()),
        data_dir: data_dir.map(|s| s.to_string()),
        list,
    }
}

fn stored() -> Preferences {
    let mut prefs = Preferences::new();
    prefs.set("api-token", "old");
    prefs.set("data-dir", "/old");
    prefs
}

#[test]
fn configure_without_options_changes_and_prints_nothing() {
    let mut prefs = stored();
    let nothing = options(None, None, false);
    assert_eq!(manage_configuration(&mut prefs, &nothing).unwrap(), false);
    assert_eq!(prefs.to_pairs(), stored().to_pairs());
    assert!(list_preferences(&prefs, &nothing).is_empty());

    let mut empty = Preferences::new();
    assert_eq!(manage_configuration(&mut empty, &nothing).unwrap(), false);
    assert_eq!(empty.len(), 0);
    assert!(list_preferences(&empty, &nothing).is_empty());
}

#[test]
fn configure_token_sets_persists_and_lists() {
    let mut prefs = Preferences::new();
    let changed = manage_configuration(&mut prefs, &options(Some("TOKEN"), None, false)).unwrap();
    assert!(changed);
    assert_eq!(prefs.get("api-token"), Some("TOKEN".to_string()));

    let list = options(None, None, true);
    assert_eq!(manage_configuration(&mut prefs, &list).unwrap(), false);
    assert_eq!(list_preferences(&prefs, &list), vec!["api-token=TOKEN".to_string()]);
}

#[test]
fn configure_same_token_needs_no_write() {
    let mut prefs = Preferences::new();
    let set = options(Some("TOKEN"), None, false);
    assert_eq!(manage_configuration(&mut prefs, &set).unwrap(), true);
    assert_eq!(manage_configuration(&mut prefs, &set).unwrap(), false);
    assert_eq!(prefs.get("api-token"), Some("TOKEN".to_string()));
}

#[test]
fn configure_data_dir_alone() {
    let mut prefs = stored();
    let changed = manage_configuration(&mut prefs, &options(None, Some("/new"), false)).unwrap();
    assert!(changed);
    assert_eq!(prefs.get("data-dir"), Some("/new".to_string()));
    assert_eq!(prefs.get("api-token"), Some("old".to_string()));
}

#[test]
fn configure_both_values_one_changed() {
    let mut prefs = stored();
    let changed =
        manage_configuration(&mut prefs, &options(Some("old"), Some("/new"), false)).unwrap();
    assert!(changed);
    let changed =
        manage_configuration(&mut prefs, &options(Some("old"), Some("/new"), false)).unwrap();
    assert!(!changed);
    let changed =
        manage_configuration(&mut prefs, &options(Some("new"), Some("/new"), false)).unwrap();
    assert!(changed);
    assert_eq!(prefs.get("api-token"), Some("new".to_string()));
    assert_eq!(prefs.get("data-dir"), Some("/new".to_string()));
}

#[test]
fn listing_is_independent_of_change() {
    let mut prefs = stored();
    let both = options(Some("fresh"), None, true);
    assert!(manage_configuration(&mut prefs, &both).unwrap());
    assert_eq!(
        list_preferences(&prefs, &both),
        vec!["api-token=fresh".to_string(), "data-dir=/old".to_string()]
    );
    let only_list = options(None, None, true);
    assert!(!manage_configuration(&mut prefs, &only_list).unwrap());
    assert_eq!(
        list_preferences(&prefs, &only_list),
        vec!["api-token=fresh".to_string(), "data-dir=/old".to_string()]
    );
}

#[test]
fn listing_passes_unknown_keys_through() {
    let mut prefs = Preferences::new();
    prefs.set("colour", "blue");
    prefs.set("api-token", "t");
    prefs.set("empty", "");
    let lines = list_preferences(&prefs, &options(None, None, true));
    assert_eq!(
        lines,
        vec!["colour=blue".to_string(), "api-token=t".to_string(), "empty=".to_string()]
    );
}

#[test]
fn listing_of_empty_preferences_is_empty() {
    let prefs = Preferences::new();
    assert!(list_preferences(&prefs, &options(None, None, true)).is_empty());
}

#[test]
fn new_token_is_added_after_existing_keys() {
    let mut prefs = Preferences::new();
    prefs.set("data-dir", "/d");
    manage_configuration(&mut prefs, &options(Some("t"), None, false)).unwrap();
    assert_eq!(
        list_preferences(&prefs, &options(None, None, true)),
        vec!["data-dir=/d".to_string(), "api-token=t".to_string()]
    );
}

fn begin(prefs: &mut Preferences, options: &ConfigureOptions) -> ConfigureStep {
    run_configure(prefs, options, ConfigureState::Idle, ConfigureEvent::Begin)
}

#[test]
fn run_without_options_stops_at_once() {
    let mut prefs = stored();
    let step = begin(&mut prefs, &options(None, None, false));
    assert_eq!(
        step,
        ConfigureStep {
            state: ConfigureState::Done(Ok(())),
            output: vec![],
            action: ConfigureAction::Stop,
        }
    );
    assert_eq!(prefs.to_pairs(), stored().to_pairs());
}

#[test]
fn run_with_new_token_saves_then_lists() {
    let mut prefs = Preferences::new();
    let set = options(Some("TOKEN"), None, true);
    let first = begin(&mut prefs, &set);
    assert_eq!(
        first,
        ConfigureStep {
            state: ConfigureState::AwaitingSave,
            output: vec![],
            action: ConfigureAction::Save,
        }
    );
    assert_eq!(prefs.get("api-token"), Some("TOKEN".to_string()));
    let second = run_configure(&mut prefs, &set, first.state, ConfigureEvent::Saved);
    assert_eq!(
        second,
        ConfigureStep {
            state: ConfigureState::Done(Ok(())),
            output: vec!["api-token=TOKEN".to_string()],
            action: ConfigureAction::Stop,
        }
    );
    assert_eq!(prefs.get("api-token"), Some("TOKEN".to_string()));

    let list = options(None, None, true);
    let later = begin(&mut prefs, &list);
    assert_eq!(later.action, ConfigureAction::Stop);
    assert_eq!(later.output, vec!["api-token=TOKEN".to_string()]);
}

#[test]
fn run_with_stored_token_saves_nothing() {
    let mut prefs = stored();
    let step = begin(&mut prefs, &options(Some("old"), Some("/old"), true));
    assert_eq!(step.action, ConfigureAction::Stop);
    assert_eq!(step.state, ConfigureState::Done(Ok(())));
    assert_eq!(
        step.output,
        vec!["api-token=old".to_string(), "data-dir=/old".to_string()]
    );
}

#[test]
fn failed_save_ends_the_run_without_listing() {
    let mut prefs = Preferences::new();
    let set = options(None, Some("/d"), true);
    let first = begin(&mut prefs, &set);
    assert_eq!(first.action, ConfigureAction::Save);
    for event in [ConfigureEvent::Failed, ConfigureEvent::Begin] {
        let second = run_configure(&mut prefs, &set, first.state, event);
        assert_eq!(
            second,
            ConfigureStep {
                state: ConfigureState::Done(Err(ApplicationError::PreferencesSaveError)),
                output: vec![],
                action: ConfigureAction::Stop,
            }
        );
    }
}

#[test]
fn finished_configure_stays_finished() {
    let mut prefs = stored();
    let set = options(Some("other"), None, true);
    for done in [
        ConfigureState::Done(Ok(())),
        ConfigureState::Done(Err(ApplicationError::PreferencesSaveError)),
    ] {
        let step = run_configure(&mut prefs, &set, done, ConfigureEvent::Saved);
        assert_eq!(
            step,
            ConfigureStep { state: done, output: vec![], action: ConfigureAction::Stop }
        );
    }
    assert_eq!(prefs.to_pairs(), stored().to_pairs());
}
