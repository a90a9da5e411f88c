//! The `configure` command: what it changes in the preferences and what it
//! lists.

use crate::consts::{API_TOKEN, DATA_DIR};
use crate::error::ApplicationError;
use crate::preferences::{
    distinct_keys, entries_map, entries_set, lemma_entries_map_keys, lemma_entries_set, Entry,
    Preferences,
};
use vstd::prelude::*;
use vstd::string::StringExecFns;

verus! {

/// `std::io::Error`. `manage_configuration` names it as the failure that it
/// never reports.
#[verifier::external_type_specification]
#[verifier::external_body]
pub struct ExIoError(std::io::Error);

/// What was given on the command line of `configure`.
#[derive(Debug, Clone)]
pub struct ConfigureOptions {
    /// The API token to store, where one was given.
    pub api_token: Option<String>,
    /// The data directory to store, where one was given.
    pub data_dir: Option<String>,
    /// Whether the preferences are to be listed.
    pub list: bool,
}

/// The entries after the options of `configure` have been applied to
/// `entries`: first the API token, then the data directory, each where given.
pub open spec fn configured(entries: Seq<Entry>, options: ConfigureOptions) -> Seq<Entry> {
    let with_token = match options.api_token {
        Some(token) => entries_set(entries, API_TOKEN@, token@),
        None => entries,
    };
    match options.data_dir {
        Some(dir) => entries_set(with_token, DATA_DIR@, dir@),
        None => with_token,
    }
}

/// Whether `configure` has to persist the preferences: whether the options
/// make another mapping of them.
pub open spec fn persisted(entries: Seq<Entry>, options: ConfigureOptions) -> bool {
    entries_map(configured(entries, options)) != entries_map(entries)
}

/// The line that lists one entry: the key, `=`, the value.
pub open spec fn entry_line(entry: Entry) -> Seq<char> {
    entry.0 + "="@ + entry.1
}

/// The lines that `configure` prints: one for each entry if a listing was
/// asked for, else none.
pub open spec fn listing(entries: Seq<Entry>, options: ConfigureOptions) -> Seq<Seq<char>> {
    if options.list {
        Seq::new(entries.len(), |i: int| entry_line(entries[i]))
    } else {
        Seq::empty()
    }
}

/// Applies the value options to the preferences. The result is always `Ok`
/// and tells whether the mapping is now another than before, that is,
/// whether it has to be persisted.
pub fn manage_configuration(prefs: &mut Preferences, options: &ConfigureOptions) -> (outcome:
    Result<bool, std::io::Error>)
    ensures
        final(prefs).entries() == configured(old(prefs).entries(), *options),
        outcome matches Ok(changed) && changed == persisted(old(prefs).entries(), *options),
{
    let mut changed = false;
    if let Some(token) = &options.api_token {
        if prefs.set(API_TOKEN, token.as_str()) {
            changed = true;
        }
    }
    if let Some(dir) = &options.data_dir {
        if prefs.set(DATA_DIR, dir.as_str()) {
            changed = true;
        }
    }
    proof {
        // The two keys differ, so the second change cannot undo the first.
        reveal_strlit("api-token");
        reveal_strlit("data-dir");
        assert(API_TOKEN@[0] != DATA_DIR@[0]);
    }
    Ok(changed)
}

/// The lines to print for `configure`: `key=value` for each preference, in
/// the order of the entries, where a listing was asked for.
pub fn list_preferences(prefs: &Preferences, options: &ConfigureOptions) -> (lines: Vec<String>)
    ensures
        lines.deep_view() == listing(prefs.entries(), *options),
{
    let mut lines: Vec<String> = Vec::new();
    if options.list {
        let pairs = prefs.to_pairs();
        let mut at: usize = 0;
        while at < pairs.len()
            invariant
                at <= pairs.len(),
                lines@.len() == at,
                forall|i: int| 0 <= i < at ==> lines@[i]@ == entry_line(#[trigger] pairs.deep_view()[i]),
            decreases pairs.len() - at,
        {
            let line = pairs[at].0.clone().concat("=").concat(pairs[at].1.as_str());
            lines.push(line);
            at += 1;
        }
    }
    lines
}

/// How far a run of `configure` has come.
#[derive(Debug, Clone, Copy, PartialEq, Eq)]
pub enum ConfigureState {
    /// Nothing has been done yet.
    Idle,
    /// The caller persists the preferences.
    AwaitingSave,
    /// The run has ended, well or with a failure.
    Done(Result<(), ApplicationError>),
}

/// What the caller reports to the run.
#[derive(Debug, Clone, Copy, PartialEq, Eq, Structural)]
pub enum ConfigureEvent {
    /// The command was given.
    Begin,
    /// The preferences were persisted.
    Saved,
    /// The preferences could not be persisted.
    Failed,
}

/// What the caller is to do next.
#[derive(Debug, Clone, Copy, PartialEq, Eq, Structural)]
pub enum ConfigureAction {
    /// Persist the preferences as they are now, and report `Saved`.
    Save,
    /// Nothing: the run has ended.
    Stop,
}

/// One step of the run: where it stands now, the lines to print, and what
/// to do next.
#[derive(Debug, PartialEq, Eq)]
pub struct ConfigureStep {
    pub state: ConfigureState,
    pub output: Vec<String>,
    pub action: ConfigureAction,
}

/// A step of the run, with the lines as their characters.
pub struct ConfigureStepView {
    pub state: ConfigureState,
    pub output: Seq<Seq<char>>,
    pub action: ConfigureAction,
}

impl View for ConfigureStep {
    type V = ConfigureStepView;

    open spec fn view(&self) -> ConfigureStepView {
        ConfigureStepView {
            state: self.state,
            output: self.output.deep_view(),
            action: self.action,
        }
    }
}

/// The entries with which a step of the run leaves the preferences: the
/// first step applies the options, the later ones change nothing.
pub open spec fn configure_entries(
    entries: Seq<Entry>,
    options: ConfigureOptions,
    state: ConfigureState,
) -> Seq<Entry> {
    if state is Idle {
        configured(entries, options)
    } else {
        entries
    }
}

/// The step that the run takes from `state` on `event`, where the
/// preferences hold `entries`. The first step applies the options; the
/// preferences are persisted exactly if that made another mapping of them,
/// and a failure to persist them ends the run with `PreferencesSaveError`.
/// On the way to a good end the listing is printed.
pub open spec fn configure_step(
    entries: Seq<Entry>,
    options: ConfigureOptions,
    state: ConfigureState,
    event: ConfigureEvent,
) -> ConfigureStepView {
    match state {
        ConfigureState::Idle => if persisted(entries, options) {
            ConfigureStepView {
                state: ConfigureState::AwaitingSave,
                output: Seq::empty(),
                action: ConfigureAction::Save,
            }
        } else {
            ConfigureStepView {
                state: ConfigureState::Done(Ok(())),
                output: listing(configured(entries, options), options),
                action: ConfigureAction::Stop,
            }
        },
        ConfigureState::AwaitingSave => if event is Saved {
            ConfigureStepView {
                state: ConfigureState::Done(Ok(())),
                output: listing(entries, options),
                action: ConfigureAction::Stop,
            }
        } else {
            ConfigureStepView {
                state: ConfigureState::Done(Err(ApplicationError::PreferencesSaveError)),
                output: Seq::empty(),
                action: ConfigureAction::Stop,
            }
        },
        ConfigureState::Done(outcome) => ConfigureStepView {
            state: ConfigureState::Done(outcome),
            output: Seq::empty(),
            action: ConfigureAction::Stop,
        },
    }
}

/// The step that the run of `configure` takes from `state` on `event`.
pub fn run_configure(
    prefs: &mut Preferences,
    options: &ConfigureOptions,
    state: ConfigureState,
    event: ConfigureEvent,
) -> (step: ConfigureStep)
    ensures
        final(prefs).entries() == configure_entries(old(prefs).entries(), *options, state),
        step@ == configure_step(old(prefs).entries(), *options, state, event),
{
    let output: Vec<String> = Vec::new();
    assert(output.deep_view() =~= Seq::<Seq<char>>::empty());
    match state {
        ConfigureState::Idle => {
            if matches!(manage_configuration(prefs, options), Ok(true)) {
                ConfigureStep {
                    state: ConfigureState::AwaitingSave,
                    output,
                    action: ConfigureAction::Save,
                }
            } else {
                ConfigureStep {
                    state: ConfigureState::Done(Ok(())),
                    output: list_preferences(prefs, options),
                    action: ConfigureAction::Stop,
                }
            }
        },
        ConfigureState::AwaitingSave => match event {
            ConfigureEvent::Saved => ConfigureStep {
                state: ConfigureState::Done(Ok(())),
                output: list_preferences(prefs, options),
                action: ConfigureAction::Stop,
            },
            _ => ConfigureStep {
                state: ConfigureState::Done(Err(ApplicationError::PreferencesSaveError)),
                output,
                action: ConfigureAction::Stop,
            },
        },
        ConfigureState::Done(outcome) => ConfigureStep {
            state: ConfigureState::Done(outcome),
            output,
            action: ConfigureAction::Stop,
        },
    }
}

/// How far a state is from the beginning of the run.
pub open spec fn progress(state: ConfigureState) -> nat {
    match state {
        ConfigureState::Idle => 0,
        ConfigureState::AwaitingSave => 1,
        ConfigureState::Done(_) => 2,
    }
}

/// Every step takes the run further, until it has ended: the preferences
/// are persisted at most once, and the run has ended after two steps at the
/// latest.
pub proof fn lemma_progress(
    entries: Seq<Entry>,
    options: ConfigureOptions,
    state: ConfigureState,
    event: ConfigureEvent,
)
    ensures
        ({
            let step = configure_step(entries, options, state, event);
            if state is Done {
                step.state == state
            } else {
                progress(step.state) > progress(state)
            }
        }),
{
}

/// The caller is told to stop exactly when the run has ended, and to
/// persist the preferences only at the first step, exactly if the options
/// make another mapping of them. Nothing is printed before they are
/// persisted.
pub proof fn lemma_save_before_listing(
    entries: Seq<Entry>,
    options: ConfigureOptions,
    state: ConfigureState,
    event: ConfigureEvent,
)
    ensures
        ({
            let step = configure_step(entries, options, state, event);
            &&& step.action is Stop <==> step.state is Done
            &&& step.action is Save <==> state is Idle && persisted(entries, options)
            &&& step.action is Save ==> step.output.len() == 0
        }),
{
}

/// `configure` without a value and without a listing changes nothing,
/// has nothing persisted and prints nothing.
pub proof fn lemma_nothing_asked(
    entries: Seq<Entry>,
    options: ConfigureOptions,
    event: ConfigureEvent,
)
    requires
        options.api_token is None,
        options.data_dir is None,
        !options.list,
    ensures
        configure_entries(entries, options, ConfigureState::Idle) == entries,
        configure_step(entries, options, ConfigureState::Idle, event) == (ConfigureStepView {
            state: ConfigureState::Done(Ok(())),
            output: Seq::empty(),
            action: ConfigureAction::Stop,
        }),
{
}

/// `configure` with an API token stores the token, and has the preferences
/// persisted if the token was not the stored one. A later `configure` that
/// only lists has nothing persisted, and prints the line `api-token=` with
/// the token.
pub proof fn lemma_token_configured(
    entries: Seq<Entry>,
    options: ConfigureOptions,
    later: ConfigureOptions,
    event: ConfigureEvent,
)
    requires
        distinct_keys(entries),
        options.api_token is Some,
        later.api_token is None,
        later.data_dir is None,
        later.list,
    ensures
        ({
            let token = options.api_token->Some_0@;
            let known = entries_map(entries).contains_key(API_TOKEN@) && entries_map(
                entries,
            )[API_TOKEN@] == token;
            let stored = configure_entries(entries, options, ConfigureState::Idle);
            let first = configure_step(entries, options, ConfigureState::Idle, event);
            let second = configure_step(stored, later, ConfigureState::Idle, event);
            &&& entries_map(stored).contains_key(API_TOKEN@)
            &&& entries_map(stored)[API_TOKEN@] == token
            &&& !known ==> first.action == ConfigureAction::Save
            &&& configure_entries(stored, later, ConfigureState::Idle) == stored
            &&& second.action == ConfigureAction::Stop
            &&& exists|i: int|
                0 <= i < second.output.len() && second.output[i] == API_TOKEN@ + "="@ + token
        }),
{
    let token = options.api_token->Some_0@;
    let with_token = entries_set(entries, API_TOKEN@, token);
    let stored = configured(entries, options);
    lemma_entries_set(entries, API_TOKEN@, token);
    if let Some(dir) = options.data_dir {
        lemma_entries_set(with_token, DATA_DIR@, dir@);
        reveal_strlit("api-token");
        reveal_strlit("data-dir");
        assert(API_TOKEN@[0] != DATA_DIR@[0]);
    }
    lemma_entries_map_keys(stored, API_TOKEN@);
    let at = choose|i: int| 0 <= i < stored.len() && stored[i] == (API_TOKEN@, token);
    let second = configure_step(stored, later, ConfigureState::Idle, event);
    assert(second.output[at] == API_TOKEN@ + "="@ + token);
}

} // verus!
