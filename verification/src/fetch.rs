//! The `fetch` command: where the snapshot goes, what is asked of the API,
//! and the run of the command as a machine of states, which tells its caller
//! what to do next and is told in turn how that went.

use crate::clock::{current_time, format_time, formatted_time, rfc3339_text, Timestamp};
use crate::consts::{Config, API_TOKEN, DATA_DIR};
use crate::error::ApplicationError;
use crate::home::home_directory;
use crate::json::{json_object, json_object_text, json_string_text};
use crate::preferences::Preferences;
use crate::snapshot::{
    print_portfolio_data, process_portfolio_data, processed_at, summary, Snapshot, DATE,
};
use vstd::prelude::*;
use vstd::string::StringExecFns;

verus! {

/// The directory below the home directory that holds the snapshots where
/// none is configured.
pub const DEFAULT_DIR: &'static str = "CryptoPanicData";

/// The path of the portfolio endpoint below the base address.
pub const PORTFOLIO_PATH: &'static str = "/portfolio/";

/// The query parameter that carries the API token.
pub const AUTH_TOKEN: &'static str = "auth_token";

/// The `strftime` pattern of the minute in a snapshot file's name.
pub const MINUTE_PATTERN: &'static str = "%Y-%m-%d-%H-%M";

/// What follows the minute in a snapshot file's name.
pub const FILE_SUFFIX: &'static str = "_data.json";

/// The path of `name` in the directory `dir`.
pub open spec fn joined(dir: Seq<char>, name: Seq<char>) -> Seq<char> {
    dir + "/"@ + name
}

/// The data directory: the preference `data-dir` as it stands, where it is
/// set; else `CryptoPanicData` in the home directory, where there is one.
pub open spec fn resolved_dir(prefs: Map<Seq<char>, Seq<char>>, home: Option<Seq<char>>) -> Option<
    Seq<char>,
> {
    if prefs.contains_key(DATA_DIR@) {
        Some(prefs[DATA_DIR@])
    } else {
        match home {
            Some(dir) => Some(joined(dir, DEFAULT_DIR@)),
            None => None,
        }
    }
}

/// The name of the snapshot file of the minute `minute`.
pub open spec fn file_name_of(minute: Seq<char>) -> Seq<char> {
    minute + FILE_SUFFIX@
}

/// The name of the snapshot file of the instant `at`: its minute, then
/// `_data.json`. `None` where the minute cannot be written.
pub open spec fn file_name_at(at: Timestamp) -> Option<Seq<char>> {
    match formatted_time(at.secs, at.nanos, MINUTE_PATTERN@) {
        Some(minute) => Some(file_name_of(minute)),
        None => None,
    }
}

/// The line that reports where the snapshot was saved.
pub open spec fn saved_line(path: Seq<char>) -> Seq<char> {
    "Data saved to "@ + path + "!"@
}

/// A file to be written: its path and its whole contents.
#[derive(Debug, Clone, PartialEq, Eq)]
pub struct SnapshotFile {
    pub path: String,
    pub contents: String,
}

/// A file as its path and its contents.
pub struct FileView {
    pub path: Seq<char>,
    pub contents: Seq<char>,
}

impl View for SnapshotFile {
    type V = FileView;

    open spec fn view(&self) -> FileView {
        FileView { path: self.path@, contents: self.contents@ }
    }
}

/// The snapshot file of a snapshot with the members `members`, taken at `at`
/// and kept in `data_dir`; `None` where its name or its contents cannot be
/// written.
pub open spec fn snapshot_file_at(
    members: Map<Seq<char>, Seq<char>>,
    data_dir: Seq<char>,
    at: Timestamp,
) -> Option<FileView> {
    match (file_name_at(at), json_object_text(members)) {
        (Some(name), Some(contents)) => Some(FileView { path: joined(data_dir, name), contents }),
        _ => None,
    }
}

/// A request to the API: the address, and the one query parameter with its
/// value.
#[derive(Debug, Clone, PartialEq, Eq)]
pub struct PortfolioRequest {
    pub url: String,
    pub parameter: String,
    pub value: String,
}

/// A request as the characters of its parts.
pub struct RequestView {
    pub url: Seq<char>,
    pub parameter: Seq<char>,
    pub value: Seq<char>,
}

impl View for PortfolioRequest {
    type V = RequestView;

    open spec fn view(&self) -> RequestView {
        RequestView { url: self.url@, parameter: self.parameter@, value: self.value@ }
    }
}

/// The request for the portfolio of the holder of `api_token`, to the API
/// at `base_url`.
pub open spec fn request_for(base_url: Seq<char>, api_token: Seq<char>) -> RequestView {
    RequestView { url: base_url + PORTFOLIO_PATH@, parameter: AUTH_TOKEN@, value: api_token }
}

/// The request that fetches the portfolio: a GET of `/portfolio/` below the
/// base address, with the token as the parameter `auth_token`.
pub fn fetch_portfolio_data(config: &Config, api_token: &String) -> (request: PortfolioRequest)
    ensures
        request@ == request_for(config.api_base_url@, api_token@),
{
    PortfolioRequest {
        url: config.api_base_url.to_owned().concat(PORTFOLIO_PATH),
        parameter: AUTH_TOKEN.to_owned(),
        value: api_token.clone(),
    }
}

/// The path of `name` in the directory `dir`: the two with `/` between
/// them.
pub fn join(dir: &str, name: &str) -> (path: String)
    ensures
        path@ == joined(dir@, name@),
{
    dir.to_owned().concat("/").concat(name)
}

/// The data directory for the preferences `prefs` and the home directory
/// `home`. Fails with `DirectoryError` exactly if no directory is configured
/// and there is no home directory.
pub fn resolve_data_dir(prefs: &Preferences, home: Option<String>) -> (outcome: Result<
    String,
    ApplicationError,
>)
    ensures
        match outcome {
            Ok(dir) => resolved_dir(prefs@, home.deep_view()) == Some(dir@),
            Err(error) => error == ApplicationError::DirectoryError && resolved_dir(
                prefs@,
                home.deep_view(),
            ) is None,
        },
{
    match prefs.get(DATA_DIR) {
        Some(dir) => Ok(dir),
        None => match home {
            Some(dir) => Ok(join(dir.as_str(), DEFAULT_DIR)),
            None => Err(ApplicationError::DirectoryError),
        },
    }
}

/// What `get_data_dir` may return for `prefs`: what `resolve_data_dir`
/// returns for them and the home directory `home`.
pub open spec fn data_dir_outcome(
    prefs: Map<Seq<char>, Seq<char>>,
    home: Option<Seq<char>>,
    outcome: Result<String, ApplicationError>,
) -> bool {
    match outcome {
        Ok(dir) => resolved_dir(prefs, home) == Some(dir@),
        Err(error) => error == ApplicationError::DirectoryError && resolved_dir(prefs, home)
            is None,
    }
}

/// The data directory for the preferences `prefs`. The home directory is
/// looked up only where no directory is configured; the outcome is that of
/// `resolve_data_dir` for whatever the lookup gave.
pub fn get_data_dir(prefs: &Preferences) -> (outcome: Result<String, ApplicationError>)
    ensures
        exists|home: Option<Seq<char>>| #[trigger] data_dir_outcome(prefs@, home, outcome),
        prefs@.contains_key(DATA_DIR@) ==> (outcome matches Ok(dir) && dir@ == prefs@[DATA_DIR@]),
{
    let home = if prefs.contains(DATA_DIR) {
        None
    } else {
        home_directory()
    };
    let outcome = resolve_data_dir(prefs, home);
    assert(data_dir_outcome(prefs@, home.deep_view(), outcome));
    outcome
}

/// The name of the snapshot file of the minute `minute`, which is written
/// as `YYYY-MM-DD-HH-MM`.
pub fn minute_file_name(minute: &str) -> (name: String)
    ensures
        name@ == file_name_of(minute@),
{
    minute.to_owned().concat(FILE_SUFFIX)
}

/// The name of the snapshot file of the instant `at`.
pub fn snapshot_file_name(at: &Timestamp) -> (name: Option<String>)
    ensures
        name.deep_view() == file_name_at(*at),
{
    match format_time(at, MINUTE_PATTERN) {
        Some(minute) => Some(minute_file_name(minute.as_str())),
        None => None,
    }
}

/// The line that reports that the snapshot was saved at `path`.
pub fn saved_message(path: &str) -> (line: String)
    ensures
        line@ == saved_line(path@),
{
    "Data saved to ".to_owned().concat(path).concat("!")
}

/// The file in which the snapshot `data`, taken at `at`, is saved in
/// `data_dir`. Fails with `DataSaveError` exactly if the name or the
/// contents of the file cannot be written.
pub fn save_portfolio(data: &Snapshot, data_dir: &str, at: &Timestamp) -> (outcome: Result<
    SnapshotFile,
    ApplicationError,
>)
    ensures
        match outcome {
            Ok(file) => snapshot_file_at(data@, data_dir@, *at) == Some(file@),
            Err(error) => error == ApplicationError::DataSaveError && snapshot_file_at(
                data@,
                data_dir@,
                *at,
            ) is None,
        },
{
    match snapshot_file_name(at) {
        Some(name) => match data.to_json() {
            Some(contents) => Ok(SnapshotFile { path: join(data_dir, name.as_str()), contents }),
            None => Err(ApplicationError::DataSaveError),
        },
        None => Err(ApplicationError::DataSaveError),
    }
}

/// What was given on the command line of `fetch`.
#[derive(Debug, Clone, Copy, PartialEq, Eq, Structural)]
pub struct FetchOptions {
    /// Whether the snapshot is only shown and not written to a file.
    pub no_save: bool,
}

/// How far a run of `fetch` has come.
#[derive(Debug, PartialEq)]
pub enum FetchState {
    /// Nothing has been done yet.
    Idle,
    /// The caller finds out whether the data directory exists.
    AwaitingProbe { data_dir: String },
    /// The caller creates the data directory.
    AwaitingDirectory { data_dir: String },
    /// The caller sends the request.
    AwaitingResponse { data_dir: String },
    /// The caller writes the snapshot file.
    AwaitingWrite { snapshot: Snapshot, path: String },
    /// The run has ended, with the snapshot or with a failure.
    Done(Result<Snapshot, ApplicationError>),
}

/// What the caller reports to the run.
#[derive(Debug, Clone, PartialEq, Eq)]
pub enum FetchEvent {
    /// The command was given.
    Begin,
    /// The directory was looked for; `true` where it exists.
    Probed(bool),
    /// The directory was created.
    Created,
    /// The API answered with this body.
    Response(String),
    /// The file was written.
    Written,
    /// What was to be done could not be done.
    Failed,
}

/// What the caller is to do next.
#[derive(Debug, Clone, PartialEq, Eq)]
pub enum FetchAction {
    /// Find out whether this directory exists, and report `Probed`.
    ProbeDirectory(String),
    /// Create this directory, and report `Created`.
    CreateDirectory(String),
    /// Send this request, and report the body of the answer in `Response`.
    Get(PortfolioRequest),
    /// Write this file, and report `Written`.
    Write(SnapshotFile),
    /// Nothing: the run has ended.
    Stop,
}

/// One step of the run: where it stands now, the lines to print, and what
/// to do next.
#[derive(Debug, PartialEq)]
pub struct FetchStep {
    pub state: FetchState,
    pub output: Vec<String>,
    pub action: FetchAction,
}

/// A state of the run, with strings as their characters and a snapshot as
/// its members.
pub enum StateView {
    Idle,
    AwaitingProbe { data_dir: Seq<char> },
    AwaitingDirectory { data_dir: Seq<char> },
    AwaitingResponse { data_dir: Seq<char> },
    AwaitingWrite { snapshot: Map<Seq<char>, Seq<char>>, path: Seq<char> },
    Done(Result<Map<Seq<char>, Seq<char>>, ApplicationError>),
}

/// An event, with the body of a response as its characters.
pub enum EventView {
    Begin,
    Probed(bool),
    Created,
    Response(Seq<char>),
    Written,
    Failed,
}

/// An action, with strings as their characters.
pub enum ActionView {
    ProbeDirectory(Seq<char>),
    CreateDirectory(Seq<char>),
    Get(RequestView),
    Write(FileView),
    Stop,
}

/// A step of the run, with strings as their characters.
pub struct StepView {
    pub state: StateView,
    pub output: Seq<Seq<char>>,
    pub action: ActionView,
}

impl View for FetchState {
    type V = StateView;

    open spec fn view(&self) -> StateView {
        match self {
            FetchState::Idle => StateView::Idle,
            FetchState::AwaitingProbe { data_dir } => StateView::AwaitingProbe {
                data_dir: data_dir@,
            },
            FetchState::AwaitingDirectory { data_dir } => StateView::AwaitingDirectory {
                data_dir: data_dir@,
            },
            FetchState::AwaitingResponse { data_dir } => StateView::AwaitingResponse {
                data_dir: data_dir@,
            },
            FetchState::AwaitingWrite { snapshot, path } => StateView::AwaitingWrite {
                snapshot: snapshot@,
                path: path@,
            },
            FetchState::Done(Ok(snapshot)) => StateView::Done(Ok(snapshot@)),
            FetchState::Done(Err(error)) => StateView::Done(Err(*error)),
        }
    }
}

impl View for FetchEvent {
    type V = EventView;

    open spec fn view(&self) -> EventView {
        match self {
            FetchEvent::Begin => EventView::Begin,
            FetchEvent::Probed(exists) => EventView::Probed(*exists),
            FetchEvent::Created => EventView::Created,
            FetchEvent::Response(body) => EventView::Response(body@),
            FetchEvent::Written => EventView::Written,
            FetchEvent::Failed => EventView::Failed,
        }
    }
}

impl View for FetchAction {
    type V = ActionView;

    open spec fn view(&self) -> ActionView {
        match self {
            FetchAction::ProbeDirectory(dir) => ActionView::ProbeDirectory(dir@),
            FetchAction::CreateDirectory(dir) => ActionView::CreateDirectory(dir@),
            FetchAction::Get(request) => ActionView::Get(request@),
            FetchAction::Write(file) => ActionView::Write(file@),
            FetchAction::Stop => ActionView::Stop,
        }
    }
}

impl View for FetchStep {
    type V = StepView;

    open spec fn view(&self) -> StepView {
        StepView { state: self.state@, output: self.output.deep_view(), action: self.action@ }
    }
}

/// The step that ends the run with the failure `error`, printing nothing.
pub open spec fn failed(error: ApplicationError) -> StepView {
    StepView { state: StateView::Done(Err(error)), output: Seq::empty(), action: ActionView::Stop }
}

/// The first step. Without an API token the run fails with `NoAPIToken`;
/// without a data directory it fails with `DirectoryError`; else the caller
/// is asked whether the directory exists.
pub open spec fn begun(prefs: Map<Seq<char>, Seq<char>>, home: Option<Seq<char>>) -> StepView {
    if !prefs.contains_key(API_TOKEN@) {
        failed(ApplicationError::NoAPIToken)
    } else {
        match resolved_dir(prefs, home) {
            Some(data_dir) => StepView {
                state: StateView::AwaitingProbe { data_dir },
                output: Seq::empty(),
                action: ActionView::ProbeDirectory(data_dir),
            },
            None => failed(ApplicationError::DirectoryError),
        }
    }
}

/// The step once the directory is there: the request is sent, with the
/// token of the preferences; without a token the run fails with
/// `NoAPIToken`.
pub open spec fn requested(
    config: Config,
    prefs: Map<Seq<char>, Seq<char>>,
    data_dir: Seq<char>,
) -> StepView {
    if prefs.contains_key(API_TOKEN@) {
        StepView {
            state: StateView::AwaitingResponse { data_dir },
            output: Seq::empty(),
            action: ActionView::Get(request_for(config.api_base_url@, prefs[API_TOKEN@])),
        }
    } else {
        failed(ApplicationError::NoAPIToken)
    }
}

/// The step on the response `body`, received at `now`. Where no snapshot
/// can be made of it the run fails with `ParseError`. Else the summary is
/// printed; the run then ends with the snapshot where nothing is to be
/// saved, asks for the snapshot file to be written, or fails with
/// `DataSaveError` where there is no such file.
pub open spec fn responded(
    options: FetchOptions,
    data_dir: Seq<char>,
    body: Seq<char>,
    now: Timestamp,
) -> StepView {
    match processed_at(body, now) {
        None => failed(ApplicationError::ParseError),
        Some(members) => if options.no_save {
            StepView {
                state: StateView::Done(Ok(members)),
                output: summary(members),
                action: ActionView::Stop,
            }
        } else {
            match snapshot_file_at(members, data_dir, now) {
                Some(file) => StepView {
                    state: StateView::AwaitingWrite { snapshot: members, path: file.path },
                    output: summary(members),
                    action: ActionView::Write(file),
                },
                None => StepView {
                    state: StateView::Done(Err(ApplicationError::DataSaveError)),
                    output: summary(members),
                    action: ActionView::Stop,
                },
            }
        },
    }
}

/// The step that the run takes from `state` on `event`, where the home
/// directory is `home` and the time is `now`. The run begins on whatever
/// event comes first. After that it goes on with the event that answers
/// what was asked, and any other event ends it with the failure of what was
/// awaited. A run that has ended stays as it is.
pub open spec fn fetch_step(
    config: Config,
    prefs: Map<Seq<char>, Seq<char>>,
    options: FetchOptions,
    state: StateView,
    event: EventView,
    home: Option<Seq<char>>,
    now: Timestamp,
) -> StepView {
    match state {
        StateView::Idle => begun(prefs, home),
        StateView::AwaitingProbe { data_dir } => match event {
            EventView::Probed(true) => requested(config, prefs, data_dir),
            EventView::Probed(false) => StepView {
                state: StateView::AwaitingDirectory { data_dir },
                output: Seq::empty(),
                action: ActionView::CreateDirectory(data_dir),
            },
            _ => failed(ApplicationError::DirectoryError),
        },
        StateView::AwaitingDirectory { data_dir } => match event {
            EventView::Created => requested(config, prefs, data_dir),
            _ => failed(ApplicationError::DirectoryError),
        },
        StateView::AwaitingResponse { data_dir } => match event {
            EventView::Response(body) => responded(options, data_dir, body, now),
            _ => failed(ApplicationError::FetchError),
        },
        StateView::AwaitingWrite { snapshot, path } => match event {
            EventView::Written => StepView {
                state: StateView::Done(Ok(snapshot)),
                output: seq![saved_line(path)],
                action: ActionView::Stop,
            },
            _ => failed(ApplicationError::DataSaveError),
        },
        StateView::Done(outcome) => StepView {
            state: StateView::Done(outcome),
            output: Seq::empty(),
            action: ActionView::Stop,
        },
    }
}

/// The step to `state` that prints nothing and asks for `action`.
fn silent(state: FetchState, action: FetchAction) -> (step: FetchStep)
    ensures
        step@ == (StepView { state: state@, output: Seq::empty(), action: action@ }),
{
    let step = FetchStep { state, output: Vec::new(), action };
    assert(step.output.deep_view() =~= Seq::<Seq<char>>::empty());
    step
}

/// The step that ends the run with the failure `error`.
fn fail(error: ApplicationError) -> (step: FetchStep)
    ensures
        step@ == failed(error),
{
    silent(FetchState::Done(Err(error)), FetchAction::Stop)
}

/// The first step of the run.
fn begin(prefs: &Preferences, home: Option<String>) -> (step: FetchStep)
    ensures
        step@ == begun(prefs@, home.deep_view()),
{
    if !prefs.contains(API_TOKEN) {
        return fail(ApplicationError::NoAPIToken);
    }
    match resolve_data_dir(prefs, home) {
        Ok(data_dir) => silent(
            FetchState::AwaitingProbe { data_dir: data_dir.clone() },
            FetchAction::ProbeDirectory(data_dir),
        ),
        Err(error) => fail(error),
    }
}

/// The step that sends the request.
fn request(config: &Config, prefs: &Preferences, data_dir: String) -> (step: FetchStep)
    ensures
        step@ == requested(*config, prefs@, data_dir@),
{
    match prefs.get(API_TOKEN) {
        Some(token) => silent(
            FetchState::AwaitingResponse { data_dir },
            FetchAction::Get(fetch_portfolio_data(config, &token)),
        ),
        None => fail(ApplicationError::NoAPIToken),
    }
}

/// The step on a response.
fn respond(options: &FetchOptions, data_dir: String, body: String, now: &Timestamp) -> (step:
    FetchStep)
    ensures
        step@ == responded(*options, data_dir@, body@, *now),
{
    match process_portfolio_data(body, now) {
        Err(error) => fail(error),
        Ok(snapshot) => {
            let output = print_portfolio_data(&snapshot);
            if options.no_save {
                FetchStep { state: FetchState::Done(Ok(snapshot)), output, action: FetchAction::Stop }
            } else {
                match save_portfolio(&snapshot, data_dir.as_str(), now) {
                    Ok(file) => FetchStep {
                        state: FetchState::AwaitingWrite { snapshot, path: file.path.clone() },
                        output,
                        action: FetchAction::Write(file),
                    },
                    Err(error) => FetchStep {
                        state: FetchState::Done(Err(error)),
                        output,
                        action: FetchAction::Stop,
                    },
                }
            }
        },
    }
}

/// The step that the run takes from `state` on `event`, where the home
/// directory is `home` and the time is `now`.
pub fn fetch_transition(
    config: &Config,
    prefs: &Preferences,
    options: &FetchOptions,
    state: FetchState,
    event: FetchEvent,
    home: Option<String>,
    now: &Timestamp,
) -> (step: FetchStep)
    ensures
        step@ == fetch_step(*config, prefs@, *options, state@, event@, home.deep_view(), *now),
{
    match state {
        FetchState::Idle => begin(prefs, home),
        FetchState::AwaitingProbe { data_dir } => match event {
            FetchEvent::Probed(true) => request(config, prefs, data_dir),
            FetchEvent::Probed(false) => silent(
                FetchState::AwaitingDirectory { data_dir: data_dir.clone() },
                FetchAction::CreateDirectory(data_dir),
            ),
            _ => fail(ApplicationError::DirectoryError),
        },
        FetchState::AwaitingDirectory { data_dir } => match event {
            FetchEvent::Created => request(config, prefs, data_dir),
            _ => fail(ApplicationError::DirectoryError),
        },
        FetchState::AwaitingResponse { data_dir } => match event {
            FetchEvent::Response(body) => respond(options, data_dir, body, now),
            _ => fail(ApplicationError::FetchError),
        },
        FetchState::AwaitingWrite { snapshot, path } => match event {
            FetchEvent::Written => {
                let mut output: Vec<String> = Vec::new();
                output.push(saved_message(path.as_str()));
                assert(output.deep_view() =~= seq![saved_line(path@)]);
                FetchStep { state: FetchState::Done(Ok(snapshot)), output, action: FetchAction::Stop }
            },
            _ => fail(ApplicationError::DataSaveError),
        },
        FetchState::Done(outcome) => silent(FetchState::Done(outcome), FetchAction::Stop),
    }
}

/// The step that the run of `fetch` takes from `state` on `event`. The home
/// directory is looked up where the run begins without a configured
/// directory, and the clock is read where a response has come; the step is
/// that of `fetch_transition` for whatever those gave.
pub fn run_fetch_portfolio(
    config: &Config,
    prefs: &Preferences,
    options: &FetchOptions,
    state: FetchState,
    event: FetchEvent,
) -> (step: FetchStep)
    ensures
        exists|home: Option<Seq<char>>, now: Timestamp|
            step@ == #[trigger] fetch_step(*config, prefs@, *options, state@, event@, home, now),
{
    let home = match &state {
        FetchState::Idle => if prefs.contains(DATA_DIR) {
            None
        } else {
            home_directory()
        },
        _ => None,
    };
    let now = match (&state, &event) {
        (FetchState::AwaitingResponse { .. }, FetchEvent::Response(_)) => current_time(),
        _ => Timestamp { secs: 0, nanos: 0 },
    };
    fetch_transition(config, prefs, options, state, event, home, &now)
}

/// How far a state is from the beginning of the run.
pub open spec fn progress(state: StateView) -> nat {
    match state {
        StateView::Idle => 0,
        StateView::AwaitingProbe { .. } => 1,
        StateView::AwaitingDirectory { .. } => 2,
        StateView::AwaitingResponse { .. } => 3,
        StateView::AwaitingWrite { .. } => 4,
        StateView::Done(_) => 5,
    }
}

/// Every step takes the run further, until it has ended: no state comes
/// twice, so that a run sends at most one request and asks for at most one
/// file, and it has ended after five steps at the latest.
pub proof fn lemma_progress(
    config: Config,
    prefs: Map<Seq<char>, Seq<char>>,
    options: FetchOptions,
    state: StateView,
    event: EventView,
    home: Option<Seq<char>>,
    now: Timestamp,
)
    ensures
        ({
            let step = fetch_step(config, prefs, options, state, event, home, now);
            if state is Done {
                step.state == state
            } else {
                progress(step.state) > progress(state)
            }
        }),
{
}

/// The caller is told to stop exactly when the run has ended. A request is
/// sent only once the data directory is known to be there: found by the
/// probe, or created. A file is asked for only on a response, and the run
/// then waits for nothing but that file.
pub proof fn lemma_order_of_steps(
    config: Config,
    prefs: Map<Seq<char>, Seq<char>>,
    options: FetchOptions,
    state: StateView,
    event: EventView,
    home: Option<Seq<char>>,
    now: Timestamp,
)
    ensures
        ({
            let step = fetch_step(config, prefs, options, state, event, home, now);
            &&& step.action is Stop <==> step.state is Done
            &&& step.action is Get <==> step.state is AwaitingResponse
            &&& step.action is Get ==> (state is AwaitingProbe && event == EventView::Probed(true))
                || (state is AwaitingDirectory && event is Created)
            &&& step.action is Write <==> step.state is AwaitingWrite
            &&& step.action is Write ==> state is AwaitingResponse && event is Response
        }),
{
}

/// Without an API token the run ends at its first step with `NoAPIToken`:
/// nothing is printed and nothing is asked of the caller, neither a request
/// nor a file, and so it stays whatever is reported afterwards.
pub proof fn lemma_no_token(
    config: Config,
    prefs: Map<Seq<char>, Seq<char>>,
    options: FetchOptions,
    event: EventView,
    later: EventView,
    home: Option<Seq<char>>,
    now: Timestamp,
)
    requires
        !prefs.contains_key(API_TOKEN@),
    ensures
        ({
            let first = fetch_step(config, prefs, options, StateView::Idle, event, home, now);
            let second = fetch_step(config, prefs, options, first.state, later, home, now);
            &&& first == failed(ApplicationError::NoAPIToken)
            &&& second == failed(ApplicationError::NoAPIToken)
        }),
{
}

/// With an API token the run begins by asking for the data directory: the
/// configured one as it stands, else `CryptoPanicData` in the home
/// directory. A directory that exists is not created: the request follows.
/// One that does not exist is created first.
pub proof fn lemma_directory(
    config: Config,
    prefs: Map<Seq<char>, Seq<char>>,
    options: FetchOptions,
    event: EventView,
    home: Option<Seq<char>>,
    now: Timestamp,
)
    requires
        prefs.contains_key(API_TOKEN@),
        prefs.contains_key(DATA_DIR@) || home is Some,
    ensures
        ({
            let data_dir = if prefs.contains_key(DATA_DIR@) {
                prefs[DATA_DIR@]
            } else {
                home->Some_0 + "/"@ + DEFAULT_DIR@
            };
            let first = fetch_step(config, prefs, options, StateView::Idle, event, home, now);
            let found = fetch_step(config, prefs, options, first.state, EventView::Probed(true), home, now);
            let missing = fetch_step(
                config,
                prefs,
                options,
                first.state,
                EventView::Probed(false),
                home,
                now,
            );
            let created = fetch_step(config, prefs, options, missing.state, EventView::Created, home, now);
            &&& first.action == ActionView::ProbeDirectory(data_dir)
            &&& found.action == ActionView::Get(request_for(config.api_base_url@, prefs[API_TOKEN@]))
            &&& missing.action == ActionView::CreateDirectory(data_dir)
            &&& created.action == ActionView::Get(request_for(config.api_base_url@, prefs[API_TOKEN@]))
        }),
{
}

/// A response that is no JSON object ends the run with `ParseError`: nothing
/// is printed and no file is asked for.
pub proof fn lemma_malformed_response(
    config: Config,
    prefs: Map<Seq<char>, Seq<char>>,
    options: FetchOptions,
    data_dir: Seq<char>,
    body: Seq<char>,
    home: Option<Seq<char>>,
    now: Timestamp,
)
    ensures
        json_object(body) is None ==> fetch_step(
            config,
            prefs,
            options,
            StateView::AwaitingResponse { data_dir },
            EventView::Response(body),
            home,
            now,
        ) == failed(ApplicationError::ParseError),
{
}

/// Where nothing is to be saved, no step asks for a file to be written, and
/// a response of which a snapshot can be made ends the run with that
/// snapshot and its summary.
pub proof fn lemma_no_save(
    config: Config,
    prefs: Map<Seq<char>, Seq<char>>,
    options: FetchOptions,
    state: StateView,
    event: EventView,
    data_dir: Seq<char>,
    body: Seq<char>,
    home: Option<Seq<char>>,
    now: Timestamp,
)
    requires
        options.no_save,
    ensures
        !(fetch_step(config, prefs, options, state, event, home, now).action is Write),
        processed_at(body, now) matches Some(members) ==> fetch_step(
            config,
            prefs,
            options,
            StateView::AwaitingResponse { data_dir },
            EventView::Response(body),
            home,
            now,
        ) == (StepView {
            state: StateView::Done(Ok(members)),
            output: summary(members),
            action: ActionView::Stop,
        }),
{
}

/// Where the snapshot is to be saved, a response that is a JSON object,
/// received at an instant that can be written, has one file asked for: it
/// is named by the minute of that instant, lies in the data directory, and
/// holds the members of the response and the date. Once the file is
/// written the run ends with the snapshot and reports the path, and no
/// further file is asked for.
pub proof fn lemma_saved(
    config: Config,
    prefs: Map<Seq<char>, Seq<char>>,
    options: FetchOptions,
    data_dir: Seq<char>,
    body: Seq<char>,
    later: EventView,
    home: Option<Seq<char>>,
    now: Timestamp,
)
    requires
        !options.no_save,
    ensures
        json_object(body) is Some && rfc3339_text(now.secs, now.nanos) is Some && formatted_time(
            now.secs,
            now.nanos,
            MINUTE_PATTERN@,
        ) is Some && json_object_text(processed_at(body, now)->Some_0) is Some ==> ({
            let members = json_object(body)->Some_0.insert(
                DATE@,
                json_string_text(rfc3339_text(now.secs, now.nanos)->Some_0),
            );
            let minute = formatted_time(now.secs, now.nanos, MINUTE_PATTERN@)->Some_0;
            let file = FileView {
                path: data_dir + "/"@ + (minute + FILE_SUFFIX@),
                contents: json_object_text(members)->Some_0,
            };
            let asked = fetch_step(
                config,
                prefs,
                options,
                StateView::AwaitingResponse { data_dir },
                EventView::Response(body),
                home,
                now,
            );
            let written = fetch_step(config, prefs, options, asked.state, EventView::Written, home, now);
            let after = fetch_step(config, prefs, options, written.state, later, home, now);
            &&& asked.output == summary(members)
            &&& asked.action == ActionView::Write(file)
            &&& written.state == StateView::Done(Ok(members))
            &&& written.output == seq![saved_line(file.path)]
            &&& written.action == ActionView::Stop
            &&& after.action == ActionView::Stop
        }),
{
}

} // verus!
