//! Decision logic of a small command-line client that keeps a local
//! preferences store and fetches a portfolio snapshot from the CryptoPanic API.
//!
//! Nothing here reads the store, talks to the network or writes a file: the
//! program around this library does that. It hands in plain values and
//! carries out the actions that the library tells it to perform.

pub mod clock;
pub mod configure;
pub mod consts;
pub mod error;
pub mod fetch;
pub mod home;
pub mod json;
pub mod preferences;
pub mod snapshot;

pub use clock::Timestamp;
pub use configure::{
    list_preferences, manage_configuration, run_configure, ConfigureAction, ConfigureEvent,
    ConfigureOptions, ConfigureState, ConfigureStep,
};
pub use consts::Config;
pub use error::ApplicationError;
pub use fetch::{
    fetch_portfolio_data, fetch_transition, get_data_dir, join, minute_file_name,
    resolve_data_dir, run_fetch_portfolio, save_portfolio, saved_message, snapshot_file_name,
    FetchAction, FetchEvent, FetchOptions, FetchState, FetchStep, PortfolioRequest, SnapshotFile,
};
pub use preferences::{get_preferences, Preferences};
pub use snapshot::{
    amount, capture_date, print_portfolio_data, process_portfolio_data, process_response,
    summary_line, Snapshot,
};
