//! The fixed values of the application, and the record that carries the
//! identity of the application and the address of the API to those who need
//! them.

use vstd::prelude::*;

verus! {

/// The author under whose name the preferences are stored.
pub const AUTHOR: &'static str = "RonquilloAeon";

/// The name under which the preferences are stored.
pub const APP_NAME: &'static str = "CryptoPanicPortfolioFetcher";

/// The key of the stored preferences within the application's store.
pub const PREFERENCES_KEY: &'static str = "config";

/// The address below which the API's endpoints lie.
pub const API_BASE_URL: &'static str = "https://cryptopanic.com/api/v1";

/// The identity of the application and the address of the API. It is made
/// once, when the program starts, and handed on from there.
#[derive(Debug, Clone, Copy, PartialEq, Eq)]
pub struct Config {
    /// The name under which the preferences are stored.
    pub name: &'static str,
    /// The author under whose name the preferences are stored.
    pub author: &'static str,
    /// The key of the stored preferences within the application's store.
    pub preferences_key: &'static str,
    /// The address below which the API's endpoints lie.
    pub api_base_url: &'static str,
}

impl Config {
    /// The configuration of the application: its fixed values.
    pub fn new() -> (config: Config)
        ensures
            config.name@ == APP_NAME@,
            config.author@ == AUTHOR@,
            config.preferences_key@ == PREFERENCES_KEY@,
            config.api_base_url@ == API_BASE_URL@,
    {
        Config {
            name: APP_NAME,
            author: AUTHOR,
            preferences_key: PREFERENCES_KEY,
            api_base_url: API_BASE_URL,
        }
    }
}

/// The preference that holds the API token.
pub const API_TOKEN: &'static str = "api-token";

/// The preference that holds the data directory.
pub const DATA_DIR: &'static str = "data-dir";

/// What is printed where no command was given.
pub const USAGE_HINT: &'static str =
    "Please select a command to continue. Use --help to view usage.";

} // verus!
