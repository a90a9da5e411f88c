use cryptopanic_fetcher::ApplicationError;

#[test]
fn messages_name_the_failure() {
    assert_eq!(ApplicationError::FetchError.message(), "error: FetchError");
    assert_eq!(ApplicationError::DataSaveError.message(), "error: DataSaveError");
    assert_eq!(ApplicationError::DirectoryError.message(), "error: DirectoryError");
    assert_eq!(ApplicationError::NoAPIToken.message(), "error: NoAPIToken");
    assert_eq!(ApplicationError::ParseError.message(), "error: ParseError");
    assert_eq!(
        ApplicationError::PreferencesSaveError.message(),
        "error: PreferencesSaveError"
    );
}

#[test]
fn message_matches_debug_name() {
    let all = [
        ApplicationError::FetchError,
        ApplicationError::DataSaveError,
        ApplicationError::DirectoryError,
        ApplicationError::NoAPIToken,
        ApplicationError::ParseError,
        ApplicationError::PreferencesSaveError,
    ];
    for error in all {
        assert_eq!(error.message(), format!("error: {:?}", error));
    }
}
