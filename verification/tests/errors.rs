use checkpwn_lib::{
    CheckpwnError, ACCOUNT_DELAY_MILLIS, API_KEY_HEADER, CHECKPWN_USER_AGENT,
    CONNECT_TIMEOUT_SECS, PADDING_HEADER, PADDING_VALUE,
};

#[test]
fn each_error_has_its_text() {
    assert_eq!(
        CheckpwnError::StatusCode.as_ref(),
        "Unrecognized status code received"
    );
    assert_eq!(CheckpwnError::Network.as_ref(), "Failed to send request to HIBP");
    assert_eq!(
        CheckpwnError::Decoding.as_ref(),
        "Failed to decode response from HIBP"
    );
    assert_eq!(
        CheckpwnError::BadResponse.as_ref(),
        "Received a bad response from HIBP - make sure the account is valid"
    );
    assert_eq!(
        CheckpwnError::InvalidApiKey.as_ref(),
        "HIBP deemed the current API key invalid"
    );
    assert_eq!(CheckpwnError::MissingApiKey.as_ref(), "The API key is missing");
    assert_eq!(
        CheckpwnError::EmptyInput.as_ref(),
        "Empty input that should NOT be empty"
    );
}

#[test]
fn text_of_an_error_is_the_same_by_both_ways() {
    for error in [
        CheckpwnError::StatusCode,
        CheckpwnError::Network,
        CheckpwnError::Decoding,
        CheckpwnError::BadResponse,
        CheckpwnError::InvalidApiKey,
        CheckpwnError::MissingApiKey,
        CheckpwnError::EmptyInput,
    ] {
        assert_eq!(error.as_str(), error.as_ref());
        assert!(!error.as_str().is_empty());
    }
    assert_eq!(CheckpwnError::Network.as_str(), "Failed to send request to HIBP");
}

#[test]
fn errors_compare_by_variant() {
    assert_eq!(CheckpwnError::Network, CheckpwnError::Network);
    assert_ne!(CheckpwnError::Network, CheckpwnError::StatusCode);
    let copy = CheckpwnError::EmptyInput;
    let other = copy;
    assert_eq!(copy, other);
}

#[test]
fn what_the_requests_are_sent_with() {
    assert_eq!(CHECKPWN_USER_AGENT, "checkpwn - cargo utility tool for hibp");
    assert_eq!(API_KEY_HEADER, "hibp-api-key");
    assert_eq!(PADDING_HEADER, "Add-Padding");
    assert_eq!(PADDING_VALUE, "true");
    assert_eq!(CONNECT_TIMEOUT_SECS, 10);
    assert_eq!(ACCOUNT_DELAY_MILLIS, 1600);
    assert!(ACCOUNT_DELAY_MILLIS >= 1500);
}
