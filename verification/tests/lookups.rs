use checkpwn_lib::{
    account_lookup, evaluate_acc_responses, evaluate_pass_breach, response_to_status_codes,
    CheckpwnError, HttpError, HttpResponse, Password,
};

// What https://api.pwnedpasswords.com/range/B1B37 answers, in part.
const RANGE_B1B37: &str = "73678F196DE938F721CD408ED190330F5DB:3\r\n\
                           7377BA15B8D5E12FCCBA32B074D45503D67:2\r\n\
                           7387376AFD1B3DAB553D439C8A7D7CDDED1:0\r\n\
                           73A05C0ED0176787A4F1574FF0075F7521E:3752262\r\n\
                           748186F058DA83745B80E70B66D36B216A4:4\r\n\
                           75FEC591927A596B6114ED5DAC4E4C22E04:0";

// An answer for the range of another digest, in which that digest is not listed.
const RANGE_WITHOUT_MATCH: &str = "7EC6529B5FFD62972B78F961DA68CCC1B0E:1\r\n\
                                   7ECD0E2C0152DB98585B54B0161E05D5823:0\r\n\
                                   7ED83795FEA81B716B31648AE233AB392B6:1";

/// The two steps of an account lookup, with the answers of the server given
/// in place of the requests.
#[test]
fn test_check_account() {
    let api_key = "0123456789abcdef0123456789abcdef";

    let lookup = account_lookup("test@example.com", api_key).unwrap();
    assert_eq!(
        lookup.breaches.route,
        "https://haveibeenpwned.com/api/v3/breachedaccount/test@example.com"
    );
    let acc_stat = Ok(HttpResponse { status: 200 });
    let paste_stat = Ok(HttpResponse { status: 200 });
    assert_eq!(evaluate_acc_responses(&acc_stat, &paste_stat).unwrap(), true);

    let lookup = account_lookup("fsrEos7s@wZ3zdGxr.com", api_key).unwrap();
    assert_eq!(
        lookup.pastes.route,
        "https://haveibeenpwned.com/api/v3/pasteaccount/fsrEos7s@wZ3zdGxr.com"
    );
    let acc_stat = Err(HttpError::Status(404));
    let paste_stat = Err(HttpError::Status(404));
    assert_eq!(
        evaluate_acc_responses(&acc_stat, &paste_stat).unwrap(),
        false
    );
}

/// The two steps of a password lookup, with the answers of the server given
/// in place of the request.
#[test]
fn test_check_password() {
    let breached_password = Password::new("qwerty").unwrap();
    let non_breached_password = Password::new("dHRUKbDaKgIobOtX").unwrap();

    assert_eq!(
        breached_password.request().route,
        "https://api.pwnedpasswords.com/range/B1B37"
    );
    let request_status = response_to_status_codes(&Ok(HttpResponse { status: 200 })).unwrap();
    assert_eq!(
        evaluate_pass_breach(&breached_password, request_status, RANGE_B1B37).unwrap(),
        true
    );
    assert_eq!(
        evaluate_pass_breach(&non_breached_password, request_status, RANGE_WITHOUT_MATCH)
            .unwrap(),
        false
    );
}

#[test]
fn account_lookup_of_a_user_name() {
    // the paste endpoint knows only e-mail addresses, and answers 400 to a user name
    let lookup = account_lookup("some_user", "key").unwrap();
    assert_eq!(
        lookup.breaches.route,
        "https://haveibeenpwned.com/api/v3/breachedaccount/some_user"
    );
    assert_eq!(
        evaluate_acc_responses(
            &Ok(HttpResponse { status: 200 }),
            &Err(HttpError::Status(400))
        ),
        Ok(true)
    );
    assert_eq!(
        evaluate_acc_responses(&Err(HttpError::Status(404)), &Err(HttpError::Status(400))),
        Ok(false)
    );
}

#[test]
fn account_lookup_with_a_refused_key() {
    assert_eq!(
        evaluate_acc_responses(&Err(HttpError::Status(401)), &Err(HttpError::Status(401))),
        Err(CheckpwnError::InvalidApiKey)
    );
}

#[test]
fn password_lookup_that_was_not_answered() {
    assert_eq!(
        response_to_status_codes(&Err(HttpError::Transport)),
        Err(CheckpwnError::Network)
    );
}

#[test]
fn password_lookup_of_another_password_in_the_same_range() {
    let password = Password::new("dHRUKbDaKgIobOtX").unwrap();
    assert_eq!(evaluate_pass_breach(&password, 200, RANGE_B1B37), Ok(false));
}
