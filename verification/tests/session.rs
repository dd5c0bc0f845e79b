use uoe_ms_auth::auth_flow::{step_auth_sm, AuthState, StepAction};
use uoe_ms_auth::session::{
    check_credentials, cookie_domains, is_university_email, prepare_step, run_outcome,
    CredentialError, Interaction,
};
use uoe_ms_auth::text::{ends_with, parse_u64, same_text};

fn s(text: &str) -> String {
    text.to_string()
}

#[test]
fn university_addresses() {
    assert!(is_university_email("s1234567@ed.ac.uk"));
    assert!(is_university_email("@ed.ac.uk"));
    assert!(!is_university_email("s1234567@ed.ac.uk "));
    assert!(!is_university_email("s1234567@gmail.com"));
    assert!(!is_university_email("ed.ac.uk"));
    assert!(!is_university_email(""));
}

#[test]
fn credentials_are_checked_username_first() {
    assert_eq!(check_credentials("s1234567@ed.ac.uk", "secret"), Ok(()));
    assert_eq!(
        check_credentials("someone@example.com", "secret"),
        Err(CredentialError::UsernameNotUniversity)
    );
    assert_eq!(
        check_credentials("someone@example.com", ""),
        Err(CredentialError::UsernameNotUniversity)
    );
    assert_eq!(check_credentials("s1234567@ed.ac.uk", ""), Err(CredentialError::EmptyPassword));
}

#[test]
fn credential_errors_read_as_before() {
    assert_eq!(
        CredentialError::UsernameNotUniversity.message(),
        "username must end with @ed.ac.uk"
    );
    assert_eq!(CredentialError::EmptyPassword.message(), "password must not be empty");
}

#[test]
fn prompt_gets_host_credentials_which_are_submitted() {
    let (state, interaction) = prepare_step(
        AuthState::CredsPrompt { username: None, password: None },
        &s("s1@ed.ac.uk"),
        &s("pw"),
    );
    assert_eq!(interaction, Interaction::Continue);
    assert_eq!(
        state,
        AuthState::CredsPrompt { username: Some(s("s1@ed.ac.uk")), password: Some(s("pw")) }
    );
    assert_eq!(
        step_auth_sm(state),
        StepAction::SubmitCredentials { username: s("s1@ed.ac.uk"), password: s("pw") }
    );
}

#[test]
fn host_is_asked_only_when_needed() {
    let u = s("s1@ed.ac.uk");
    let p = s("pw");
    assert_eq!(
        prepare_step(AuthState::ApproveAppNotif(12), &u, &p),
        (AuthState::ApproveAppNotif(12), Interaction::NotifyApproval(12))
    );
    assert_eq!(
        prepare_step(AuthState::PhoneOTP(None), &u, &p),
        (AuthState::PhoneOTP(None), Interaction::RequestOtp)
    );
    for state in [AuthState::Init, AuthState::AuthSpooling, AuthState::Failure, AuthState::Authenticated] {
        assert_eq!(prepare_step(state.clone(), &u, &p), (state, Interaction::Continue));
    }
}

#[test]
fn host_loop_never_idles_on_an_unfinished_state() {
    let u = s("s1@ed.ac.uk");
    let p = s("pw");
    for state in [
        AuthState::Init,
        AuthState::CredsPrompt { username: None, password: None },
        AuthState::AuthSpooling,
        AuthState::ApproveAppNotif(3),
        AuthState::PhoneOTP(None),
    ] {
        let (prepared, interaction) = prepare_step(state, &u, &p);
        let ready = if interaction == Interaction::RequestOtp {
            AuthState::PhoneOTP(Some(s("000000")))
        } else {
            prepared
        };
        assert!(!matches!(step_auth_sm(ready), StepAction::Settle(_)));
    }
}

#[test]
fn outcome_is_ok_only_when_signed_in() {
    assert_eq!(run_outcome(AuthState::Authenticated), Ok(()));
    assert_eq!(run_outcome(AuthState::Failure), Err(AuthState::Failure));
    assert_eq!(
        run_outcome(AuthState::FailureUserPassword),
        Err(AuthState::FailureUserPassword)
    );
}

#[test]
fn session_cookie_sites() {
    assert_eq!(
        cookie_domains(),
        vec![
            "edadfed.ed.ac.uk",
            "exampapers.ed.ac.uk",
            "idp.ed.ac.uk",
            "login.live.com",
            "login.microsoft.com",
            "login.microsoftonline.com",
        ]
    );
}

#[test]
fn text_helpers() {
    assert!(same_text("abc", "abc"));
    assert!(!same_text("abc", "abd"));
    assert!(!same_text("abc", "ab"));
    assert!(same_text("", ""));
    assert!(same_text("héllo", "héllo"));
    assert!(ends_with("abc", "bc"));
    assert!(ends_with("abc", ""));
    assert!(ends_with("abc", "abc"));
    assert!(!ends_with("bc", "abc"));
    assert!(ends_with("naïve@ed.ac.uk", "@ed.ac.uk"));
}

#[test]
fn parse_agrees_with_std() {
    for text in [
        "0", "1", "42", "+42", "007", "", "+", "-", "-0", "1a", "a1", " 1", "1 ",
        "18446744073709551615", "18446744073709551616", "99999999999999999999",
        "000000000000000000000000018446744073709551615", "+-1", "١",
    ] {
        assert_eq!(parse_u64(text), text.parse::<u64>().ok(), "text {:?}", text);
    }
}
