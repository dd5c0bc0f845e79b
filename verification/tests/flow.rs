use uoe_ms_auth::ms_handlers::Ms2faStates;
use uoe_ms_auth::auth_flow::{
    advance, Observation,
    credentials_outcome, handler_creds_prompt, handler_init, is_login_redirect,
    is_retryable_error, step_auth_sm, AuthState, DriverErrorKind, PageLocation, RedirectPoll,
    RedirectWait, RetryDecision, RetryState, StepAction, INITIAL_RETRY_DELAY_MS, MAX_ATTEMPTS,
    REDIRECT_TIMEOUT_MS,
};

fn loc(domain: Option<&str>, path: &str) -> PageLocation {
    PageLocation { domain: domain.map(|d| d.to_string()), path: path.to_string() }
}

fn s(text: &str) -> String {
    text.to_string()
}

#[test]
fn exit_state_only_for_finished_states() {
    assert!(AuthState::Failure.exit_state());
    assert!(AuthState::FailureUserPassword.exit_state());
    assert!(AuthState::Authenticated.exit_state());
    assert!(!AuthState::Init.exit_state());
    assert!(!AuthState::AuthSpooling.exit_state());
    assert!(!AuthState::ApproveAppNotif(42).exit_state());
    assert!(!AuthState::PhoneOTP(None).exit_state());
    assert!(!AuthState::PhoneOTP(Some(s("123456"))).exit_state());
    assert!(!AuthState::CredsPrompt { username: None, password: None }.exit_state());
}

#[test]
fn landing_on_exam_papers_means_signed_in() {
    assert_eq!(handler_init(&loc(Some("exampapers.ed.ac.uk"), "/")), AuthState::Authenticated);
    assert_eq!(
        handler_init(&loc(Some("exampapers.ed.ac.uk"), "/anything/else")),
        AuthState::Authenticated
    );
}

#[test]
fn landing_on_university_form_asks_for_credentials() {
    assert_eq!(
        handler_init(&loc(Some("edadfed.ed.ac.uk"), "/adfs/ls/")),
        AuthState::CredsPrompt { username: None, password: None }
    );
}

#[test]
fn landing_elsewhere_fails() {
    assert_eq!(handler_init(&loc(Some("edadfed.ed.ac.uk"), "/adfs/ls")), AuthState::Failure);
    assert_eq!(handler_init(&loc(Some("idp.ed.ac.uk"), "/adfs/ls/")), AuthState::Failure);
    assert_eq!(handler_init(&loc(None, "/adfs/ls/")), AuthState::Failure);
    assert_eq!(handler_init(&loc(Some("EXAMPAPERS.ed.ac.uk"), "/")), AuthState::Failure);
    assert_eq!(handler_init(&loc(Some(""), "")), AuthState::Failure);
}

#[test]
fn login_redirect_is_recognised() {
    assert!(is_login_redirect(&loc(Some("login.microsoftonline.com"), "/login.srf")));
    assert!(!is_login_redirect(&loc(Some("login.microsoftonline.com"), "/login.srf/")));
    assert!(!is_login_redirect(&loc(Some("login.microsoft.com"), "/login.srf")));
    assert!(!is_login_redirect(&loc(None, "/login.srf")));
}

#[test]
fn redirect_wait_times_out_after_ten_seconds() {
    let wait = RedirectWait::start(1_000);
    assert_eq!(wait.deadline_ms, 1_000 + REDIRECT_TIMEOUT_MS);
    assert_eq!(wait.deadline_ms, 11_000);
    let form = loc(Some("edadfed.ed.ac.uk"), "/adfs/ls/");
    assert_eq!(wait.poll(&form, 1_000), RedirectPoll::KeepWaiting);
    assert_eq!(wait.poll(&form, 10_999), RedirectPoll::KeepWaiting);
    assert_eq!(wait.poll(&form, 11_000), RedirectPoll::TimedOut);
    assert_eq!(wait.poll(&form, 50_000), RedirectPoll::TimedOut);
}

#[test]
fn redirect_is_seen_before_the_deadline_is_checked() {
    let wait = RedirectWait::start(0);
    let ms = loc(Some("login.microsoftonline.com"), "/login.srf");
    assert_eq!(wait.poll(&ms, 5), RedirectPoll::Redirected);
    assert_eq!(wait.poll(&ms, 1_000_000), RedirectPoll::Redirected);
}

#[test]
fn credentials_outcome_follows_the_redirect() {
    assert_eq!(credentials_outcome(true), AuthState::AuthSpooling);
    assert_eq!(credentials_outcome(false), AuthState::FailureUserPassword);
}

#[test]
fn only_other_driver_errors_are_final() {
    for kind in [
        DriverErrorKind::RequestFailed,
        DriverErrorKind::Timeout,
        DriverErrorKind::WebDriverTimeout,
        DriverErrorKind::NoSuchElement,
        DriverErrorKind::StaleElementReference,
        DriverErrorKind::ElementNotInteractable,
        DriverErrorKind::ElementClickIntercepted,
    ] {
        assert!(is_retryable_error(&kind));
    }
    assert!(!is_retryable_error(&DriverErrorKind::Other));
}

#[test]
fn retry_waits_250_then_500_then_gives_up() {
    let first = RetryState::new();
    assert_eq!(first.attempt(), 1);
    let second = match first.after_failure(&DriverErrorKind::Timeout) {
        RetryDecision::RetryAfter { wait_ms, next } => {
            assert_eq!(wait_ms, INITIAL_RETRY_DELAY_MS);
            assert_eq!(wait_ms, 250);
            next
        }
        RetryDecision::GiveUp => panic!("a timeout at the first attempt is retried"),
    };
    assert_eq!(second.attempt(), 2);
    let third = match second.after_failure(&DriverErrorKind::NoSuchElement) {
        RetryDecision::RetryAfter { wait_ms, next } => {
            assert_eq!(wait_ms, 500);
            next
        }
        RetryDecision::GiveUp => panic!("a missing element at the second attempt is retried"),
    };
    assert_eq!(third.attempt(), u8::from(MAX_ATTEMPTS));
    assert_eq!(third.after_failure(&DriverErrorKind::Timeout), RetryDecision::GiveUp);
}

#[test]
fn retry_gives_up_at_once_on_other_errors() {
    let first = RetryState::new();
    assert_eq!(first.after_failure(&DriverErrorKind::Other), RetryDecision::GiveUp);
}

#[test]
fn step_dispatches_on_every_state() {
    assert_eq!(step_auth_sm(AuthState::Init), StepAction::OpenLanding);
    assert_eq!(step_auth_sm(AuthState::AuthSpooling), StepAction::Spool);
    assert_eq!(step_auth_sm(AuthState::ApproveAppNotif(17)), StepAction::PollApproval(17));
    assert_eq!(
        step_auth_sm(AuthState::PhoneOTP(Some(s("654321")))),
        StepAction::SubmitOtp(s("654321"))
    );
    assert_eq!(
        step_auth_sm(AuthState::PhoneOTP(None)),
        StepAction::Settle(AuthState::PhoneOTP(None))
    );
    assert_eq!(
        step_auth_sm(AuthState::CredsPrompt {
            username: Some(s("s1234567@ed.ac.uk")),
            password: Some(s("pw")),
        }),
        StepAction::SubmitCredentials { username: s("s1234567@ed.ac.uk"), password: s("pw") }
    );
}

#[test]
fn finished_states_are_handed_back() {
    for state in [AuthState::Failure, AuthState::FailureUserPassword, AuthState::Authenticated] {
        assert_eq!(step_auth_sm(state.clone()), StepAction::Settle(state));
    }
}

#[test]
fn credentials_prompt_without_both_stays_empty() {
    let empty = StepAction::Settle(AuthState::CredsPrompt { username: None, password: None });
    assert_eq!(handler_creds_prompt(None, None), empty);
    assert_eq!(handler_creds_prompt(Some(s("a@ed.ac.uk")), None), empty);
    assert_eq!(handler_creds_prompt(None, Some(s("pw"))), empty);
}

#[test]
fn only_microsoft_pages_are_retried() {
    assert!(StepAction::Spool.is_retried());
    assert!(StepAction::PollApproval(1).is_retried());
    assert!(StepAction::SubmitOtp(s("1")).is_retried());
    assert!(!StepAction::OpenLanding.is_retried());
    assert!(!StepAction::SubmitCredentials { username: s("u"), password: s("p") }.is_retried());
    assert!(!StepAction::Settle(AuthState::PhoneOTP(None)).is_retried());
}

#[test]
fn advance_follows_what_the_step_saw() {
    assert_eq!(
        advance(StepAction::OpenLanding, Observation::Landing(loc(Some("exampapers.ed.ac.uk"), "/"))),
        Some(AuthState::Authenticated)
    );
    assert_eq!(
        advance(StepAction::OpenLanding, Observation::Landing(loc(Some("edadfed.ed.ac.uk"), "/adfs/ls/"))),
        Some(AuthState::CredsPrompt { username: None, password: None })
    );
    let submit = || StepAction::SubmitCredentials { username: s("u@ed.ac.uk"), password: s("p") };
    assert_eq!(advance(submit(), Observation::CredentialsRedirect(true)), Some(AuthState::AuthSpooling));
    assert_eq!(
        advance(submit(), Observation::CredentialsRedirect(false)),
        Some(AuthState::FailureUserPassword)
    );
    assert_eq!(
        advance(StepAction::PollApproval(9), Observation::NotificationStage(Ms2faStates::PhoneAppNotification)),
        Some(AuthState::ApproveAppNotif(9))
    );
    assert_eq!(
        advance(StepAction::PollApproval(9), Observation::NotificationStage(Ms2faStates::StaySignedIn)),
        Some(AuthState::AuthSpooling)
    );
    assert_eq!(advance(StepAction::SubmitOtp(s("1")), Observation::Quiet), Some(AuthState::AuthSpooling));
    assert_eq!(
        advance(StepAction::Spool, Observation::Spooled { stage: Ms2faStates::PhoneAppNotification, approval_text: s("37") }),
        Some(AuthState::ApproveAppNotif(37))
    );
    assert_eq!(
        advance(StepAction::Spool, Observation::Spooled { stage: Ms2faStates::PhoneAppNotification, approval_text: s("x") }),
        Some(AuthState::Failure)
    );
    assert_eq!(
        advance(StepAction::Spool, Observation::Spooled { stage: Ms2faStates::StaySignedIn, approval_text: s("") }),
        Some(AuthState::Authenticated)
    );
    assert_eq!(
        advance(StepAction::Spool, Observation::Spooled { stage: Ms2faStates::ChooseVerificationOption, approval_text: s("") }),
        Some(AuthState::AuthSpooling)
    );
    assert_eq!(
        advance(StepAction::Spool, Observation::Spooled { stage: Ms2faStates::PhoneOTP, approval_text: s("") }),
        Some(AuthState::PhoneOTP(None))
    );
    assert_eq!(
        advance(StepAction::Spool, Observation::Spooled { stage: Ms2faStates::IncorrectCode, approval_text: s("") }),
        None
    );
    assert_eq!(
        advance(StepAction::Settle(AuthState::Failure), Observation::Quiet),
        Some(AuthState::Failure)
    );
    assert_eq!(advance(StepAction::OpenLanding, Observation::Quiet), None);
}
