use uoe_ms_auth::auth_flow::{AuthState, StepAction};
use uoe_ms_auth::ms_handlers::{
    after_otp_submission, approval_state, determin_2fa_state, form_action_kind, handler_auth_spooling,
    handler_phone_notification, handler_phone_otp, FormAction, MethodOffer, Ms2faStates,
    PageCheckbox, PageControl, SpoolAction,
};

#[test]
fn form_actions_are_told_apart() {
    assert_eq!(
        form_action_kind("https://login.microsoftonline.com/appverify"),
        FormAction::AppVerify
    );
    assert_eq!(form_action_kind("https://login.microsoftonline.com/kmsi"), FormAction::Kmsi);
    assert_eq!(
        form_action_kind("https://login.microsoftonline.com/common/SAS/ProcessAuth"),
        FormAction::ProcessAuth
    );
    assert_eq!(form_action_kind("https://login.microsoftonline.com/kmsi/"), FormAction::Other);
    assert_eq!(form_action_kind("/kmsi"), FormAction::Other);
    assert_eq!(form_action_kind(""), FormAction::Other);
}

#[test]
fn two_factor_stage_from_page() {
    assert_eq!(determin_2fa_state(FormAction::AppVerify, true, true), Ms2faStates::TrustWebsite);
    assert_eq!(determin_2fa_state(FormAction::Kmsi, false, false), Ms2faStates::StaySignedIn);
    assert_eq!(
        determin_2fa_state(FormAction::ProcessAuth, true, true),
        Ms2faStates::PhoneAppNotification
    );
    assert_eq!(determin_2fa_state(FormAction::ProcessAuth, false, true), Ms2faStates::PhoneOTP);
    assert_eq!(
        determin_2fa_state(FormAction::ProcessAuth, false, false),
        Ms2faStates::ChooseVerificationOption
    );
    assert_eq!(determin_2fa_state(FormAction::Other, true, false), Ms2faStates::Unknown);
}

const BOTH: MethodOffer = MethodOffer { phone_notification: true, one_time_code: true };
const NONE: MethodOffer = MethodOffer { phone_notification: false, one_time_code: false };

#[test]
fn spooling_acts_on_each_stage() {
    assert_eq!(
        handler_auth_spooling(Ms2faStates::TrustWebsite, NONE),
        SpoolAction::Click {
            tick: None,
            control: PageControl::TrustSite,
            then: AuthState::AuthSpooling
        }
    );
    assert_eq!(
        handler_auth_spooling(Ms2faStates::ChooseVerificationOption, BOTH),
        SpoolAction::Click {
            tick: None,
            control: PageControl::PhoneNotificationOption,
            then: AuthState::AuthSpooling
        }
    );
    assert_eq!(
        handler_auth_spooling(Ms2faStates::PhoneAppNotification, NONE),
        SpoolAction::ReadApprovalCode { tick: Some(PageCheckbox::DontAskAgainForThirtyDays) }
    );
    assert_eq!(
        handler_auth_spooling(Ms2faStates::PhoneOTP, NONE),
        SpoolAction::Settle(AuthState::PhoneOTP(None))
    );
    assert_eq!(
        handler_auth_spooling(Ms2faStates::StaySignedIn, NONE),
        SpoolAction::Click {
            tick: Some(PageCheckbox::DontShowStaySignedInAgain),
            control: PageControl::StaySignedIn,
            then: AuthState::Authenticated
        }
    );
    assert_eq!(
        handler_auth_spooling(Ms2faStates::Unknown, BOTH),
        SpoolAction::Settle(AuthState::Failure)
    );
}

#[test]
fn one_time_code_is_the_fallback_method() {
    let pick = |offer: MethodOffer| match handler_auth_spooling(Ms2faStates::ChooseVerificationOption, offer) {
        SpoolAction::Click { control, .. } => control,
        other => panic!("unexpected {:?}", other),
    };
    assert_eq!(
        pick(MethodOffer { phone_notification: false, one_time_code: true }),
        PageControl::OneTimeCodeOption
    );
    assert_eq!(
        pick(MethodOffer { phone_notification: true, one_time_code: false }),
        PageControl::PhoneNotificationOption
    );
    assert_eq!(pick(BOTH), PageControl::PhoneNotificationOption);
    assert_eq!(pick(NONE), PageControl::PhoneNotificationOption);
}

#[test]
fn approval_number_is_read() {
    assert_eq!(approval_state("42"), AuthState::ApproveAppNotif(42));
    assert_eq!(approval_state("07"), AuthState::ApproveAppNotif(7));
    assert_eq!(approval_state("+5"), AuthState::ApproveAppNotif(5));
    assert_eq!(approval_state("18446744073709551615"), AuthState::ApproveAppNotif(u64::MAX));
}

#[test]
fn approval_text_that_is_no_number_fails() {
    for text in ["", "+", "-1", "4 2", " 42", "42\n", "x", "18446744073709551616", "++1", "٤٢"] {
        assert_eq!(approval_state(text), AuthState::Failure, "text {:?}", text);
    }
}

#[test]
fn notification_poll_keeps_the_number_while_pending() {
    assert_eq!(
        handler_phone_notification(Ms2faStates::PhoneAppNotification, 81),
        AuthState::ApproveAppNotif(81)
    );
    assert_eq!(
        handler_phone_notification(Ms2faStates::StaySignedIn, 81),
        AuthState::AuthSpooling
    );
    assert_eq!(handler_phone_notification(Ms2faStates::Unknown, 81), AuthState::AuthSpooling);
}

#[test]
fn otp_prompt_submits_a_code_it_has() {
    assert_eq!(handler_phone_otp(Some("123456".to_string())), StepAction::SubmitOtp("123456".to_string()));
    assert_eq!(handler_phone_otp(None), StepAction::Settle(AuthState::PhoneOTP(None)));
}

#[test]
fn every_classified_stage_is_handled_by_spooling() {
    for kind in [FormAction::AppVerify, FormAction::Kmsi, FormAction::ProcessAuth, FormAction::Other] {
        for number in [false, true] {
            for code_box in [false, true] {
                let stage = determin_2fa_state(kind, number, code_box);
                assert!(!matches!(
                    stage,
                    Ms2faStates::TryingPassKeys | Ms2faStates::CouldntPasskey | Ms2faStates::IncorrectCode
                ));
                let _ = handler_auth_spooling(stage, BOTH);
            }
        }
    }
}

#[test]
fn only_stay_signed_in_signs_in_from_the_second_factor_pages() {
    for stage in [
        Ms2faStates::TrustWebsite,
        Ms2faStates::ChooseVerificationOption,
        Ms2faStates::PhoneAppNotification,
        Ms2faStates::PhoneOTP,
        Ms2faStates::Unknown,
    ] {
        let signs_in = matches!(
            handler_auth_spooling(stage, BOTH),
            SpoolAction::Click { then: AuthState::Authenticated, .. }
                | SpoolAction::Settle(AuthState::Authenticated)
        );
        assert!(!signs_in);
    }
    assert!(matches!(
        handler_auth_spooling(Ms2faStates::StaySignedIn, NONE),
        SpoolAction::Click { then: AuthState::Authenticated, .. }
    ));
}

#[test]
fn otp_submission_leads_back_to_spooling() {
    assert_eq!(after_otp_submission(), AuthState::AuthSpooling);
}
