use vstd::prelude::*;
use crate::auth_flow::{opt_text, AuthPhase, AuthState, StepAction, StepPlan};
use crate::text::{parse_u64, parse_u64_spec, same_text};

verus! {

/// The stages of Microsoft's second-factor pages.
#[derive(Debug, PartialEq, Eq, Structural, Clone, Copy)]
pub enum Ms2faStates {
    TrustWebsite,
    TryingPassKeys,
    CouldntPasskey,
    ChooseVerificationOption,
    PhoneAppNotification,
    PhoneOTP,
    IncorrectCode,
    StaySignedIn,
    Unknown,
}

/// What the first form on a Microsoft page submits to.
#[derive(Debug, PartialEq, Eq, Structural, Clone, Copy)]
pub enum FormAction {
    /// The "do you trust ed.ac.uk" question.
    AppVerify,
    /// The "stay signed in" question.
    Kmsi,
    /// The second-factor page, whose content says which factor is asked.
    ProcessAuth,
    /// Anything else.
    Other,
}

/// The kind of a form by its action address.
pub open spec fn form_action_spec(action: Seq<char>) -> FormAction {
    if action == "https://login.microsoftonline.com/appverify"@ {
        FormAction::AppVerify
    } else if action == "https://login.microsoftonline.com/kmsi"@ {
        FormAction::Kmsi
    } else if action == "https://login.microsoftonline.com/common/SAS/ProcessAuth"@ {
        FormAction::ProcessAuth
    } else {
        FormAction::Other
    }
}

/// Tells the kind of a form by its action address.
pub fn form_action_kind(action: &str) -> (res: FormAction)
    ensures
        res == form_action_spec(action@),
{
    if same_text(action, "https://login.microsoftonline.com/appverify") {
        FormAction::AppVerify
    } else if same_text(action, "https://login.microsoftonline.com/kmsi") {
        FormAction::Kmsi
    } else if same_text(action, "https://login.microsoftonline.com/common/SAS/ProcessAuth") {
        FormAction::ProcessAuth
    } else {
        FormAction::Other
    }
}

/// The stage of the second-factor pages: the form's kind decides, and on
/// the second-factor page a shown approval number comes before a one-time
/// code box, which comes before the choice of method.
pub open spec fn two_factor_stage(
    kind: FormAction,
    has_approval_number: bool,
    has_code_box: bool,
) -> Ms2faStates {
    match kind {
        FormAction::AppVerify => Ms2faStates::TrustWebsite,
        FormAction::Kmsi => Ms2faStates::StaySignedIn,
        FormAction::ProcessAuth => if has_approval_number {
            Ms2faStates::PhoneAppNotification
        } else if has_code_box {
            Ms2faStates::PhoneOTP
        } else {
            Ms2faStates::ChooseVerificationOption
        },
        FormAction::Other => Ms2faStates::Unknown,
    }
}

/// Determines the stage of the second-factor pages from the kind of the
/// page's first form and, for the second-factor page, from whether it shows
/// an approval number and whether it has a one-time code box (the caller
/// looks for those only on that page).
pub fn determin_2fa_state(kind: FormAction, has_approval_number: bool, has_code_box: bool) -> (res:
    Ms2faStates)
    ensures
        res == two_factor_stage(kind, has_approval_number, has_code_box),
{
    match kind {
        FormAction::AppVerify => Ms2faStates::TrustWebsite,
        FormAction::Kmsi => Ms2faStates::StaySignedIn,
        FormAction::ProcessAuth => {
            if has_approval_number {
                Ms2faStates::PhoneAppNotification
            } else if has_code_box {
                Ms2faStates::PhoneOTP
            } else {
                Ms2faStates::ChooseVerificationOption
            }
        },
        FormAction::Other => Ms2faStates::Unknown,
    }
}

/// The controls on Microsoft's pages that the flow clicks.
#[derive(Debug, PartialEq, Eq, Structural, Clone, Copy)]
pub enum PageControl {
    /// "Continue" on the trust question; the caller then waits for the
    /// question to go away.
    TrustSite,
    /// The Authenticator-notification method in the list of methods; the
    /// caller then waits for an approval number or a code box to show.
    PhoneNotificationOption,
    /// The one-time-code method in the list of methods; the caller then
    /// waits for an approval number or a code box to show.
    OneTimeCodeOption,
    /// "Yes" on the stay-signed-in question.
    StaySignedIn,
}

/// The check boxes on Microsoft's pages that the flow ticks.
#[derive(Debug, PartialEq, Eq, Structural, Clone, Copy)]
pub enum PageCheckbox {
    /// "Don't ask again for 30 days", beside the Authenticator number.
    DontAskAgainForThirtyDays,
    /// "Don't show this again", on the stay-signed-in question.
    DontShowStaySignedInAgain,
}

/// Which second-factor methods the list of methods offers.
#[derive(Debug, PartialEq, Eq, Structural, Clone, Copy)]
pub struct MethodOffer {
    /// A notification to the Authenticator app.
    pub phone_notification: bool,
    /// A one-time code from the Authenticator app.
    pub one_time_code: bool,
}

/// What to do on Microsoft's second-factor pages.
#[derive(Debug, PartialEq, Eq)]
pub enum SpoolAction {
    /// Tick `tick`, where there is one, then click `control`; once that is
    /// done the flow is at `then`.
    Click { tick: Option<PageCheckbox>, control: PageControl, then: AuthState },
    /// Tick `tick`, where there is one, then read the number that the
    /// Authenticator app asks the user to pick, and hand it to
    /// [`approval_state`].
    ReadApprovalCode { tick: Option<PageCheckbox> },
    /// No browser work: the flow moves to this state.
    Settle(AuthState),
}

/// The model of a [`SpoolAction`].
pub enum SpoolPlan {
    Click { tick: Option<PageCheckbox>, control: PageControl, then: AuthPhase },
    ReadApprovalCode { tick: Option<PageCheckbox> },
    Settle(AuthPhase),
}

impl View for SpoolAction {
    type V = SpoolPlan;

    open spec fn view(&self) -> SpoolPlan {
        match self {
            SpoolAction::Click { tick, control, then } => SpoolPlan::Click {
                tick: *tick,
                control: *control,
                then: then@,
            },
            SpoolAction::ReadApprovalCode { tick } => SpoolPlan::ReadApprovalCode { tick: *tick },
            SpoolAction::Settle(state) => SpoolPlan::Settle(state@),
        }
    }
}

/// The stages that the spooling step has a course of action for. The
/// others (passkey attempts, a rejected code) are not handled.
pub open spec fn is_handled_stage(stage: Ms2faStates) -> bool {
    !(stage is TryingPassKeys || stage is CouldntPasskey || stage is IncorrectCode)
}

/// The method picked from the list: the Authenticator notification is
/// preferred, and the one-time code is the fallback when it is the only
/// method offered. Where neither shows, the notification is still tried,
/// as Microsoft accepts it unlisted.
pub open spec fn chosen_method(offer: MethodOffer) -> PageControl {
    if !offer.phone_notification && offer.one_time_code {
        PageControl::OneTimeCodeOption
    } else {
        PageControl::PhoneNotificationOption
    }
}

/// The course of action at each handled stage: trust the university and
/// look again; pick a method and look again; tick "don't ask again for 30
/// days" and read the approval number; ask the user for a one-time code;
/// tick "don't show this again" and stay signed in, which ends the flow
/// signed in; fail on a page that is not recognised.
pub open spec fn spool_plan(stage: Ms2faStates, offer: MethodOffer) -> SpoolPlan {
    match stage {
        Ms2faStates::TrustWebsite => SpoolPlan::Click {
            tick: None,
            control: PageControl::TrustSite,
            then: AuthPhase::AuthSpooling,
        },
        Ms2faStates::ChooseVerificationOption => SpoolPlan::Click {
            tick: None,
            control: chosen_method(offer),
            then: AuthPhase::AuthSpooling,
        },
        Ms2faStates::PhoneAppNotification => SpoolPlan::ReadApprovalCode {
            tick: Some(PageCheckbox::DontAskAgainForThirtyDays),
        },
        Ms2faStates::PhoneOTP => SpoolPlan::Settle(AuthPhase::PhoneOTP(None)),
        Ms2faStates::StaySignedIn => SpoolPlan::Click {
            tick: Some(PageCheckbox::DontShowStaySignedInAgain),
            control: PageControl::StaySignedIn,
            then: AuthPhase::Authenticated,
        },
        _ => SpoolPlan::Settle(AuthPhase::Failure),
    }
}

/// Decides what to do at a stage of Microsoft's second-factor pages, given
/// the methods that the list of methods offers (read only on that list).
pub fn handler_auth_spooling(stage: Ms2faStates, offer: MethodOffer) -> (res: SpoolAction)
    requires
        is_handled_stage(stage),
    ensures
        res@ == spool_plan(stage, offer),
{
    match stage {
        Ms2faStates::TrustWebsite => SpoolAction::Click {
            tick: None,
            control: PageControl::TrustSite,
            then: AuthState::AuthSpooling,
        },
        Ms2faStates::ChooseVerificationOption => {
            let control = if !offer.phone_notification && offer.one_time_code {
                PageControl::OneTimeCodeOption
            } else {
                PageControl::PhoneNotificationOption
            };
            SpoolAction::Click { tick: None, control, then: AuthState::AuthSpooling }
        },
        Ms2faStates::PhoneAppNotification => SpoolAction::ReadApprovalCode {
            tick: Some(PageCheckbox::DontAskAgainForThirtyDays),
        },
        Ms2faStates::PhoneOTP => SpoolAction::Settle(AuthState::PhoneOTP(None)),
        Ms2faStates::StaySignedIn => SpoolAction::Click {
            tick: Some(PageCheckbox::DontShowStaySignedInAgain),
            control: PageControl::StaySignedIn,
            then: AuthState::Authenticated,
        },
        _ => SpoolAction::Settle(AuthState::Failure),
    }
}

/// Where the spooling step leads, from the stage it found and the number it
/// read where it read one: what the methods on offer are does not matter
/// here, as either method is followed by another look at the pages.
pub open spec fn spool_outcome(stage: Ms2faStates, approval_text: Seq<char>) -> AuthPhase {
    match stage {
        Ms2faStates::TrustWebsite => AuthPhase::AuthSpooling,
        Ms2faStates::ChooseVerificationOption => AuthPhase::AuthSpooling,
        Ms2faStates::PhoneAppNotification => approval_phase(approval_text),
        Ms2faStates::PhoneOTP => AuthPhase::PhoneOTP(None),
        Ms2faStates::StaySignedIn => AuthPhase::Authenticated,
        _ => AuthPhase::Failure,
    }
}

/// Carrying out the spooling plan leads to [`spool_outcome`], whatever
/// methods are on offer.
pub proof fn lemma_spool_plan_leads_to_outcome(
    stage: Ms2faStates,
    offer: MethodOffer,
    approval_text: Seq<char>,
)
    requires
        is_handled_stage(stage),
    ensures
        match spool_plan(stage, offer) {
            SpoolPlan::Click { then, .. } => then == spool_outcome(stage, approval_text),
            SpoolPlan::ReadApprovalCode { .. } => approval_phase(approval_text) == spool_outcome(
                stage,
                approval_text,
            ),
            SpoolPlan::Settle(next) => next == spool_outcome(stage, approval_text),
        },
{
}

/// The state that the number shown for the Authenticator app leads to: the
/// user is to approve that number, or, where the text is not a number, the
/// flow failed.
pub open spec fn approval_phase(text: Seq<char>) -> AuthPhase {
    match parse_u64_spec(text) {
        Some(code) => AuthPhase::ApproveAppNotif(code),
        None => AuthPhase::Failure,
    }
}

/// Reads the number shown for the Authenticator app.
pub fn approval_state(text: &str) -> (res: AuthState)
    ensures
        res@ == approval_phase(text@),
{
    match parse_u64(text) {
        Some(code) => AuthState::ApproveAppNotif(code),
        None => AuthState::Failure,
    }
}

/// While the approval is pending the flow keeps waiting on the same
/// number; once the page moved on (the number was accepted or refused) the
/// second-factor pages are looked at again.
pub open spec fn notification_poll_phase(stage: Ms2faStates, code: u64) -> AuthPhase {
    if stage == Ms2faStates::PhoneAppNotification {
        AuthPhase::ApproveAppNotif(code)
    } else {
        AuthPhase::AuthSpooling
    }
}

/// The state after checking on a pending Authenticator approval for
/// `code`, given the stage the pages are at now.
pub fn handler_phone_notification(stage: Ms2faStates, code: u64) -> (res: AuthState)
    ensures
        res@ == notification_poll_phase(stage, code),
{
    if stage != Ms2faStates::PhoneAppNotification {
        AuthState::AuthSpooling
    } else {
        AuthState::ApproveAppNotif(code)
    }
}

/// At the one-time-code prompt: a code at hand is submitted; without one
/// the prompt stays for the caller to fill.
pub open spec fn otp_plan(otp: Option<Seq<char>>) -> StepPlan {
    match otp {
        Some(code) => StepPlan::SubmitOtp(code),
        None => StepPlan::Settle(AuthPhase::PhoneOTP(None)),
    }
}

/// The one-time-code prompt's part of a step.
pub fn handler_phone_otp(otp: Option<String>) -> (res: StepAction)
    ensures
        res@ == otp_plan(opt_text(otp)),
{
    match otp {
        Some(code) => StepAction::SubmitOtp(code),
        None => StepAction::Settle(AuthState::PhoneOTP(None)),
    }
}

/// Once a one-time code has been typed and submitted, the second-factor
/// pages are looked at again.
pub fn after_otp_submission() -> (res: AuthState)
    ensures
        res@ == AuthPhase::AuthSpooling,
{
    AuthState::AuthSpooling
}

} // verus!
