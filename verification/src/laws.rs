//! Properties of the flow that span several of its functions.
use vstd::prelude::*;
use crate::auth_flow::{
    first_attempt, host_or_empty, is_login_redirect_spec, is_retryable_kind, landing_phase,
    opt_phase, opt_text, plan_next, retry_delay_ms, retry_next, saturating_double, step_plan,
    AuthPhase, AuthState, DriverErrorKind, Observation, RetryView, Sighting, StepAction, StepPlan,
};
use crate::ms_handlers::{
    approval_phase, chosen_method, form_action_spec, is_handled_stage, notification_poll_phase,
    spool_outcome, spool_plan, two_factor_stage, FormAction, MethodOffer, Ms2faStates,
    PageCheckbox, PageControl, SpoolAction, SpoolPlan,
};
use crate::session::{
    credentials_verdict, is_university_email_spec, prepared_phase, CredentialError, Interaction,
};
use crate::text::{decimal_value, has_suffix, parse_u64_spec, unsigned_digits};

verus! {

/// A finished flow stays finished: a step from a finished state does no
/// browser work and hands the same state back.
pub proof fn lemma_finished_states_are_fixed_points(state: AuthPhase)
    requires
        state.is_exit(),
    ensures
        step_plan(state) == StepPlan::Settle(state),
{
}

/// The credentials that the host hands in are the ones typed into the
/// university's form: from the credentials prompt, preparing the step and
/// then stepping submits exactly them.
pub proof fn lemma_host_credentials_are_submitted(
    state: AuthPhase,
    username: Seq<char>,
    password: Seq<char>,
)
    requires
        state is CredsPrompt,
    ensures
        step_plan(prepared_phase(state, username, password).0) == (StepPlan::SubmitCredentials {
            username,
            password,
        }),
{
}

/// The host is asked for a one-time code only when one is required, that
/// is, only at the one-time-code prompt, and always there.
pub proof fn lemma_otp_requested_only_when_required(
    state: AuthPhase,
    username: Seq<char>,
    password: Seq<char>,
)
    ensures
        (prepared_phase(state, username, password).1 == Interaction::RequestOtp) == (
        state is PhoneOTP),
{
}

/// The host is told to have a number approved exactly when the flow waits
/// on the approval of that number.
pub proof fn lemma_approval_notified_only_when_prompted(
    state: AuthPhase,
    username: Seq<char>,
    password: Seq<char>,
    code: u64,
)
    ensures
        (prepared_phase(state, username, password).1 == Interaction::NotifyApproval(code)) == (
        state == AuthPhase::ApproveAppNotif(code)),
{
}

/// Preparing a step changes only the credentials prompt, which it fills.
pub proof fn lemma_preparation_changes_only_the_prompt(
    state: AuthPhase,
    username: Seq<char>,
    password: Seq<char>,
)
    requires
        !(state is CredsPrompt),
    ensures
        prepared_phase(state, username, password).0 == state,
{
}

/// In the host's loop no step is idle: once the step is prepared (and, at
/// the one-time-code prompt, the host's code put in), every unfinished
/// state leads to browser work.
pub proof fn lemma_host_loop_always_acts(
    state: AuthPhase,
    username: Seq<char>,
    password: Seq<char>,
    otp: Seq<char>,
)
    requires
        !state.is_exit(),
    ensures
        ({
            let (prepared, interaction) = prepared_phase(state, username, password);
            let ready = if interaction == Interaction::RequestOtp {
                AuthPhase::PhoneOTP(Some(otp))
            } else {
                prepared
            };
            !(step_plan(ready) is Settle)
        }),
{
}

/// Every stage that the page classifier reports is one the spooling step
/// has a course of action for.
pub proof fn lemma_classified_stages_are_handled(
    kind: FormAction,
    has_approval_number: bool,
    has_code_box: bool,
)
    ensures
        is_handled_stage(two_factor_stage(kind, has_approval_number, has_code_box)),
{
}

/// A retried step is attempted at most three times, whatever the failures:
/// after a first failure it is tried again 250 ms later, after a second
/// 500 ms later, and a third failure is reported.
pub proof fn lemma_retry_schedule(
    first: DriverErrorKind,
    second: DriverErrorKind,
    third: DriverErrorKind,
)
    ensures
        match retry_next(first_attempt(), first) {
            None => true,
            Some(two) => {
                &&& first_attempt().delay_ms == 250
                &&& two.attempt == 2
                &&& two.delay_ms == 500
                &&& match retry_next(two, second) {
                    None => true,
                    Some(three) => {
                        &&& three.attempt == 3
                        &&& retry_next(three, third) is None
                    },
                }
            },
        },
{
}

/// The state that one step of the flow leads to from `state`, when its
/// browser work shows `seen`: the step's plan
/// ([`crate::auth_flow::step_auth_sm`]) carried through
/// [`crate::auth_flow::advance`].
pub open spec fn next_phase(state: AuthPhase, seen: Sighting) -> Option<AuthPhase> {
    plan_next(step_plan(state), seen)
}

/// The states that one step may move between.
pub open spec fn listed_transition(from: AuthPhase, to: AuthPhase) -> bool {
    match from {
        AuthPhase::Init => {
            ||| to is Authenticated
            ||| to == (AuthPhase::CredsPrompt { username: None, password: None })
            ||| to is Failure
        },
        AuthPhase::CredsPrompt { username, password } => if username is Some && password is Some {
            to is AuthSpooling || to is FailureUserPassword
        } else {
            to == (AuthPhase::CredsPrompt { username: None, password: None })
        },
        AuthPhase::AuthSpooling => {
            ||| to is AuthSpooling
            ||| to is ApproveAppNotif
            ||| to == AuthPhase::PhoneOTP(None)
            ||| to is Authenticated
            ||| to is Failure
        },
        AuthPhase::ApproveAppNotif(code) => to is AuthSpooling || to == AuthPhase::ApproveAppNotif(
            code,
        ),
        AuthPhase::PhoneOTP(otp) => if otp is Some {
            to is AuthSpooling
        } else {
            to == AuthPhase::PhoneOTP(None)
        },
        _ => to == from,
    }
}

/// Every step moves between the listed states: from the start to signed
/// in, the credentials prompt or failure; from submitted credentials to the
/// second factor or refusal; from the second-factor pages to themselves, a
/// pending approval, the code prompt, signed in or failure; from a pending
/// approval to itself (same number) or the second-factor pages; from a
/// submitted code to the second-factor pages; prompts without input and
/// finished states stay.
pub proof fn lemma_step_moves_between_listed_states(state: AuthPhase, seen: Sighting)
    requires
        next_phase(state, seen) is Some,
    ensures
        listed_transition(state, next_phase(state, seen)->0),
{
    match seen {
        Sighting::Spooled { stage, approval_text } => {
            assert(approval_phase(approval_text) is ApproveAppNotif || approval_phase(approval_text)
                is Failure);
        },
        _ => {},
    }
}

/// A step's work gives a state whenever what was seen belongs to it: the
/// landing for opening the site, the redirect for the credentials, the
/// stage for a pending approval, a handled stage for the spooling step, and
/// nothing for the rest.
pub proof fn lemma_fitting_sightings_advance(state: AuthPhase, seen: Sighting)
    requires
        match (step_plan(state), seen) {
            (StepPlan::OpenLanding, Sighting::Landing { .. }) => true,
            (StepPlan::SubmitCredentials { .. }, Sighting::CredentialsRedirect(_)) => true,
            (StepPlan::PollApproval(_), Sighting::NotificationStage(_)) => true,
            (StepPlan::SubmitOtp(_), Sighting::Quiet) => true,
            (StepPlan::Spool, Sighting::Spooled { stage, .. }) => is_handled_stage(stage),
            (StepPlan::Settle(_), Sighting::Quiet) => true,
            _ => false,
        },
    ensures
        next_phase(state, seen) is Some,
{
}

/// The flow reports a sign-in only after it landed on the exam papers site
/// or accepted Microsoft's stay-signed-in question.
pub proof fn lemma_sign_in_only_through_exam_papers_or_stay_signed_in(
    state: AuthPhase,
    seen: Sighting,
)
    requires
        next_phase(state, seen) == Some(AuthPhase::Authenticated),
        !(state is Authenticated),
    ensures
        (seen matches Sighting::Landing { domain, path } && host_or_empty(domain)
            == "exampapers.ed.ac.uk"@) || (seen matches Sighting::Spooled { stage, .. }
            && stage == Ms2faStates::StaySignedIn),
{
    match seen {
        Sighting::Spooled { stage, approval_text } => {
            if stage != Ms2faStates::StaySignedIn {
                assert(approval_phase(approval_text) != AuthPhase::Authenticated);
            }
        },
        _ => {},
    }
}

/// A finished flow stays where it is, whatever is seen.
pub proof fn lemma_finished_states_absorb(state: AuthPhase, seen: Sighting)
    requires
        state.is_exit(),
        next_phase(state, seen) is Some,
    ensures
        next_phase(state, seen) == Some(state),
{
}

/// The credentials count as refused only when both were submitted and the
/// redirect did not follow.
pub proof fn lemma_refusal_only_after_submission(state: AuthPhase, seen: Sighting)
    requires
        next_phase(state, seen) == Some(AuthPhase::FailureUserPassword),
        !(state is FailureUserPassword),
    ensures
        state matches AuthPhase::CredsPrompt { username, password } && username is Some
            && password is Some,
        seen == Sighting::CredentialsRedirect(false),
{
    match seen {
        Sighting::Spooled { stage, approval_text } => {
            assert(approval_phase(approval_text) != AuthPhase::FailureUserPassword);
        },
        _ => {},
    }
}

/// While an approval is pending, the number the user is told to approve
/// does not change.
pub proof fn lemma_pending_approval_keeps_its_number(
    code: u64,
    seen: Sighting,
    other: u64,
)
    requires
        next_phase(AuthPhase::ApproveAppNotif(code), seen) == Some(AuthPhase::ApproveAppNotif(other)),
    ensures
        other == code,
{
}

/// On Microsoft's second-factor page a shown approval number means the
/// Authenticator notification is pending, whether or not a code box is
/// there too; a code box alone means a one-time code is asked; the list of
/// methods is reported only when neither shows. The trust question, the
/// stay-signed-in question and any other form are told by the form alone.
pub proof fn lemma_two_factor_stage_table(kind: FormAction, has_number: bool, has_code_box: bool)
    ensures
        kind == FormAction::AppVerify ==> two_factor_stage(kind, has_number, has_code_box)
            == Ms2faStates::TrustWebsite,
        kind == FormAction::Kmsi ==> two_factor_stage(kind, has_number, has_code_box)
            == Ms2faStates::StaySignedIn,
        kind == FormAction::Other ==> two_factor_stage(kind, has_number, has_code_box)
            == Ms2faStates::Unknown,
        kind == FormAction::ProcessAuth && has_number ==> two_factor_stage(
            kind,
            has_number,
            has_code_box,
        ) == Ms2faStates::PhoneAppNotification,
        kind == FormAction::ProcessAuth && !has_number && has_code_box ==> two_factor_stage(
            kind,
            has_number,
            has_code_box,
        ) == Ms2faStates::PhoneOTP,
        (two_factor_stage(kind, has_number, has_code_box) == Ms2faStates::ChooseVerificationOption)
            <==> (kind == FormAction::ProcessAuth && !has_number && !has_code_box),
{
}

/// A form is told by its action address: exactly the three addresses of
/// Microsoft's trust question, stay-signed-in question and second-factor
/// page are recognised, and anything else is another form.
pub proof fn lemma_form_action_table(action: Seq<char>)
    ensures
        (form_action_spec(action) == FormAction::AppVerify) <==> (action
            == "https://login.microsoftonline.com/appverify"@),
        (form_action_spec(action) == FormAction::Kmsi) <==> (action
            == "https://login.microsoftonline.com/kmsi"@),
        (form_action_spec(action) == FormAction::ProcessAuth) <==> (action
            == "https://login.microsoftonline.com/common/SAS/ProcessAuth"@),
{
    reveal_strlit("https://login.microsoftonline.com/appverify");
    reveal_strlit("https://login.microsoftonline.com/kmsi");
    reveal_strlit("https://login.microsoftonline.com/common/SAS/ProcessAuth");
    let appverify = "https://login.microsoftonline.com/appverify"@;
    let kmsi = "https://login.microsoftonline.com/kmsi"@;
    let process = "https://login.microsoftonline.com/common/SAS/ProcessAuth"@;
    assert(appverify.len() != kmsi.len());
    assert(appverify.len() != process.len());
    assert(kmsi.len() != process.len());
}

/// What one step does from each unfinished state: open the site from the
/// start; submit the very credentials the prompt holds when it holds both,
/// and otherwise leave the prompt empty; look at the second-factor pages
/// while spooling; poll the pending approval of the same number; submit the
/// very one-time code the prompt holds, and otherwise leave the prompt.
pub proof fn lemma_step_plan_table(state: AuthPhase)
    ensures
        state is Init ==> step_plan(state) == StepPlan::OpenLanding,
        state is AuthSpooling ==> step_plan(state) == StepPlan::Spool,
        forall|code: u64|
            state == AuthPhase::ApproveAppNotif(code) ==> step_plan(state) == StepPlan::PollApproval(
                code,
            ),
        forall|u: Seq<char>, p: Seq<char>|
            state == (AuthPhase::CredsPrompt { username: Some(u), password: Some(p) }) ==> step_plan(
                state,
            ) == (StepPlan::SubmitCredentials { username: u, password: p }),
        state matches AuthPhase::CredsPrompt { username, password } && (username is None
            || password is None) ==> step_plan(state) == StepPlan::Settle(
            AuthPhase::CredsPrompt { username: None, password: None },
        ),
        forall|code: Seq<char>|
            state == AuthPhase::PhoneOTP(Some(code)) ==> step_plan(state) == StepPlan::SubmitOtp(
                code,
            ),
        state == AuthPhase::PhoneOTP(None) ==> step_plan(state) == StepPlan::Settle(
            AuthPhase::PhoneOTP(None),
        ),
{
}

/// Which steps get further attempts: exactly those on Microsoft's pages
/// (the approval poll, the code submission and the spooling step).
pub proof fn lemma_retried_steps(plan: StepPlan)
    ensures
        plan.is_retried() <==> (plan is PollApproval || plan is SubmitOtp || plan is Spool),
{
}

/// What the spooling step leads to, for each stage it may find: the trust
/// question and the list of methods lead back to the second-factor pages; a
/// shown number leads to its approval when it reads as a number and to
/// failure otherwise; a code box to the code prompt; the stay-signed-in
/// question to a sign-in; an unknown page to failure. Failure is reached
/// from spooling only on an unknown page or an unreadable number.
pub proof fn lemma_spooling_outcomes(stage: Ms2faStates, text: Seq<char>)
    requires
        is_handled_stage(stage),
    ensures
        stage == Ms2faStates::TrustWebsite ==> plan_next(
            StepPlan::Spool,
            Sighting::Spooled { stage, approval_text: text },
        ) == Some(AuthPhase::AuthSpooling),
        stage == Ms2faStates::ChooseVerificationOption ==> plan_next(
            StepPlan::Spool,
            Sighting::Spooled { stage, approval_text: text },
        ) == Some(AuthPhase::AuthSpooling),
        stage == Ms2faStates::PhoneAppNotification ==> plan_next(
            StepPlan::Spool,
            Sighting::Spooled { stage, approval_text: text },
        ) == Some(approval_phase(text)),
        stage == Ms2faStates::PhoneOTP ==> plan_next(
            StepPlan::Spool,
            Sighting::Spooled { stage, approval_text: text },
        ) == Some(AuthPhase::PhoneOTP(None)),
        stage == Ms2faStates::StaySignedIn ==> plan_next(
            StepPlan::Spool,
            Sighting::Spooled { stage, approval_text: text },
        ) == Some(AuthPhase::Authenticated),
        stage == Ms2faStates::Unknown ==> plan_next(
            StepPlan::Spool,
            Sighting::Spooled { stage, approval_text: text },
        ) == Some(AuthPhase::Failure),
        plan_next(StepPlan::Spool, Sighting::Spooled { stage, approval_text: text }) == Some(
            AuthPhase::Failure,
        ) ==> stage == Ms2faStates::Unknown || (stage == Ms2faStates::PhoneAppNotification
            && approval_phase(text) == AuthPhase::Failure),
{
}

/// What the other steps lead to: the credentials submission to the
/// second factor when redirected and to refusal otherwise; the approval
/// poll to the same number while the notification is still shown and back
/// to the second-factor pages otherwise; a submitted code back to the
/// second-factor pages; a settled step to the state it settled on.
pub proof fn lemma_step_outcomes(u: Seq<char>, p: Seq<char>, code: u64, stage: Ms2faStates, otp: Seq<char>, next: AuthPhase)
    ensures
        plan_next(StepPlan::SubmitCredentials { username: u, password: p }, Sighting::CredentialsRedirect(true))
            == Some(AuthPhase::AuthSpooling),
        plan_next(StepPlan::SubmitCredentials { username: u, password: p }, Sighting::CredentialsRedirect(false))
            == Some(AuthPhase::FailureUserPassword),
        stage == Ms2faStates::PhoneAppNotification ==> plan_next(
            StepPlan::PollApproval(code),
            Sighting::NotificationStage(stage),
        ) == Some(AuthPhase::ApproveAppNotif(code)),
        stage != Ms2faStates::PhoneAppNotification ==> plan_next(
            StepPlan::PollApproval(code),
            Sighting::NotificationStage(stage),
        ) == Some(AuthPhase::AuthSpooling),
        plan_next(StepPlan::SubmitOtp(otp), Sighting::Quiet) == Some(AuthPhase::AuthSpooling),
        plan_next(StepPlan::Settle(next), Sighting::Quiet) == Some(next),
{
}

/// The spooling plan's clicks and ticks: the trust question is answered
/// "Continue"; from the list of methods the notification is picked, and the
/// one-time code only when it is the sole method listed; beside a shown
/// number "don't ask again for 30 days" is ticked before it is read; on the
/// stay-signed-in question "don't show this again" is ticked before "Yes".
pub proof fn lemma_spool_plan_table(stage: Ms2faStates, offer: MethodOffer)
    ensures
        stage == Ms2faStates::TrustWebsite ==> spool_plan(stage, offer) == (SpoolPlan::Click {
            tick: None,
            control: PageControl::TrustSite,
            then: AuthPhase::AuthSpooling,
        }),
        stage == Ms2faStates::ChooseVerificationOption ==> spool_plan(stage, offer) == (
        SpoolPlan::Click {
            tick: None,
            control: if !offer.phone_notification && offer.one_time_code {
                PageControl::OneTimeCodeOption
            } else {
                PageControl::PhoneNotificationOption
            },
            then: AuthPhase::AuthSpooling,
        }),
        stage == Ms2faStates::PhoneAppNotification ==> spool_plan(stage, offer) == (
        SpoolPlan::ReadApprovalCode { tick: Some(PageCheckbox::DontAskAgainForThirtyDays) }),
        stage == Ms2faStates::PhoneOTP ==> spool_plan(stage, offer) == SpoolPlan::Settle(
            AuthPhase::PhoneOTP(None),
        ),
        stage == Ms2faStates::StaySignedIn ==> spool_plan(stage, offer) == (SpoolPlan::Click {
            tick: Some(PageCheckbox::DontShowStaySignedInAgain),
            control: PageControl::StaySignedIn,
            then: AuthPhase::Authenticated,
        }),
        stage == Ms2faStates::Unknown ==> spool_plan(stage, offer) == SpoolPlan::Settle(
            AuthPhase::Failure,
        ),
        (chosen_method(offer) == PageControl::OneTimeCodeOption) <==> (!offer.phone_notification
            && offer.one_time_code),
        is_handled_stage(stage) <==> !(stage == Ms2faStates::TryingPassKeys || stage
            == Ms2faStates::CouldntPasskey || stage == Ms2faStates::IncorrectCode),
{
}

/// While an approval is pending, the poll keeps the number exactly while
/// the notification is shown.
pub proof fn lemma_notification_poll_table(stage: Ms2faStates, code: u64)
    ensures
        (notification_poll_phase(stage, code) == AuthPhase::ApproveAppNotif(code)) <==> (stage
            == Ms2faStates::PhoneAppNotification),
        stage != Ms2faStates::PhoneAppNotification ==> notification_poll_phase(stage, code)
            == AuthPhase::AuthSpooling,
{
}

/// The flow is over exactly when it failed, the credentials were refused,
/// or the user is signed in.
pub proof fn lemma_exit_states(state: AuthPhase)
    ensures
        state.is_exit() <==> (state is Failure || state is FailureUserPassword
            || state is Authenticated),
{
}

/// The models keep text as it is: a present text is modelled by its
/// characters, an absent one by nothing; a state's model keeps the
/// credentials, number and code it holds, and a step's model the
/// credentials and code it submits.
pub proof fn lemma_models_keep_text(
    text: Option<String>,
    state: AuthState,
    action: StepAction,
    seen: Observation,
    spool: SpoolAction,
)
    ensures
        seen matches Observation::Landing(location) ==> seen@ == (Sighting::Landing {
            domain: opt_text(location.domain),
            path: location.path@,
        }),
        seen matches Observation::Spooled { stage, approval_text } ==> seen@ == (
        Sighting::Spooled { stage, approval_text: approval_text@ }),
        seen matches Observation::CredentialsRedirect(r) ==> seen@ == Sighting::CredentialsRedirect(
            r,
        ),
        seen matches Observation::NotificationStage(st) ==> seen@ == Sighting::NotificationStage(
            st,
        ),
        seen matches Observation::Quiet ==> seen@ == Sighting::Quiet,
        spool matches SpoolAction::Click { tick, control, then } ==> spool@ == (SpoolPlan::Click {
            tick,
            control,
            then: then@,
        }),
        spool matches SpoolAction::ReadApprovalCode { tick } ==> spool@ == (
        SpoolPlan::ReadApprovalCode { tick }),
        spool matches SpoolAction::Settle(next) ==> spool@ == SpoolPlan::Settle(next@),
        text matches Some(t) ==> opt_text(text) == Some(t@),
        text is None ==> opt_text(text) is None,
        state matches AuthState::PhoneOTP(Some(code)) ==> state@ == AuthPhase::PhoneOTP(
            Some(code@),
        ),
        state matches AuthState::ApproveAppNotif(code) ==> state@ == AuthPhase::ApproveAppNotif(
            code,
        ),
        state matches AuthState::CredsPrompt { username: Some(u), password: Some(p) } ==> state@
            == (AuthPhase::CredsPrompt { username: Some(u@), password: Some(p@) }),
        action matches StepAction::SubmitOtp(code) ==> action@ == StepPlan::SubmitOtp(code@),
        action matches StepAction::SubmitCredentials { username, password } ==> action@ == (
        StepPlan::SubmitCredentials { username: username@, password: password@ }),
        action matches StepAction::PollApproval(code) ==> action@ == StepPlan::PollApproval(code),
        action matches StepAction::Settle(next) ==> action@ == StepPlan::Settle(next@),
        forall|o: Option<AuthState>| #[trigger] opt_phase(o) == (match o {
            Some(st) => Some(st@),
            None => None,
        }),
{
}

/// Where opening the exam papers site lands decides the flow: the site
/// itself means signed in, the university's form at `/adfs/ls/` asks for
/// the credentials, and anything else (no host included) is a failure.
pub proof fn lemma_landing_table(domain: Option<Seq<char>>, path: Seq<char>)
    ensures
        (landing_phase(domain, path) == AuthPhase::Authenticated) <==> (domain == Some(
            "exampapers.ed.ac.uk"@,
        )),
        (landing_phase(domain, path) == (AuthPhase::CredsPrompt { username: None, password: None }))
            <==> (domain == Some("edadfed.ed.ac.uk"@) && path == "/adfs/ls/"@),
        (landing_phase(domain, path) == AuthPhase::Failure) <==> (domain != Some(
            "exampapers.ed.ac.uk"@,
        ) && !(domain == Some("edadfed.ed.ac.uk"@) && path == "/adfs/ls/"@)),
{
    reveal_strlit("exampapers.ed.ac.uk");
    reveal_strlit("edadfed.ed.ac.uk");
    assert("exampapers.ed.ac.uk"@.len() != "edadfed.ed.ac.uk"@.len());
    match domain {
        Some(d) => {},
        None => {
            assert(host_or_empty(domain).len() == 0);
        },
    }
}

/// The credentials were accepted exactly when the browser reached
/// Microsoft's `/login.srf` on `login.microsoftonline.com`.
pub proof fn lemma_login_redirect_table(domain: Option<Seq<char>>, path: Seq<char>)
    ensures
        is_login_redirect_spec(domain, path) <==> (domain == Some("login.microsoftonline.com"@)
            && path == "/login.srf"@),
{
}

/// Every driver failure is worth retrying but the unclassified ones; a
/// step gives up only at its third attempt or on such a failure, and
/// before that a retryable failure is retried with the next attempt and
/// twice the wait. The waits are 250, 500 and 1000 ms.
pub proof fn lemma_retry_table(current: RetryView, kind: DriverErrorKind)
    ensures
        is_retryable_kind(kind) <==> kind != DriverErrorKind::Other,
        (retry_next(current, kind) is None) <==> (current.attempt == 3 || kind
            == DriverErrorKind::Other),
        current.attempt != 3 && kind != DriverErrorKind::Other && current.delay_ms <= 1000
            ==> retry_next(current, kind) == Some(
            RetryView { attempt: current.attempt + 1, delay_ms: 2 * current.delay_ms },
        ),
        first_attempt() == (RetryView { attempt: 1, delay_ms: 250 }),
        retry_delay_ms(1) == 250,
        retry_delay_ms(2) == 500,
        retry_delay_ms(3) == 1000,
        current.delay_ms <= 1000 ==> saturating_double(current.delay_ms) == 2 * current.delay_ms,
{
    reveal_with_fuel(retry_delay_ms, 3);
}

/// A text ends with another exactly when it is some text followed by it.
pub proof fn lemma_suffix_is_a_tail(text: Seq<char>, suffix: Seq<char>)
    ensures
        has_suffix(text, suffix) <==> exists|front: Seq<char>| text == front + suffix,
{
    if has_suffix(text, suffix) {
        let front = text.take(text.len() - suffix.len());
        assert(text =~= front + suffix);
    }
    if exists|front: Seq<char>| text == front + suffix {
        let front = choose|front: Seq<char>| text == front + suffix;
        assert(text.subrange(text.len() - suffix.len(), text.len() as int) =~= suffix);
    }
}

/// A university username is some text followed by `@ed.ac.uk`; the
/// credentials are accepted exactly for such a username with a non-empty
/// password; the username is refused exactly when it is not such an
/// address, and otherwise the password exactly when it is empty.
pub proof fn lemma_credentials_table(username: Seq<char>, password: Seq<char>)
    ensures
        is_university_email_spec(username) <==> exists|front: Seq<char>| username == front
            + "@ed.ac.uk"@,
        (credentials_verdict(username, password) == Ok::<(), CredentialError>(())) <==> ((exists|
            front: Seq<char>,
        | username == front + "@ed.ac.uk"@) && password.len() > 0),
        (credentials_verdict(username, password) == Err::<(), CredentialError>(
            CredentialError::UsernameNotUniversity,
        )) <==> !(exists|front: Seq<char>| username == front + "@ed.ac.uk"@),
        (credentials_verdict(username, password) == Err::<(), CredentialError>(
            CredentialError::EmptyPassword,
        )) <==> ((exists|front: Seq<char>| username == front + "@ed.ac.uk"@) && password.len()
            == 0),
{
    lemma_suffix_is_a_tail(username, "@ed.ac.uk"@);
}

/// Before a step the credentials prompt is filled with the host's
/// credentials, as they are, and nothing is asked of the host for it.
pub proof fn lemma_prompt_is_filled(state: AuthPhase, username: Seq<char>, password: Seq<char>)
    requires
        state is CredsPrompt,
    ensures
        prepared_phase(state, username, password) == (
            AuthPhase::CredsPrompt { username: Some(username), password: Some(password) },
            Interaction::Continue,
        ),
{
}

/// The shown Authenticator number leads to the approval of the number it
/// reads as, and to failure exactly when it does not read as a number.
pub proof fn lemma_approval_table(text: Seq<char>, code: u64)
    ensures
        (approval_phase(text) == AuthPhase::ApproveAppNotif(code)) <==> (
        crate::text::parse_u64_spec(text) == Some(code)),
        (approval_phase(text) == AuthPhase::Failure) <==> (crate::text::parse_u64_spec(text)
            is None),
{
}

/// Reading a number: empty text, a lone `+`, and a lone character other
/// than a digit are no number; a single digit reads as its value.
pub proof fn lemma_parse_short_texts(c: char)
    ensures
        parse_u64_spec(Seq::empty()) is None,
        parse_u64_spec(seq!['+']) is None,
        '0' <= c <= '9' ==> parse_u64_spec(seq![c]) == Some((c as int - '0' as int) as u64),
        !('0' <= c <= '9') ==> parse_u64_spec(seq![c]) is None,
{
    assert(unsigned_digits(seq!['+']) =~= Seq::<char>::empty());
    if '0' <= c <= '9' {
        assert(unsigned_digits(seq![c]) == seq![c]);
        assert(seq![c].drop_last() =~= Seq::<char>::empty());
    } else if c != '+' {
        assert(unsigned_digits(seq![c]) == seq![c]);
        assert(!crate::text::is_digit(seq![c][0]));
    }
}

/// Reading a number digit by digit: a digit after a number's text makes it
/// ten times the number plus the digit, or no number where that does not
/// fit in 64 bits; any other character after any text makes it no number;
/// and a text that is no number (other than the empty text and a lone `+`)
/// stays no number whatever follows.
pub proof fn lemma_parse_appended_char(text: Seq<char>, c: char)
    ensures
        '0' <= c <= '9' && parse_u64_spec(text) is Some ==> parse_u64_spec(text.push(c)) == (if 10
            * parse_u64_spec(text)->0 + (c as int - '0' as int) <= u64::MAX {
            Some((10 * parse_u64_spec(text)->0 + (c as int - '0' as int)) as u64)
        } else {
            None
        }),
        !('0' <= c <= '9') ==> parse_u64_spec(text.push(c)) is None,
        parse_u64_spec(text) is None && text.len() > 0 && text != seq!['+'] ==> parse_u64_spec(
            text.push(c),
        ) is None,
{
    let longer = text.push(c);
    let d = unsigned_digits(text);
    if text.len() > 0 {
        if text[0] == '+' {
            assert(unsigned_digits(longer) =~= d.push(c));
        } else {
            assert(unsigned_digits(longer) =~= d.push(c));
        }
        let e = d.push(c);
        assert(e.drop_last() =~= d);
        assert(e.last() == c);
        assert(e[e.len() - 1] == c);
        if '0' <= c <= '9' && parse_u64_spec(text) is Some {
            assert forall|i: int| 0 <= i < e.len() implies crate::text::is_digit(#[trigger] e[i]) by {
                if i < d.len() {
                    assert(e[i] == d[i]);
                }
            }
            assert(decimal_value(e) == 10 * decimal_value(d) + (c as int - '0' as int));
        }
        if !('0' <= c <= '9') {
            assert(!crate::text::is_digit(e[e.len() - 1]));
        }
        if parse_u64_spec(text) is None && text != seq!['+'] {
            if text[0] == '+' {
                assert(text.len() != 1 || text =~= seq!['+']);
            }
            assert(d.len() > 0);
            if forall|i: int| 0 <= i < e.len() ==> crate::text::is_digit(#[trigger] e[i]) {
                assert forall|i: int| 0 <= i < d.len() implies crate::text::is_digit(#[trigger] d[i]) by {
                    assert(e[i] == d[i]);
                }
                assert(decimal_value(e) == 10 * decimal_value(d) + crate::text::digit_value(c));
            }
        }
    } else {
        assert(longer =~= seq![c]);
        lemma_parse_short_texts(c);
    }
}

/// A leading `+` is read past: `+` before a text that does not itself
/// start with `+` reads as that text does.
pub proof fn lemma_parse_leading_plus(text: Seq<char>)
    requires
        text.len() > 0,
        text[0] != '+',
    ensures
        parse_u64_spec(seq!['+'] + text) == parse_u64_spec(text),
{
    let t = seq!['+'] + text;
    assert(t[0] == '+');
    assert(t.drop_first() =~= text);
    assert(unsigned_digits(text) == text);
}

} // verus!
