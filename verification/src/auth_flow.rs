use vstd::prelude::*;
use crate::text::same_text;
use crate::ms_handlers::{
    after_otp_submission, approval_state, handler_phone_notification, handler_phone_otp,
    is_handled_stage, notification_poll_phase, otp_plan, spool_outcome, Ms2faStates,
};

verus! {

/// The stages of the authentication flow.
///
/// The flow is a state machine: each stage says what the user may have to be
/// prompted for, or what the browser has to do next.
#[derive(Debug, PartialEq, Eq, Clone, Ord, PartialOrd, Hash)]
pub enum AuthState {
    Init,
    CredsPrompt { username: Option<String>, password: Option<String> },
    AuthSpooling,
    ApproveAppNotif(u64),
    PhoneOTP(Option<String>),
    Failure,
    FailureUserPassword,
    Authenticated,
}

/// The mathematical model of an [`AuthState`]: the same stages, with text as
/// sequences of characters.
pub enum AuthPhase {
    Init,
    CredsPrompt { username: Option<Seq<char>>, password: Option<Seq<char>> },
    AuthSpooling,
    ApproveAppNotif(u64),
    PhoneOTP(Option<Seq<char>>),
    Failure,
    FailureUserPassword,
    Authenticated,
}

/// The model of an optional piece of text.
pub open spec fn opt_text(o: Option<String>) -> Option<Seq<char>> {
    match o {
        Some(s) => Some(s@),
        None => None,
    }
}

impl View for AuthState {
    type V = AuthPhase;

    open spec fn view(&self) -> AuthPhase {
        match self {
            AuthState::Init => AuthPhase::Init,
            AuthState::CredsPrompt { username, password } => AuthPhase::CredsPrompt {
                username: opt_text(*username),
                password: opt_text(*password),
            },
            AuthState::AuthSpooling => AuthPhase::AuthSpooling,
            AuthState::ApproveAppNotif(code) => AuthPhase::ApproveAppNotif(*code),
            AuthState::PhoneOTP(otp) => AuthPhase::PhoneOTP(opt_text(*otp)),
            AuthState::Failure => AuthPhase::Failure,
            AuthState::FailureUserPassword => AuthPhase::FailureUserPassword,
            AuthState::Authenticated => AuthPhase::Authenticated,
        }
    }
}

impl AuthPhase {
    /// The flow has finished: it failed, the credentials were refused, or
    /// the user is signed in.
    pub open spec fn is_exit(self) -> bool {
        ||| self is Failure
        ||| self is FailureUserPassword
        ||| self is Authenticated
    }
}

impl AuthState {
    /// Whether the flow is over, so that no further step is to be taken.
    pub fn exit_state(&self) -> (res: bool)
        ensures
            res == self@.is_exit(),
    {
        match self {
            AuthState::Failure | AuthState::FailureUserPassword | AuthState::Authenticated => true,
            _ => false,
        }
    }
}

/// Where the browser is: the host of the current page, if it has one, and
/// the path of its address.
#[derive(Debug, PartialEq, Eq, Clone)]
pub struct PageLocation {
    pub domain: Option<String>,
    pub path: String,
}

/// The host of a location, or the empty text where it has none.
pub open spec fn host_or_empty(domain: Option<Seq<char>>) -> Seq<char> {
    match domain {
        Some(d) => d,
        None => Seq::empty(),
    }
}

/// Where the exam papers site lands us, and what that tells about the flow:
/// on the site itself we are already signed in; on the university's sign-in
/// form the user's credentials are needed; anywhere else the flow failed.
pub open spec fn landing_phase(domain: Option<Seq<char>>, path: Seq<char>) -> AuthPhase {
    let host = host_or_empty(domain);
    if host == "exampapers.ed.ac.uk"@ {
        AuthPhase::Authenticated
    } else if host == "edadfed.ed.ac.uk"@ && path == "/adfs/ls/"@ {
        AuthPhase::CredsPrompt { username: None, password: None }
    } else {
        AuthPhase::Failure
    }
}

/// The state the flow enters after the exam papers site has been opened and
/// the browser ended up at `location`.
pub fn handler_init(location: &PageLocation) -> (res: AuthState)
    ensures
        res@ == landing_phase(opt_text(location.domain), location.path@),
{
    let host: &str = match &location.domain {
        Some(d) => d.as_str(),
        None => "",
    };
    proof {
        reveal_strlit("");
    }
    assert(host@ == host_or_empty(opt_text(location.domain)));
    if same_text(host, "exampapers.ed.ac.uk") {
        return AuthState::Authenticated;
    }
    if same_text(host, "edadfed.ed.ac.uk") && same_text(location.path.as_str(), "/adfs/ls/") {
        AuthState::CredsPrompt { username: None, password: None }
    } else {
        AuthState::Failure
    }
}

/// How long the browser may take to leave the credentials form for
/// Microsoft's sign-in page before the credentials count as refused.
pub const REDIRECT_TIMEOUT_MS: u64 = 10000;

/// How often the browser's address is checked while waiting for that page.
pub const REDIRECT_POLL_MS: u64 = 100;

/// Whether a location is Microsoft's sign-in endpoint, which the browser
/// reaches once the university has accepted the credentials.
pub open spec fn is_login_redirect_spec(domain: Option<Seq<char>>, path: Seq<char>) -> bool {
    domain == Some("login.microsoftonline.com"@) && path == "/login.srf"@
}

/// Whether the browser has reached Microsoft's sign-in endpoint.
pub fn is_login_redirect(location: &PageLocation) -> (res: bool)
    ensures
        res == is_login_redirect_spec(opt_text(location.domain), location.path@),
{
    match &location.domain {
        Some(d) => same_text(d.as_str(), "login.microsoftonline.com") && same_text(
            location.path.as_str(),
            "/login.srf",
        ),
        None => false,
    }
}

/// What one look at the browser's address tells while waiting for the
/// redirect that follows a credentials submission.
#[derive(Debug, PartialEq, Eq, Structural, Clone, Copy)]
pub enum RedirectPoll {
    /// The credentials were accepted.
    Redirected,
    /// The deadline passed without the redirect.
    TimedOut,
    /// Look again after [`REDIRECT_POLL_MS`].
    KeepWaiting,
}

/// The wait for the redirect after the credentials were submitted: it ends
/// at a deadline, in milliseconds on the caller's monotonic clock.
#[derive(Debug, PartialEq, Eq)]
pub struct RedirectWait {
    pub deadline_ms: u64,
}

impl RedirectWait {
    /// Starts waiting at `now_ms`; the deadline is [`REDIRECT_TIMEOUT_MS`]
    /// later.
    pub fn start(now_ms: u64) -> (res: RedirectWait)
        requires
            now_ms + REDIRECT_TIMEOUT_MS <= u64::MAX,
        ensures
            res.deadline_ms == now_ms + REDIRECT_TIMEOUT_MS,
    {
        RedirectWait { deadline_ms: now_ms + REDIRECT_TIMEOUT_MS }
    }

    /// Decides, from where the browser is at `now_ms`, whether the wait is
    /// over: the location is checked before the clock.
    pub fn poll(&self, location: &PageLocation, now_ms: u64) -> (res: RedirectPoll)
        ensures
            res == (if is_login_redirect_spec(opt_text(location.domain), location.path@) {
                RedirectPoll::Redirected
            } else if now_ms >= self.deadline_ms {
                RedirectPoll::TimedOut
            } else {
                RedirectPoll::KeepWaiting
            }),
    {
        if is_login_redirect(location) {
            RedirectPoll::Redirected
        } else if now_ms >= self.deadline_ms {
            RedirectPoll::TimedOut
        } else {
            RedirectPoll::KeepWaiting
        }
    }
}

/// The state that follows a credentials submission: on to the second factor
/// when the university accepted them, refused otherwise.
pub fn credentials_outcome(redirected: bool) -> (res: AuthState)
    ensures
        res@ == (if redirected {
            AuthPhase::AuthSpooling
        } else {
            AuthPhase::FailureUserPassword
        }),
{
    if redirected {
        AuthState::AuthSpooling
    } else {
        AuthState::FailureUserPassword
    }
}

/// The kinds of browser-driver failure that the flow tells apart.
#[derive(Debug, PartialEq, Eq, Structural, Clone, Copy)]
pub enum DriverErrorKind {
    RequestFailed,
    Timeout,
    WebDriverTimeout,
    NoSuchElement,
    StaleElementReference,
    ElementNotInteractable,
    ElementClickIntercepted,
    /// Any other failure of the driver.
    Other,
}

/// Failures that may pass on their own (a slow page, an element not yet
/// there or replaced while the page changed), so the step is worth trying
/// again.
pub open spec fn is_retryable_kind(kind: DriverErrorKind) -> bool {
    !(kind is Other)
}

/// Whether a failure of the driver is worth another attempt.
pub fn is_retryable_error(kind: &DriverErrorKind) -> (res: bool)
    ensures
        res == is_retryable_kind(*kind),
{
    match kind {
        DriverErrorKind::Other => false,
        _ => true,
    }
}

/// The most attempts a retried step gets.
pub const MAX_ATTEMPTS: u8 = 3;

/// The wait before the second attempt of a retried step.
pub const INITIAL_RETRY_DELAY_MS: u64 = 250;

/// The wait before attempt `attempt + 1`: it starts at
/// [`INITIAL_RETRY_DELAY_MS`] and doubles after each failure.
pub open spec fn retry_delay_ms(attempt: nat) -> nat
    decreases attempt,
{
    if attempt <= 1 {
        INITIAL_RETRY_DELAY_MS as nat
    } else {
        2 * retry_delay_ms((attempt - 1) as nat)
    }
}

/// Doubling that stops at the largest value a `u64` holds.
pub open spec fn saturating_double(d: nat) -> nat {
    if 2 * d > u64::MAX {
        u64::MAX as nat
    } else {
        2 * d
    }
}

/// The model of a [`RetryState`]: the number of the attempt being made, and
/// the wait that comes before the next one.
pub struct RetryView {
    pub attempt: nat,
    pub delay_ms: nat,
}

/// What follows a failed attempt: nothing, when it was the last attempt or
/// the failure is not worth retrying; otherwise the next attempt, after
/// which the wait doubles.
pub open spec fn retry_next(current: RetryView, kind: DriverErrorKind) -> Option<RetryView> {
    if current.attempt == MAX_ATTEMPTS || !is_retryable_kind(kind) {
        None
    } else {
        Some(
            RetryView {
                attempt: current.attempt + 1,
                delay_ms: saturating_double(current.delay_ms),
            },
        )
    }
}

/// The model of the first attempt of a retried step.
pub open spec fn first_attempt() -> RetryView {
    RetryView { attempt: 1, delay_ms: INITIAL_RETRY_DELAY_MS as nat }
}

/// Where a retried step stands: which attempt is being made, and how long
/// to wait before the next one should this attempt fail.
#[derive(Debug, PartialEq, Eq)]
pub struct RetryState {
    attempt: u8,
    delay_ms: u64,
}

impl View for RetryState {
    type V = RetryView;

    closed spec fn view(&self) -> RetryView {
        RetryView { attempt: self.attempt as nat, delay_ms: self.delay_ms as nat }
    }
}

/// What to do after an attempt of a retried step failed.
#[derive(Debug, PartialEq, Eq)]
pub enum RetryDecision {
    /// Report the failure.
    GiveUp,
    /// Wait `wait_ms`, then make the attempt that `next` describes.
    RetryAfter { wait_ms: u64, next: RetryState },
}

impl RetryState {
    /// The attempt counter is within its bounds and the wait is the one
    /// that belongs to it.
    pub closed spec fn wf(&self) -> bool {
        &&& 1 <= self.attempt <= MAX_ATTEMPTS
        &&& self.delay_ms == retry_delay_ms(self.attempt as nat)
    }

    /// What `wf` amounts to, in terms of the model.
    pub proof fn lemma_wf(&self)
        requires
            self.wf(),
        ensures
            1 <= self@.attempt <= MAX_ATTEMPTS,
            self@.delay_ms == retry_delay_ms(self@.attempt),
    {
    }

    /// The first attempt.
    pub fn new() -> (res: RetryState)
        ensures
            res.wf(),
            res@ == first_attempt(),
    {
        RetryState { attempt: 1, delay_ms: INITIAL_RETRY_DELAY_MS }
    }

    /// The number of the attempt being made.
    pub fn attempt(&self) -> (res: u8)
        ensures
            res == self@.attempt,
    {
        self.attempt
    }

    /// Decides what follows a failed attempt: the failure is reported when
    /// this was the last attempt or the failure is not worth retrying;
    /// otherwise the next attempt comes after the current wait, and the
    /// wait after it is twice as long.
    pub fn after_failure(&self, kind: &DriverErrorKind) -> (res: RetryDecision)
        requires
            self.wf(),
        ensures
            (res is GiveUp) == (retry_next(self@, *kind) is None),
            res matches RetryDecision::RetryAfter { wait_ms, next } ==> {
                &&& next.wf()
                &&& wait_ms == self@.delay_ms
                &&& retry_next(self@, *kind) == Some(next@)
            },
    {
        if self.attempt == MAX_ATTEMPTS || !is_retryable_error(kind) {
            return RetryDecision::GiveUp;
        }
        let next = RetryState {
            attempt: self.attempt + 1,
            delay_ms: self.delay_ms.saturating_add(self.delay_ms),
        };
        proof {
            reveal_with_fuel(retry_delay_ms, 3);
            assert(self.delay_ms <= 500);
        }
        RetryDecision::RetryAfter { wait_ms: self.delay_ms, next }
    }
}

/// The browser work that one step of the flow takes, or the state it
/// settles on without any.
#[derive(Debug, PartialEq, Eq)]
pub enum StepAction {
    /// Open the exam papers site and see where it lands
    /// ([`handler_init`]).
    OpenLanding,
    /// Type the credentials into the university's form, submit it, and wait
    /// for the redirect ([`RedirectWait`], then [`credentials_outcome`]).
    SubmitCredentials { username: String, password: String },
    /// Check whether the Authenticator prompt showing this number is still
    /// pending (retried).
    PollApproval(u64),
    /// Type this one-time code and submit it (retried).
    SubmitOtp(String),
    /// Look at Microsoft's second-factor page and act on it (retried).
    Spool,
    /// No browser work: the flow stays at, or moves to, this state.
    Settle(AuthState),
}

/// The model of a [`StepAction`].
pub enum StepPlan {
    OpenLanding,
    SubmitCredentials { username: Seq<char>, password: Seq<char> },
    PollApproval(u64),
    SubmitOtp(Seq<char>),
    Spool,
    Settle(AuthPhase),
}

impl View for StepAction {
    type V = StepPlan;

    open spec fn view(&self) -> StepPlan {
        match self {
            StepAction::OpenLanding => StepPlan::OpenLanding,
            StepAction::SubmitCredentials { username, password } => StepPlan::SubmitCredentials {
                username: username@,
                password: password@,
            },
            StepAction::PollApproval(code) => StepPlan::PollApproval(*code),
            StepAction::SubmitOtp(otp) => StepPlan::SubmitOtp(otp@),
            StepAction::Spool => StepPlan::Spool,
            StepAction::Settle(state) => StepPlan::Settle(state@),
        }
    }
}

impl StepPlan {
    /// The steps that talk to Microsoft's pages, which may be caught half
    /// loaded, are retried ([`RetryState`]).
    pub open spec fn is_retried(self) -> bool {
        ||| self is PollApproval
        ||| self is SubmitOtp
        ||| self is Spool
    }
}

impl StepAction {
    /// Whether a failure of this step's browser work gets further attempts.
    pub fn is_retried(&self) -> (res: bool)
        ensures
            res == self@.is_retried(),
    {
        match self {
            StepAction::PollApproval(_) | StepAction::SubmitOtp(_) | StepAction::Spool => true,
            _ => false,
        }
    }
}

/// At the credentials prompt: with both credentials at hand they are
/// submitted; without either the prompt stays, empty, for the caller to
/// fill.
pub open spec fn creds_plan(username: Option<Seq<char>>, password: Option<Seq<char>>) -> StepPlan {
    match (username, password) {
        (Some(u), Some(p)) => StepPlan::SubmitCredentials { username: u, password: p },
        _ => StepPlan::Settle(AuthPhase::CredsPrompt { username: None, password: None }),
    }
}

/// What one step of the flow does from each state.
pub open spec fn step_plan(state: AuthPhase) -> StepPlan {
    match state {
        AuthPhase::Init => StepPlan::OpenLanding,
        AuthPhase::CredsPrompt { username, password } => creds_plan(username, password),
        AuthPhase::AuthSpooling => StepPlan::Spool,
        AuthPhase::ApproveAppNotif(code) => StepPlan::PollApproval(code),
        AuthPhase::PhoneOTP(otp) => otp_plan(otp),
        AuthPhase::Failure => StepPlan::Settle(AuthPhase::Failure),
        AuthPhase::FailureUserPassword => StepPlan::Settle(AuthPhase::FailureUserPassword),
        AuthPhase::Authenticated => StepPlan::Settle(AuthPhase::Authenticated),
    }
}

/// The credentials prompt's part of a step.
pub fn handler_creds_prompt(username: Option<String>, password: Option<String>) -> (res:
    StepAction)
    ensures
        res@ == creds_plan(opt_text(username), opt_text(password)),
{
    match (username, password) {
        (Some(u), Some(p)) => StepAction::SubmitCredentials { username: u, password: p },
        _ => StepAction::Settle(AuthState::CredsPrompt { username: None, password: None }),
    }
}

/// One step of the authentication state machine: what the browser is to do
/// from `state`. A finished state is handed back as it is.
pub fn step_auth_sm(state: AuthState) -> (res: StepAction)
    ensures
        res@ == step_plan(state@),
{
    match state {
        AuthState::Init => StepAction::OpenLanding,
        AuthState::CredsPrompt { username, password } => handler_creds_prompt(username, password),
        AuthState::AuthSpooling => StepAction::Spool,
        AuthState::ApproveAppNotif(code) => StepAction::PollApproval(code),
        AuthState::PhoneOTP(otp) => handler_phone_otp(otp),
        AuthState::Failure => StepAction::Settle(AuthState::Failure),
        AuthState::FailureUserPassword => StepAction::Settle(AuthState::FailureUserPassword),
        AuthState::Authenticated => StepAction::Settle(AuthState::Authenticated),
    }
}

/// What the browser showed during a step's work, as far as the flow's
/// decisions read it.
#[derive(Debug, PartialEq, Eq)]
pub enum Observation {
    /// Where opening the exam papers site landed.
    Landing(PageLocation),
    /// Whether the credentials submission was followed by the redirect.
    CredentialsRedirect(bool),
    /// The second-factor stage while an approval is pending.
    NotificationStage(Ms2faStates),
    /// The second-factor stage found by the spooling step, and the number
    /// shown for the Authenticator app where it was read (empty otherwise).
    Spooled { stage: Ms2faStates, approval_text: String },
    /// Nothing was read.
    Quiet,
}

/// The model of an [`Observation`].
pub enum Sighting {
    Landing { domain: Option<Seq<char>>, path: Seq<char> },
    CredentialsRedirect(bool),
    NotificationStage(Ms2faStates),
    Spooled { stage: Ms2faStates, approval_text: Seq<char> },
    Quiet,
}

impl View for Observation {
    type V = Sighting;

    open spec fn view(&self) -> Sighting {
        match self {
            Observation::Landing(location) => Sighting::Landing {
                domain: opt_text(location.domain),
                path: location.path@,
            },
            Observation::CredentialsRedirect(redirected) => Sighting::CredentialsRedirect(
                *redirected,
            ),
            Observation::NotificationStage(stage) => Sighting::NotificationStage(*stage),
            Observation::Spooled { stage, approval_text } => Sighting::Spooled {
                stage: *stage,
                approval_text: approval_text@,
            },
            Observation::Quiet => Sighting::Quiet,
        }
    }
}

/// The model of an optional state.
pub open spec fn opt_phase(o: Option<AuthState>) -> Option<AuthPhase> {
    match o {
        Some(state) => Some(state@),
        None => None,
    }
}

/// The state that a step's work leads to, from what it showed; nothing
/// where what was seen does not belong to that work, or the spooling step
/// has no course of action for the stage it found.
pub open spec fn plan_next(plan: StepPlan, seen: Sighting) -> Option<AuthPhase> {
    match (plan, seen) {
        (StepPlan::OpenLanding, Sighting::Landing { domain, path }) => Some(
            landing_phase(domain, path),
        ),
        (StepPlan::SubmitCredentials { .. }, Sighting::CredentialsRedirect(redirected)) => Some(
            if redirected {
                AuthPhase::AuthSpooling
            } else {
                AuthPhase::FailureUserPassword
            },
        ),
        (StepPlan::PollApproval(code), Sighting::NotificationStage(stage)) => Some(
            notification_poll_phase(stage, code),
        ),
        (StepPlan::SubmitOtp(_), Sighting::Quiet) => Some(AuthPhase::AuthSpooling),
        (StepPlan::Spool, Sighting::Spooled { stage, approval_text }) => if is_handled_stage(
            stage,
        ) {
            Some(spool_outcome(stage, approval_text))
        } else {
            None
        },
        (StepPlan::Settle(next), Sighting::Quiet) => Some(next),
        _ => None,
    }
}

/// The state the flow is at after carrying out `action`, given what the
/// browser showed meanwhile.
pub fn advance(action: StepAction, seen: Observation) -> (res: Option<AuthState>)
    ensures
        opt_phase(res) == plan_next(action@, seen@),
{
    match (action, seen) {
        (StepAction::OpenLanding, Observation::Landing(location)) => Some(handler_init(&location)),
        (StepAction::SubmitCredentials { .. }, Observation::CredentialsRedirect(redirected)) => Some(
            credentials_outcome(redirected),
        ),
        (StepAction::PollApproval(code), Observation::NotificationStage(stage)) => Some(
            handler_phone_notification(stage, code),
        ),
        (StepAction::SubmitOtp(_), Observation::Quiet) => Some(after_otp_submission()),
        (StepAction::Spool, Observation::Spooled { stage, approval_text }) => match stage {
            Ms2faStates::TrustWebsite | Ms2faStates::ChooseVerificationOption => Some(
                AuthState::AuthSpooling,
            ),
            Ms2faStates::PhoneAppNotification => Some(approval_state(approval_text.as_str())),
            Ms2faStates::PhoneOTP => Some(AuthState::PhoneOTP(None)),
            Ms2faStates::StaySignedIn => Some(AuthState::Authenticated),
            Ms2faStates::Unknown => Some(AuthState::Failure),
            _ => None,
        },
        (StepAction::Settle(next), Observation::Quiet) => Some(next),
        _ => None,
    }
}

} // verus!
