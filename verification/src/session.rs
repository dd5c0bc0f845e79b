use vstd::prelude::*;
use crate::auth_flow::{AuthPhase, AuthState};
use crate::text::{ends_with, has_suffix};

verus! {

/// Whether a username is a university address, ending in `@ed.ac.uk`.
pub open spec fn is_university_email_spec(username: Seq<char>) -> bool {
    has_suffix(username, "@ed.ac.uk"@)
}

/// Whether a username is a university address.
pub fn is_university_email(username: &str) -> (res: bool)
    ensures
        res == is_university_email_spec(username@),
{
    ends_with(username, "@ed.ac.uk")
}

/// Why credentials are refused before any browser is started.
#[derive(Debug, PartialEq, Eq, Structural, Clone, Copy)]
pub enum CredentialError {
    /// The username is not a university address.
    UsernameNotUniversity,
    /// The password is empty.
    EmptyPassword,
}

impl CredentialError {
    /// The text that reports the refusal.
    pub fn message(&self) -> (res: &'static str)
        ensures
            res@ == (match self {
                CredentialError::UsernameNotUniversity => "username must end with @ed.ac.uk"@,
                CredentialError::EmptyPassword => "password must not be empty"@,
            }),
    {
        match self {
            CredentialError::UsernameNotUniversity => "username must end with @ed.ac.uk",
            CredentialError::EmptyPassword => "password must not be empty",
        }
    }
}

/// The verdict on credentials: the username is checked first, then the
/// password.
pub open spec fn credentials_verdict(username: Seq<char>, password: Seq<char>) -> Result<
    (),
    CredentialError,
> {
    if !is_university_email_spec(username) {
        Err(CredentialError::UsernameNotUniversity)
    } else if password.len() == 0 {
        Err(CredentialError::EmptyPassword)
    } else {
        Ok(())
    }
}

/// Checks the credentials that a host hands in before a sign-in starts.
pub fn check_credentials(username: &str, password: &str) -> (res: Result<(), CredentialError>)
    ensures
        res == credentials_verdict(username@, password@),
{
    if !is_university_email(username) {
        return Err(CredentialError::UsernameNotUniversity);
    }
    if password.is_empty() {
        return Err(CredentialError::EmptyPassword);
    }
    Ok(())
}

/// What the host has to do before the next step of the flow.
#[derive(Debug, PartialEq, Eq, Structural, Clone, Copy)]
pub enum Interaction {
    /// Nothing: step on.
    Continue,
    /// Tell the user to approve this number in the Authenticator app.
    NotifyApproval(u64),
    /// Ask the user for a one-time code, and step on from
    /// `AuthState::PhoneOTP(Some(code))`.
    RequestOtp,
}

/// Before each step: the credentials prompt gets the host's credentials;
/// a pending approval is reported to the user; a one-time code is asked
/// for; any other state goes on as it is.
pub open spec fn prepared_phase(state: AuthPhase, username: Seq<char>, password: Seq<char>) -> (
    AuthPhase,
    Interaction,
) {
    match state {
        AuthPhase::CredsPrompt { .. } => (
            AuthPhase::CredsPrompt { username: Some(username), password: Some(password) },
            Interaction::Continue,
        ),
        AuthPhase::ApproveAppNotif(code) => (state, Interaction::NotifyApproval(code)),
        AuthPhase::PhoneOTP(_) => (state, Interaction::RequestOtp),
        _ => (state, Interaction::Continue),
    }
}

/// Prepares the next step of a sign-in with the host's credentials.
pub fn prepare_step(state: AuthState, username: &String, password: &String) -> (res: (
    AuthState,
    Interaction,
))
    ensures
        (res.0@, res.1) == prepared_phase(state@, username@, password@),
{
    match state {
        AuthState::CredsPrompt { .. } => (
            AuthState::CredsPrompt {
                username: Some(username.clone()),
                password: Some(password.clone()),
            },
            Interaction::Continue,
        ),
        AuthState::ApproveAppNotif(code) => (AuthState::ApproveAppNotif(code), Interaction::NotifyApproval(code)),
        AuthState::PhoneOTP(otp) => (AuthState::PhoneOTP(otp), Interaction::RequestOtp),
        other => (other, Interaction::Continue),
    }
}

/// How a finished flow ends for the host: signed in, or refused with the
/// state it ended at.
pub fn run_outcome(state: AuthState) -> (res: Result<(), AuthState>)
    ensures
        res is Ok <==> state@ is Authenticated,
        res matches Err(s) ==> s@ == state@,
{
    match state {
        AuthState::Authenticated => Ok(()),
        other => Err(other),
    }
}

/// The sites whose cookies make up a signed-in session.
pub fn cookie_domains() -> (res: Vec<&'static str>)
    ensures
        res@.len() == 6,
        res@[0]@ == "edadfed.ed.ac.uk"@,
        res@[1]@ == "exampapers.ed.ac.uk"@,
        res@[2]@ == "idp.ed.ac.uk"@,
        res@[3]@ == "login.live.com"@,
        res@[4]@ == "login.microsoft.com"@,
        res@[5]@ == "login.microsoftonline.com"@,
{
    let mut v: Vec<&'static str> = Vec::new();
    v.push("edadfed.ed.ac.uk");
    v.push("exampapers.ed.ac.uk");
    v.push("idp.ed.ac.uk");
    v.push("login.live.com");
    v.push("login.microsoft.com");
    v.push("login.microsoftonline.com");
    v
}

} // verus!
