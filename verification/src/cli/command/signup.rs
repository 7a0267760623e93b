//! `leaves signup`: creates a user and saves its login.
use vstd::prelude::*;
use crate::cli::config::{Config, ConfigError};
use crate::cli::command::{
    failure_then_text_lines, no_line, shows_failure_then_text, shows_nothing, shows_text, text_line, Line,
};
use crate::cli::command::login::{email_is_plausible, email_question, invalid_email, invalid_email_notice, url_question};
use crate::text::{trim, trim_to_owned};
use crate::api::common::auth::credentials_header;
use crate::cli::command::upload::{upload_transition, UploadAction, UploadEvent, UploadStage};
use crate::http_client::config::authorization_of;
use crate::http_client::config::Config as LeavesConfig;
use crate::http_client::error::ClientError;
use crate::models::v1::Signup;

verus! {

/// Why signing up failed.
#[derive(Debug)]
pub enum SignupError {
    CreatingClient { source: ClientError },
    PerformingRequest { source: ClientError },
    PromptingUser { source: std::io::Error },
    SavingConfig { source: ConfigError },
}

impl SignupError {
    /// The text that describes the error.
    pub fn message(&self) -> (m: &'static str)
        ensures
            m@ == "signing up failed"@,
    {
        "signing up failed"
    }
}

/// The client settings for signing up: the API URL as given, and no
/// credentials.
pub fn client_config(api_url: &str) -> (c: LeavesConfig)
    ensures
        c.api_url@ == api_url@,
        c.api_token is None,
        c.email is None,
{
    LeavesConfig::new(None, api_url.to_owned(), None)
}

/// Where `leaves signup` stands.
pub enum SignupStage {
    /// Not begun.
    Starting,
    /// Waiting for the API's URL.
    AskingUrl,
    /// Waiting for the email address.
    AskingEmail { api_url: String },
    /// Waiting for the API to create the user.
    Sending { api_url: String },
    /// Waiting for the login to be saved.
    Saving,
    /// Done.
    Finished,
}

/// What the command learned since the last step.
pub enum SignupEvent {
    /// The command began.
    Started,
    /// The user's answer to the question, or why it could not be read.
    Answered(Result<String, std::io::Error>),
    /// The HTTP client could not be made.
    ClientFailed(ClientError),
    /// The API's answer to the new user.
    SignedUp(Result<Signup, ClientError>),
    /// Whether the login was saved.
    Saved(Result<(), ConfigError>),
}

/// What the command does next.
pub enum SignupAction {
    /// Show the notice, if any, then ask the question.
    Prompt { notice: Option<String>, question: &'static str },
    /// Ask the API of these settings for a user with this email.
    Send { config: LeavesConfig, email: String },
    /// Save this login.
    Save(Config),
    /// Show these lines and end with this result.
    Finish { output: Vec<Line>, result: Result<(), SignupError> },
}

/// Whether an event is one that the stage waits for.
pub open spec fn signup_expects(stage: SignupStage, event: SignupEvent) -> bool {
    match (stage, event) {
        (SignupStage::Starting, SignupEvent::Started) => true,
        (SignupStage::AskingUrl, SignupEvent::Answered(_)) => true,
        (SignupStage::AskingEmail { .. }, SignupEvent::Answered(_)) => true,
        (SignupStage::Sending { .. }, SignupEvent::ClientFailed(_)) => true,
        (SignupStage::Sending { .. }, SignupEvent::SignedUp(_)) => true,
        (SignupStage::Saving, SignupEvent::Saved(_)) => true,
        _ => false,
    }
}

/// The action asks `question`, with no notice before it.
pub open spec fn asks(action: SignupAction, question: Seq<char>) -> bool {
    action matches SignupAction::Prompt { notice: None, question: q } && q@ == question
}

/// The command ends with this failure and shows nothing.
pub open spec fn fails(action: SignupAction, e: SignupError) -> bool {
    &&& action matches SignupAction::Finish { output, result }
    &&& shows_nothing(output@)
    &&& result == Err::<(), SignupError>(e)
}

/// The command ends successfully, showing exactly this line.
pub open spec fn tells(action: SignupAction, text: Seq<char>) -> bool {
    &&& action matches SignupAction::Finish { output, result }
    &&& shows_text(output@, text)
    &&& result is Ok
}

/// What one step of `leaves signup` does.
pub open spec fn signup_transition(
    stage: SignupStage,
    event: SignupEvent,
    next: SignupStage,
    action: SignupAction,
) -> bool {
    match (stage, event) {
        (SignupStage::Starting, SignupEvent::Started) => next is AskingUrl && asks(action, url_question()),
        (SignupStage::AskingUrl, SignupEvent::Answered(Err(e))) => next is Finished && fails(
            action,
            SignupError::PromptingUser { source: e },
        ),
        (SignupStage::AskingUrl, SignupEvent::Answered(Ok(u))) => next == (SignupStage::AskingEmail {
            api_url: u,
        }) && asks(action, email_question()),
        (SignupStage::AskingEmail { .. }, SignupEvent::Answered(Err(e))) => next is Finished && fails(
            action,
            SignupError::PromptingUser { source: e },
        ),
        (SignupStage::AskingEmail { api_url }, SignupEvent::Answered(Ok(e))) => if e@.contains('@')
            && e@.contains('.') {
            &&& next == (SignupStage::Sending { api_url })
            &&& action matches SignupAction::Send { config, email }
            &&& config.api_url@ == api_url@
            &&& config.api_token is None
            &&& config.email is None
            &&& email@ == trim(e@)
        } else {
            &&& next == (SignupStage::AskingEmail { api_url })
            &&& action matches SignupAction::Prompt { notice: Some(n), question: q }
            &&& n@ == invalid_email_notice(e@)
            &&& q@ == email_question()
        },
        (SignupStage::Sending { .. }, SignupEvent::ClientFailed(e)) => next is Finished && fails(
            action,
            SignupError::CreatingClient { source: e },
        ),
        (SignupStage::Sending { api_url }, SignupEvent::SignedUp(Ok(s))) => {
            &&& next is Saving
            &&& action matches SignupAction::Save(c)
            &&& c.api_url@ == trim(api_url@)
            &&& c.email@ == trim(s.email@)
            &&& c.token@ == trim(s.token@)
        },
        (SignupStage::Sending { .. }, SignupEvent::SignedUp(Err(ClientError::ResourceAlreadyExists))) => {
            next is Finished && tells(action, "🍂 A user is already registered with that email address"@)
        },
        (SignupStage::Sending { .. }, SignupEvent::SignedUp(Err(ClientError::InternalServerError))) => {
            next is Finished && tells(action, "🍂 The server encountered an error while making your account"@)
        },
        (SignupStage::Sending { .. }, SignupEvent::SignedUp(Err(e))) => {
            &&& next is Finished
            &&& action matches SignupAction::Finish { output, result }
            &&& shows_failure_then_text(output@, "🍂 An unknown error occurred: "@, e, "Please try again later"@)
            &&& result is Ok
        },
        (SignupStage::Saving, SignupEvent::Saved(Err(e))) => next is Finished && fails(
            action,
            SignupError::SavingConfig { source: e },
        ),
        (SignupStage::Saving, SignupEvent::Saved(Ok(_))) => {
            next is Finished && tells(action, "🍂 You're logged in and can start uploading"@)
        },
        _ => false,
    }
}

fn ask(question: &'static str) -> (a: SignupAction)
    ensures
        asks(a, question@),
{
    SignupAction::Prompt { notice: None, question }
}

fn fail(e: SignupError) -> (a: SignupAction)
    ensures
        fails(a, e),
{
    SignupAction::Finish { output: no_line(), result: Err(e) }
}

fn tell(text: &str) -> (a: SignupAction)
    ensures
        tells(a, text@),
{
    SignupAction::Finish { output: text_line(text), result: Ok(()) }
}

/// One step of `leaves signup`: asks for the API's URL and an email (again
/// for an email without `@` or `.`), asks the API for a user with the
/// trimmed email, saves the login it answers and tells the outcome.
pub fn step(stage: SignupStage, event: SignupEvent) -> (r: (SignupStage, SignupAction))
    requires
        signup_expects(stage, event),
    ensures
        signup_transition(stage, event, r.0, r.1),
{
    match (stage, event) {
        (SignupStage::Starting, SignupEvent::Started) => {
            (SignupStage::AskingUrl, ask("Where is your leaves 🍂 instance?\n❯ "))
        },
        (SignupStage::AskingUrl, SignupEvent::Answered(answer)) => match answer {
            Err(e) => (SignupStage::Finished, fail(SignupError::PromptingUser { source: e })),
            Ok(u) => (SignupStage::AskingEmail { api_url: u }, ask("What is your email address?\n❯ ")),
        },
        (SignupStage::AskingEmail { api_url }, SignupEvent::Answered(answer)) => match answer {
            Err(e) => (SignupStage::Finished, fail(SignupError::PromptingUser { source: e })),
            Ok(e) => {
                if email_is_plausible(e.as_str()) {
                    let config = client_config(api_url.as_str());
                    let email = trim_to_owned(e.as_str());
                    (SignupStage::Sending { api_url }, SignupAction::Send { config, email })
                } else {
                    let notice = invalid_email(e.as_str());
                    (
                        SignupStage::AskingEmail { api_url },
                        SignupAction::Prompt { notice: Some(notice), question: "What is your email address?\n❯ " },
                    )
                }
            },
        },
        (SignupStage::Sending { api_url }, SignupEvent::ClientFailed(e)) => {
            (SignupStage::Finished, fail(SignupError::CreatingClient { source: e }))
        },
        (SignupStage::Sending { api_url }, SignupEvent::SignedUp(answer)) => match answer {
            Ok(s) => (SignupStage::Saving, SignupAction::Save(Config::new(api_url, s.email, s.token))),
            Err(ClientError::ResourceAlreadyExists) => (
                SignupStage::Finished,
                tell("🍂 A user is already registered with that email address"),
            ),
            Err(ClientError::InternalServerError) => (
                SignupStage::Finished,
                tell("🍂 The server encountered an error while making your account"),
            ),
            Err(e) => (
                SignupStage::Finished,
                SignupAction::Finish {
                    output: failure_then_text_lines("🍂 An unknown error occurred: ", e, "Please try again later"),
                    result: Ok(()),
                },
            ),
        },
        (SignupStage::Saving, SignupEvent::Saved(saved)) => match saved {
            Err(e) => (SignupStage::Finished, fail(SignupError::SavingConfig { source: e })),
            Ok(_) => (SignupStage::Finished, tell("🍂 You're logged in and can start uploading")),
        },
        _ => (SignupStage::Finished, SignupAction::Finish { output: no_line(), result: Ok(()) }),
    }
}

/// Law: the login that `leaves signup` saves from the API's answer is what
/// `leaves upload` then signs in with: the upload request carries
/// `Basic <email>/token:<token>` with the answer's email and token, each
/// without surrounding whitespace.
pub proof fn law_signup_login_authorizes_uploads(
    api_url: String,
    answer: Signup,
    signup_next: SignupStage,
    save: SignupAction,
    from_file: bool,
    body: Vec<u8>,
    upload_next: UploadStage,
    send: UploadAction,
)
    requires
        signup_transition(SignupStage::Sending { api_url }, SignupEvent::SignedUp(Ok(answer)), signup_next, save),
        save matches SignupAction::Save(saved) && upload_transition(
            UploadStage::Reading { config: saved, from_file },
            UploadEvent::Read(Ok(body)),
            upload_next,
            send,
        ),
    ensures
        send matches UploadAction::Send { config, .. } && authorization_of(config.api_token, config.email)
            == Some(credentials_header(trim(answer.email@), trim(answer.token@))),
{
}

} // verus!
