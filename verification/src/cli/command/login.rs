//! `leaves login`: checks credentials against the API and saves them.
use vstd::prelude::*;
use crate::cli::config::{Config, ConfigError};
use crate::cli::command::{failure_line, no_line, shows_failure, shows_nothing, shows_text, text_line, Line};
use vstd::string::*;
use crate::http_client::config::Config as LeavesConfig;
use crate::http_client::error::ClientError;
use crate::models::v1::User;
use crate::text::{contains_char, trim, trim_to_owned};

verus! {

/// Why logging in failed.
#[derive(Debug)]
pub enum LoginError {
    CreatingClient { source: ClientError },
    PromptingUser { source: std::io::Error },
    SavingConfig { source: ConfigError },
}

impl LoginError {
    /// The text that describes the error.
    pub fn message(&self) -> (m: &'static str)
        ensures
            m@ == "logging in failed"@,
    {
        "logging in failed"
    }
}

/// An email address is taken only if it holds an `@` and a `.`.
pub fn email_is_plausible(email: &str) -> (ok: bool)
    ensures
        ok == (email@.contains('@') && email@.contains('.')),
{
    contains_char(email, '@') && contains_char(email, '.')
}

/// The client settings for checking a login: the API URL as given, and the
/// email and token without surrounding whitespace.
pub fn client_config(api_url: &str, email: &str, token: &str) -> (c: LeavesConfig)
    ensures
        c.api_url@ == api_url@,
        c.api_token matches Some(t) && t@ == trim(token@),
        c.email matches Some(e) && e@ == trim(email@),
{
    LeavesConfig::new(Some(trim_to_owned(token)), api_url.to_owned(), Some(trim_to_owned(email)))
}

/// The question for the API's URL.
pub open spec fn url_question() -> Seq<char> {
    "Where is your leaves 🍂 instance?\n❯ "@
}

/// The question for the email address.
pub open spec fn email_question() -> Seq<char> {
    "What is your email address?\n❯ "@
}

/// The question for the API token.
pub open spec fn token_question() -> Seq<char> {
    "What is your token?\n❯ "@
}

/// The notice shown before asking again for an email that is not plausible.
pub open spec fn invalid_email_notice(email: Seq<char>) -> Seq<char> {
    "It looks like *"@ + email + "* is invalid"@
}

/// The notice for an email that is not plausible.
pub fn invalid_email(email: &str) -> (notice: String)
    ensures
        notice@ == invalid_email_notice(email@),
{
    let mut notice = String::from_str("It looks like *");
    notice.append(email);
    notice.append("* is invalid");
    notice
}

/// Where `leaves login` stands.
pub enum LoginStage {
    /// Waiting for the arguments.
    Starting,
    /// Waiting for the API's URL.
    AskingUrl,
    /// Waiting for the email address.
    AskingEmail { api_url: String },
    /// Waiting for the token.
    AskingToken { api_url: String, email: String },
    /// Waiting for the API to tell who the credentials belong to.
    Checking { api_url: String, email: String, token: String },
    /// Waiting for the login to be saved.
    Saving,
    /// Done.
    Finished,
}

/// What the command learned since the last step.
pub enum LoginEvent {
    /// The first three arguments: API URL, email and token.
    Started { api_url: Option<String>, email: Option<String>, token: Option<String> },
    /// The user's answer to the question, or why it could not be read.
    Answered(Result<String, std::io::Error>),
    /// The HTTP client could not be made.
    ClientFailed(ClientError),
    /// The API's answer to "who am I".
    Checked(Result<User, ClientError>),
    /// Whether the login was saved.
    Saved(Result<(), ConfigError>),
}

/// What the command does next.
pub enum LoginAction {
    /// Show the notice, if any, then ask the question.
    Prompt { notice: Option<String>, question: &'static str },
    /// Ask the API who the credentials of these settings belong to.
    Check(LeavesConfig),
    /// Save this login.
    Save(Config),
    /// Show these lines and end with this result.
    Finish { output: Vec<Line>, result: Result<(), LoginError> },
}

/// Whether an event is one that the stage waits for.
pub open spec fn login_expects(stage: LoginStage, event: LoginEvent) -> bool {
    match (stage, event) {
        (LoginStage::Starting, LoginEvent::Started { .. }) => true,
        (LoginStage::AskingUrl, LoginEvent::Answered(_)) => true,
        (LoginStage::AskingEmail { .. }, LoginEvent::Answered(_)) => true,
        (LoginStage::AskingToken { .. }, LoginEvent::Answered(_)) => true,
        (LoginStage::Checking { .. }, LoginEvent::ClientFailed(_)) => true,
        (LoginStage::Checking { .. }, LoginEvent::Checked(_)) => true,
        (LoginStage::Saving, LoginEvent::Saved(_)) => true,
        _ => false,
    }
}

/// The action asks `question`, with no notice before it.
pub open spec fn asks(action: LoginAction, question: Seq<char>) -> bool {
    action matches LoginAction::Prompt { notice: None, question: q } && q@ == question
}

/// The action checks the given credentials: the API URL as given, the
/// email and token without surrounding whitespace.
pub open spec fn checks(action: LoginAction, api_url: String, email: String, token: String) -> bool {
    &&& action matches LoginAction::Check(c)
    &&& c.api_url@ == api_url@
    &&& c.email matches Some(e) && e@ == trim(email@)
    &&& c.api_token matches Some(t) && t@ == trim(token@)
}

/// The command ends with this failure and shows nothing.
pub open spec fn fails(action: LoginAction, e: LoginError) -> bool {
    &&& action matches LoginAction::Finish { output, result }
    &&& shows_nothing(output@)
    &&& result == Err::<(), LoginError>(e)
}

/// What one step of `leaves login` does.
pub open spec fn login_transition(stage: LoginStage, event: LoginEvent, next: LoginStage, action: LoginAction) -> bool {
    match (stage, event) {
        (LoginStage::Starting, LoginEvent::Started { api_url, email, token }) => match (api_url, email, token) {
            (Some(u), Some(e), Some(t)) => {
                &&& next == (LoginStage::Checking { api_url: u, email: e, token: t })
                &&& checks(action, u, e, t)
            },
            _ => next is AskingUrl && asks(action, url_question()),
        },
        (LoginStage::AskingUrl, LoginEvent::Answered(Err(e))) => next is Finished && fails(action, LoginError::PromptingUser { source: e }),
        (LoginStage::AskingUrl, LoginEvent::Answered(Ok(u))) => next == (LoginStage::AskingEmail { api_url: u }) && asks(action, email_question()),
        (LoginStage::AskingEmail { .. }, LoginEvent::Answered(Err(e))) => next is Finished && fails(action, LoginError::PromptingUser { source: e }),
        (LoginStage::AskingEmail { api_url }, LoginEvent::Answered(Ok(e))) => if e@.contains('@') && e@.contains('.') {
            next == (LoginStage::AskingToken { api_url, email: e }) && asks(action, token_question())
        } else {
            &&& next == (LoginStage::AskingEmail { api_url })
            &&& action matches LoginAction::Prompt { notice: Some(n), question: q }
            &&& n@ == invalid_email_notice(e@)
            &&& q@ == email_question()
        },
        (LoginStage::AskingToken { .. }, LoginEvent::Answered(Err(e))) => next is Finished && fails(action, LoginError::PromptingUser { source: e }),
        (LoginStage::AskingToken { api_url, email }, LoginEvent::Answered(Ok(t))) => {
            &&& next == (LoginStage::Checking { api_url, email, token: t })
            &&& checks(action, api_url, email, t)
        },
        (LoginStage::Checking { .. }, LoginEvent::ClientFailed(e)) => next is Finished && fails(action, LoginError::CreatingClient { source: e }),
        (LoginStage::Checking { api_url, email, token }, LoginEvent::Checked(Ok(_))) => {
            &&& next is Saving
            &&& action matches LoginAction::Save(c)
            &&& c.api_url@ == trim(api_url@)
            &&& c.email@ == trim(email@)
            &&& c.token@ == trim(token@)
        },
        (LoginStage::Checking { .. }, LoginEvent::Checked(Err(ClientError::Unauthorized))) => {
            &&& next is Finished
            &&& action matches LoginAction::Finish { output, result }
            &&& shows_text(output@, "🍂 Login credentials invalid"@)
            &&& result is Ok
        },
        (LoginStage::Checking { .. }, LoginEvent::Checked(Err(e))) => {
            &&& next is Finished
            &&& action matches LoginAction::Finish { output, result }
            &&& shows_failure(output@, "🍂 Unknown response: "@, e)
            &&& result is Ok
        },
        (LoginStage::Saving, LoginEvent::Saved(Err(e))) => next is Finished && fails(action, LoginError::SavingConfig { source: e }),
        (LoginStage::Saving, LoginEvent::Saved(Ok(_))) => {
            &&& next is Finished
            &&& action matches LoginAction::Finish { output, result }
            &&& shows_text(output@, "🍂 Signed in"@)
            &&& result is Ok
        },
        _ => false,
    }
}

fn ask(question: &'static str) -> (a: LoginAction)
    ensures
        asks(a, question@),
{
    LoginAction::Prompt { notice: None, question }
}

fn fail(e: LoginError) -> (a: LoginAction)
    ensures
        fails(a, e),
{
    LoginAction::Finish { output: no_line(), result: Err(e) }
}

/// One step of `leaves login [api url] [email] [token]`: takes the three
/// arguments or asks for them (again for an email without `@` or `.`),
/// checks them against the API, saves them and tells the outcome.
pub fn step(stage: LoginStage, event: LoginEvent) -> (r: (LoginStage, LoginAction))
    requires
        login_expects(stage, event),
    ensures
        login_transition(stage, event, r.0, r.1),
{
    match (stage, event) {
        (LoginStage::Starting, LoginEvent::Started { api_url, email, token }) => match (api_url, email, token) {
            (Some(u), Some(e), Some(t)) => {
                let action = LoginAction::Check(client_config(u.as_str(), e.as_str(), t.as_str()));
                (LoginStage::Checking { api_url: u, email: e, token: t }, action)
            },
            _ => (LoginStage::AskingUrl, ask("Where is your leaves 🍂 instance?\n❯ ")),
        },
        (LoginStage::AskingUrl, LoginEvent::Answered(answer)) => match answer {
            Err(e) => (LoginStage::Finished, fail(LoginError::PromptingUser { source: e })),
            Ok(u) => (LoginStage::AskingEmail { api_url: u }, ask("What is your email address?\n❯ ")),
        },
        (LoginStage::AskingEmail { api_url }, LoginEvent::Answered(answer)) => match answer {
            Err(e) => (LoginStage::Finished, fail(LoginError::PromptingUser { source: e })),
            Ok(e) => {
                if email_is_plausible(e.as_str()) {
                    (LoginStage::AskingToken { api_url, email: e }, ask("What is your token?\n❯ "))
                } else {
                    let notice = invalid_email(e.as_str());
                    (
                        LoginStage::AskingEmail { api_url },
                        LoginAction::Prompt { notice: Some(notice), question: "What is your email address?\n❯ " },
                    )
                }
            },
        },
        (LoginStage::AskingToken { api_url, email }, LoginEvent::Answered(answer)) => match answer {
            Err(e) => (LoginStage::Finished, fail(LoginError::PromptingUser { source: e })),
            Ok(t) => {
                let action = LoginAction::Check(client_config(api_url.as_str(), email.as_str(), t.as_str()));
                (LoginStage::Checking { api_url, email, token: t }, action)
            },
        },
        (LoginStage::Checking { api_url, email, token }, LoginEvent::ClientFailed(e)) => {
            (LoginStage::Finished, fail(LoginError::CreatingClient { source: e }))
        },
        (LoginStage::Checking { api_url, email, token }, LoginEvent::Checked(answer)) => match answer {
            Ok(_) => (LoginStage::Saving, LoginAction::Save(Config::new(api_url, email, token))),
            Err(ClientError::Unauthorized) => (
                LoginStage::Finished,
                LoginAction::Finish { output: text_line("🍂 Login credentials invalid"), result: Ok(()) },
            ),
            Err(e) => (
                LoginStage::Finished,
                LoginAction::Finish { output: failure_line("🍂 Unknown response: ", e), result: Ok(()) },
            ),
        },
        (LoginStage::Saving, LoginEvent::Saved(saved)) => match saved {
            Err(e) => (LoginStage::Finished, fail(LoginError::SavingConfig { source: e })),
            Ok(_) => (
                LoginStage::Finished,
                LoginAction::Finish { output: text_line("🍂 Signed in"), result: Ok(()) },
            ),
        },
        _ => (LoginStage::Finished, LoginAction::Finish { output: no_line(), result: Ok(()) }),
    }
}

} // verus!
