//! `leaves upload [file]`: stores a file, or standard input, and shows its URL.
use vstd::prelude::*;
use crate::cli::config::Config;
use crate::http_client::config::Config as LeavesConfig;
use crate::http_client::error::ClientError;
use crate::models::v1::Upload;
use crate::cli::command::{no_line, shows_nothing, shows_text, text_line, Line};

verus! {

/// Why uploading failed.
#[derive(Debug)]
pub enum UploadError {
    CreatingClient { source: ClientError },
    PerformingRequest { source: ClientError },
    ReadingFile { source: std::io::Error },
    ReadingStdin { source: std::io::Error },
}

impl UploadError {
    /// The text that describes the error.
    pub fn message(&self) -> (m: &'static str)
        ensures
            m@ == "uploading a file failed"@,
    {
        "uploading a file failed"
    }
}

/// The client settings for uploading: the saved login's API URL, token and
/// email.
pub fn client_config(config: Config) -> (c: LeavesConfig)
    ensures
        c.api_url == config.api_url,
        c.api_token == Some(config.token),
        c.email == Some(config.email),
{
    LeavesConfig::new(Some(config.token), config.api_url, Some(config.email))
}

/// Where `leaves upload` stands.
pub enum UploadStage {
    /// Waiting for the saved login and the file argument.
    Starting,
    /// Waiting for the bytes to send, from the named file or from standard input.
    Reading { config: Config, from_file: bool },
    /// Waiting for the API's answer.
    Sending,
    /// Done.
    Finished,
}

/// What the command learned since the last step.
pub enum UploadEvent {
    /// The saved login (none when it could not be loaded) and the file given.
    Started { config: Option<Config>, path: Option<String> },
    /// The bytes read, or why they could not be read.
    Read(Result<Vec<u8>, std::io::Error>),
    /// The HTTP client could not be made.
    ClientFailed(ClientError),
    /// The API's answer.
    Uploaded(Result<Upload, ClientError>),
}

/// What the command does next.
pub enum UploadAction {
    /// Read the file at this path.
    ReadFile(String),
    /// Read all of standard input.
    ReadStdin,
    /// Send the bytes to the API with these settings.
    Send { config: LeavesConfig, body: Vec<u8> },
    /// Show these lines and end with this result.
    Finish { output: Vec<Line>, result: Result<(), UploadError> },
}

/// Whether an event is one that the stage waits for.
pub open spec fn upload_expects(stage: UploadStage, event: UploadEvent) -> bool {
    match (stage, event) {
        (UploadStage::Starting, UploadEvent::Started { .. }) => true,
        (UploadStage::Reading { .. }, UploadEvent::Read(_)) => true,
        (UploadStage::Sending, UploadEvent::ClientFailed(_)) => true,
        (UploadStage::Sending, UploadEvent::Uploaded(_)) => true,
        _ => false,
    }
}

/// What one step of `leaves upload` does.
pub open spec fn upload_transition(
    stage: UploadStage,
    event: UploadEvent,
    next: UploadStage,
    action: UploadAction,
) -> bool {
    match (stage, event) {
        (UploadStage::Starting, UploadEvent::Started { config: None, .. }) => {
            &&& next is Finished
            &&& action matches UploadAction::Finish { output, result }
            &&& shows_text(output@, "You need to login first with `leaves login`"@)
            &&& result is Ok
        },
        (UploadStage::Starting, UploadEvent::Started { config: Some(c), path: Some(p) }) => {
            &&& next == (UploadStage::Reading { config: c, from_file: true })
            &&& action == UploadAction::ReadFile(p)
        },
        (UploadStage::Starting, UploadEvent::Started { config: Some(c), path: None }) => {
            &&& next == (UploadStage::Reading { config: c, from_file: false })
            &&& action == UploadAction::ReadStdin
        },
        (UploadStage::Reading { from_file, .. }, UploadEvent::Read(Err(e))) => {
            &&& next is Finished
            &&& action matches UploadAction::Finish { output, result }
            &&& shows_nothing(output@)
            &&& result == Err::<(), UploadError>(
                if from_file {
                    UploadError::ReadingFile { source: e }
                } else {
                    UploadError::ReadingStdin { source: e }
                },
            )
        },
        (UploadStage::Reading { config: c, .. }, UploadEvent::Read(Ok(bytes))) => {
            &&& next is Sending
            &&& action matches UploadAction::Send { config, body }
            &&& body == bytes
            &&& config.api_url == c.api_url
            &&& config.api_token == Some(c.token)
            &&& config.email == Some(c.email)
        },
        (UploadStage::Sending, UploadEvent::ClientFailed(e)) => {
            &&& next is Finished
            &&& action matches UploadAction::Finish { output, result }
            &&& shows_nothing(output@)
            &&& result == Err::<(), UploadError>(UploadError::CreatingClient { source: e })
        },
        (UploadStage::Sending, UploadEvent::Uploaded(Err(e))) => {
            &&& next is Finished
            &&& action matches UploadAction::Finish { output, result }
            &&& shows_nothing(output@)
            &&& result == Err::<(), UploadError>(UploadError::PerformingRequest { source: e })
        },
        (UploadStage::Sending, UploadEvent::Uploaded(Ok(upload))) => {
            &&& next is Finished
            &&& action matches UploadAction::Finish { output, result }
            &&& shows_text(output@, upload.url@)
            &&& result is Ok
        },
        _ => false,
    }
}

/// One step of `leaves upload [file]`: needs a saved login, reads the file
/// (or standard input), sends it and shows the file's URL.
pub fn step(stage: UploadStage, event: UploadEvent) -> (r: (UploadStage, UploadAction))
    requires
        upload_expects(stage, event),
    ensures
        upload_transition(stage, event, r.0, r.1),
{
    match (stage, event) {
        (UploadStage::Starting, UploadEvent::Started { config, path }) => match config {
            None => (
                UploadStage::Finished,
                UploadAction::Finish { output: text_line("You need to login first with `leaves login`"), result: Ok(()) },
            ),
            Some(c) => match path {
                Some(p) => (UploadStage::Reading { config: c, from_file: true }, UploadAction::ReadFile(p)),
                None => (UploadStage::Reading { config: c, from_file: false }, UploadAction::ReadStdin),
            },
        },
        (UploadStage::Reading { config, from_file }, UploadEvent::Read(read)) => match read {
            Err(e) => {
                let err = if from_file {
                    UploadError::ReadingFile { source: e }
                } else {
                    UploadError::ReadingStdin { source: e }
                };
                (UploadStage::Finished, UploadAction::Finish { output: no_line(), result: Err(err) })
            },
            Ok(bytes) => (UploadStage::Sending, UploadAction::Send { config: client_config(config), body: bytes }),
        },
        (UploadStage::Sending, UploadEvent::ClientFailed(e)) => (
            UploadStage::Finished,
            UploadAction::Finish { output: no_line(), result: Err(UploadError::CreatingClient { source: e }) },
        ),
        (UploadStage::Sending, UploadEvent::Uploaded(answer)) => match answer {
            Err(e) => (
                UploadStage::Finished,
                UploadAction::Finish { output: no_line(), result: Err(UploadError::PerformingRequest { source: e }) },
            ),
            Ok(upload) => (
                UploadStage::Finished,
                UploadAction::Finish { output: text_line(upload.url.as_str()), result: Ok(()) },
            ),
        },
        _ => (UploadStage::Finished, UploadAction::Finish { output: no_line(), result: Ok(()) }),
    }
}

} // verus!
