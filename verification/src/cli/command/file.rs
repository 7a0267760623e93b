//! `leaves file <id>`: shows what the API knows of a file.
use vstd::prelude::*;
use vstd::string::*;
use crate::cli::config::Config;
use crate::http_client::config::Config as LeavesConfig;
use crate::http_client::error::ClientError;
use crate::models::v1::FileInfo;
use crate::text::{decimal, push_decimal};
use crate::cli::command::{no_line, shows_nothing, shows_text, text_line, Line};

verus! {

/// Why showing a file failed.
#[derive(Debug)]
pub enum FileError {
    CreatingClient { source: ClientError },
    PerformingRequest { id: String, source: ClientError },
}

impl FileError {
    /// The text that describes the error.
    pub fn message(&self) -> (m: &'static str)
        ensures
            m@ == "working with the file failed"@,
    {
        "working with the file failed"
    }
}

/// What `bytesize::to_string` gives for a number of bytes: a human readable
/// size, in powers of 1024 when `si_prefix` is set, else of 1000.
pub uninterp spec fn human_byte_size(bytes: u64, si_prefix: bool) -> Seq<char>;

/// `bytesize::to_string(bytes, si_prefix)`. Its result is named by
/// `human_byte_size`; the source shows that below one unit (1024 bytes with
/// `si_prefix`, 1000 without) it is the number itself followed by `" B"`.
/// How larger sizes are rounded (a float computation) is left unstated.
#[verifier::external_body]
fn human_size(bytes: u64, si_prefix: bool) -> (s: String)
    ensures
        s@ == human_byte_size(bytes, si_prefix),
        bytes < (if si_prefix {
            1024u64
        } else {
            1000u64
        }) ==> s@ == decimal(bytes as nat) + " B"@,
{
    bytesize::to_string(bytes, si_prefix)
}

/// The text shown for a file: its id, its size in human readable form and
/// its exact size in bytes.
pub open spec fn file_report(file: FileInfo) -> Seq<char> {
    "🍂 ID: "@ + file.id@ + "\n🍂 Size: "@ + human_byte_size(file.size, true) + " ("@ + decimal(
        file.size as nat,
    ) + " bytes)"@
}

/// The text shown for a file.
pub fn report(file: &FileInfo) -> (r: String)
    ensures
        r@ == file_report(*file),
{
    let human = human_size(file.size, true);
    let mut r = String::from_str("🍂 ID: ");
    r.append(file.id.as_str());
    r.append("\n🍂 Size: ");
    r.append(human.as_str());
    r.append(" (");
    push_decimal(&mut r, file.size);
    r.append(" bytes)");
    r
}

/// The client settings for asking about a file: the saved API URL, and no
/// credentials.
pub fn client_config(config: Config) -> (c: LeavesConfig)
    ensures
        c.api_url == config.api_url,
        c.api_token is None,
        c.email is None,
{
    LeavesConfig::new(None, config.api_url, None)
}

/// Where `leaves file` stands.
pub enum FileStage {
    /// Waiting for the saved login and the id argument.
    Starting,
    /// Waiting for the API's answer about the file.
    Fetching { id: String },
    /// Done.
    Finished,
}

/// What the command learned since the last step.
pub enum FileEvent {
    /// The saved login (none when it could not be loaded) and the id given.
    Started { config: Option<Config>, id: Option<String> },
    /// The HTTP client could not be made.
    ClientFailed(ClientError),
    /// The API's answer.
    Fetched(Result<FileInfo, ClientError>),
}

/// What the command does next.
pub enum FileAction {
    /// Ask the API, with these settings, about the file with this id.
    Fetch { config: LeavesConfig, id: String },
    /// Show these lines and end with this result.
    Finish { output: Vec<Line>, result: Result<(), FileError> },
}

/// Whether an event is one that the stage waits for.
pub open spec fn file_expects(stage: FileStage, event: FileEvent) -> bool {
    match (stage, event) {
        (FileStage::Starting, FileEvent::Started { .. }) => true,
        (FileStage::Fetching { .. }, FileEvent::ClientFailed(_)) => true,
        (FileStage::Fetching { .. }, FileEvent::Fetched(_)) => true,
        _ => false,
    }
}

/// What one step of `leaves file` does.
pub open spec fn file_transition(stage: FileStage, event: FileEvent, next: FileStage, action: FileAction) -> bool {
    match (stage, event) {
        (FileStage::Starting, FileEvent::Started { config: None, .. }) => {
            &&& next is Finished
            &&& action matches FileAction::Finish { output, result }
            &&& shows_text(output@, "You need to login first with `leaves login`"@)
            &&& result is Ok
        },
        (FileStage::Starting, FileEvent::Started { config: Some(_), id: None }) => {
            &&& next is Finished
            &&& action matches FileAction::Finish { output, result }
            &&& shows_text(output@, "🍂 You need to give the ID of the file to get"@)
            &&& result is Ok
        },
        (FileStage::Starting, FileEvent::Started { config: Some(c), id: Some(id) }) => {
            &&& next == (FileStage::Fetching { id })
            &&& action matches FileAction::Fetch { config, id: asked }
            &&& asked == id
            &&& config.api_url == c.api_url
            &&& config.api_token is None
            &&& config.email is None
        },
        (FileStage::Fetching { id }, FileEvent::ClientFailed(e)) => {
            &&& next is Finished
            &&& action matches FileAction::Finish { output, result }
            &&& shows_nothing(output@)
            &&& result == Err::<(), FileError>(FileError::CreatingClient { source: e })
        },
        (FileStage::Fetching { id }, FileEvent::Fetched(Err(e))) => {
            &&& next is Finished
            &&& action matches FileAction::Finish { output, result }
            &&& shows_nothing(output@)
            &&& result == Err::<(), FileError>(FileError::PerformingRequest { id, source: e })
        },
        (FileStage::Fetching { .. }, FileEvent::Fetched(Ok(info))) => {
            &&& next is Finished
            &&& action matches FileAction::Finish { output, result }
            &&& shows_text(output@, file_report(info))
            &&& result is Ok
        },
        _ => false,
    }
}

/// One step of `leaves file <id>`: needs a saved login and an id, asks the
/// API about the file and shows its id and size.
pub fn step(stage: FileStage, event: FileEvent) -> (r: (FileStage, FileAction))
    requires
        file_expects(stage, event),
    ensures
        file_transition(stage, event, r.0, r.1),
{
    match (stage, event) {
        (FileStage::Starting, FileEvent::Started { config, id }) => match config {
            None => (
                FileStage::Finished,
                FileAction::Finish { output: text_line("You need to login first with `leaves login`"), result: Ok(()) },
            ),
            Some(c) => match id {
                None => (
                    FileStage::Finished,
                    FileAction::Finish { output: text_line("🍂 You need to give the ID of the file to get"), result: Ok(()) },
                ),
                Some(id) => {
                    let action = FileAction::Fetch { config: client_config(c), id: id.clone() };
                    (FileStage::Fetching { id }, action)
                },
            },
        },
        (FileStage::Fetching { id }, FileEvent::ClientFailed(e)) => (
            FileStage::Finished,
            FileAction::Finish { output: no_line(), result: Err(FileError::CreatingClient { source: e }) },
        ),
        (FileStage::Fetching { id }, FileEvent::Fetched(answer)) => match answer {
            Err(e) => (
                FileStage::Finished,
                FileAction::Finish { output: no_line(), result: Err(FileError::PerformingRequest { id, source: e }) },
            ),
            Ok(info) => {
                let shown = report(&info);
                (FileStage::Finished, FileAction::Finish { output: text_line(shown.as_str()), result: Ok(()) })
            },
        },
        _ => (FileStage::Finished, FileAction::Finish { output: no_line(), result: Ok(()) }),
    }
}

} // verus!
