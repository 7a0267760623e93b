//! `GET /files/:id` and `POST /files`: what the server decides about files.
use vstd::prelude::*;
use vstd::string::*;
use crate::api::utils::random_string;
use crate::models::v1::Upload;
use crate::text::is_ascii_alphanumeric;

verus! {

/// Why a file request failed.
#[derive(Clone, Copy, Debug, PartialEq, Eq, Structural)]
pub enum FileError {
    BodyInvalid,
    CreatingFile,
    FileNonexistent,
    SavingFile,
    UserNonexistent,
}

impl FileError {
    /// The text that describes the error.
    pub fn message(&self) -> (m: &'static str)
        ensures
            m@ == (match *self {
                FileError::BodyInvalid => "Request<State> body invalid"@,
                FileError::CreatingFile => "Failed to create file, please try again"@,
                FileError::FileNonexistent => "File doesn't exist"@,
                FileError::SavingFile => "Failed to save file"@,
                FileError::UserNonexistent => "user is not ready"@,
            }),
    {
        match self {
            FileError::BodyInvalid => "Request<State> body invalid",
            FileError::CreatingFile => "Failed to create file, please try again",
            FileError::FileNonexistent => "File doesn't exist",
            FileError::SavingFile => "Failed to save file",
            FileError::UserNonexistent => "user is not ready",
        }
    }

    /// The HTTP status of the failure: 400 for an unreadable body, 404 for an
    /// unknown file, 500 otherwise.
    pub fn status(&self) -> (s: u16)
        ensures
            s == (match *self {
                FileError::BodyInvalid => 400u16,
                FileError::FileNonexistent => 404u16,
                _ => 500u16,
            }),
    {
        match self {
            FileError::BodyInvalid => 400,
            FileError::FileNonexistent => 404,
            _ => 500,
        }
    }
}

/// A file as `GET /files/:id` shows it.
#[derive(Clone, Debug)]
pub struct TrimmedFileInfo {
    pub id: String,
    pub size: u64,
}

/// The number of characters of a file id.
pub const FILE_ID_LEN: usize = 6;

/// A file id: six ASCII letters and digits.
pub open spec fn is_file_id(id: Seq<char>) -> bool {
    id.len() == FILE_ID_LEN && forall|i: int| 0 <= i < id.len() ==> is_ascii_alphanumeric(#[trigger] id[i])
}

/// `GET /files/:id`: the file that the database holds under the id (200),
/// or 404 when there is none.
pub fn get(found: Option<TrimmedFileInfo>) -> (r: Result<TrimmedFileInfo, FileError>)
    ensures
        match found {
            Some(file) => r == Ok::<TrimmedFileInfo, FileError>(file),
            None => r == Err::<TrimmedFileInfo, FileError>(FileError::FileNonexistent),
        },
{
    match found {
        Some(file) => Ok(file),
        None => Err(FileError::FileNonexistent),
    }
}

/// Where `POST /files` stands.
pub enum PostStage {
    /// Waiting for the body and the user.
    Receiving,
    /// Waiting for the database to record the file.
    Recording { id: String, size: u64 },
    /// Waiting for the file's contents to be saved.
    Saving { id: String, size: u64 },
    /// Answered.
    Finished,
}

/// What the server learned since the last step.
pub enum PostEvent {
    /// The body's length (none when the body could not be read) and the
    /// signed-in user's id (none when the middleware left no user).
    Received { body_len: Option<u64>, user_id: Option<i64> },
    /// Whether the database recorded the file.
    Recorded { ok: bool },
    /// Whether the contents were saved under the file's id.
    Saved { ok: bool },
}

/// What the server does next.
pub enum PostAction {
    /// Record the file in the database.
    Record { id: String, size: u64, user_id: i64 },
    /// Save the body under the file's id.
    Save { id: String },
    /// Answer: 201 with the new file, or the failure.
    Reply(Result<Upload, FileError>),
}

/// Whether an event is one that the stage waits for.
pub open spec fn post_expects(stage: PostStage, event: PostEvent) -> bool {
    match (stage, event) {
        (PostStage::Receiving, PostEvent::Received { .. }) => true,
        (PostStage::Recording { .. }, PostEvent::Recorded { .. }) => true,
        (PostStage::Saving { .. }, PostEvent::Saved { .. }) => true,
        _ => false,
    }
}

/// The URL of a stored file: the public URL, `/`, and the file's id.
pub open spec fn file_url(public_url: Seq<char>, id: Seq<char>) -> Seq<char> {
    public_url + "/"@ + id
}

/// What one step of `POST /files` does.
pub open spec fn post_transition(
    public_url: Seq<char>,
    stage: PostStage,
    event: PostEvent,
    next: PostStage,
    action: PostAction,
) -> bool {
    match (stage, event) {
        (PostStage::Receiving, PostEvent::Received { body_len, user_id }) => match (body_len, user_id) {
            (None, _) => next is Finished && action == PostAction::Reply(
                Err(FileError::BodyInvalid),
            ),
            (Some(_), None) => next is Finished && action == PostAction::Reply(
                Err(FileError::UserNonexistent),
            ),
            (Some(size), Some(uid)) => {
                &&& action matches PostAction::Record { id, size: s, user_id: u }
                &&& s == size
                &&& u == uid
                &&& is_file_id(id@)
                &&& next == (PostStage::Recording { id, size })
            },
        },
        (PostStage::Recording { id, size }, PostEvent::Recorded { ok }) => if ok {
            next == (PostStage::Saving { id, size }) && action == (PostAction::Save { id })
        } else {
            next is Finished && action == PostAction::Reply(Err(FileError::CreatingFile))
        },
        (PostStage::Saving { id, size }, PostEvent::Saved { ok }) => if ok {
            &&& next is Finished
            &&& action matches PostAction::Reply(Ok(upload))
            &&& upload.id == id
            &&& upload.size == size
            &&& upload.url@ == file_url(public_url, id@)
        } else {
            next is Finished && action == PostAction::Reply(Err(FileError::SavingFile))
        },
        _ => false,
    }
}

/// One step of `POST /files`: reads the body and the user, draws a new file
/// id, records the file, saves it, and answers with its id, size and URL.
pub fn post(public_url: &str, stage: PostStage, event: PostEvent) -> (r: (PostStage, PostAction))
    requires
        post_expects(stage, event),
    ensures
        post_transition(public_url@, stage, event, r.0, r.1),
{
    match (stage, event) {
        (PostStage::Receiving, PostEvent::Received { body_len, user_id }) => match body_len {
            None => (PostStage::Finished, PostAction::Reply(Err(FileError::BodyInvalid))),
            Some(size) => match user_id {
                None => (PostStage::Finished, PostAction::Reply(Err(FileError::UserNonexistent))),
                Some(uid) => {
                    let id = random_string(FILE_ID_LEN);
                    let action = PostAction::Record { id: id.clone(), size, user_id: uid };
                    (PostStage::Recording { id, size }, action)
                },
            },
        },
        (PostStage::Recording { id, size }, PostEvent::Recorded { ok }) => {
            if ok {
                let action = PostAction::Save { id: id.clone() };
                (PostStage::Saving { id, size }, action)
            } else {
                (PostStage::Finished, PostAction::Reply(Err(FileError::CreatingFile)))
            }
        },
        (PostStage::Saving { id, size }, PostEvent::Saved { ok }) => {
            if ok {
                let mut url = public_url.to_owned();
                url.append("/");
                url.append(id.as_str());
                (PostStage::Finished, PostAction::Reply(Ok(Upload { id, size, url })))
            } else {
                (PostStage::Finished, PostAction::Reply(Err(FileError::SavingFile)))
            }
        },
        _ => (PostStage::Finished, PostAction::Reply(Err(FileError::BodyInvalid))),
    }
}

/// Law: a completed `POST /files` saves and answers the file it recorded:
/// the recorded id is the saved id and the answered id, the answered size is
/// the body's length, and the answered URL is the public URL, `/`, and the id.
pub proof fn law_upload_answers_what_it_recorded(
    public_url: Seq<char>,
    body_len: u64,
    user_id: i64,
    s1: PostStage,
    a1: PostAction,
    s2: PostStage,
    a2: PostAction,
    s3: PostStage,
    a3: PostAction,
)
    requires
        post_transition(
            public_url,
            PostStage::Receiving,
            PostEvent::Received { body_len: Some(body_len), user_id: Some(user_id) },
            s1,
            a1,
        ),
        post_transition(public_url, s1, PostEvent::Recorded { ok: true }, s2, a2),
        post_transition(public_url, s2, PostEvent::Saved { ok: true }, s3, a3),
    ensures
        a1 matches PostAction::Record { id, size, user_id: u } && size == body_len && u == user_id
            && is_file_id(id@),
        a2 matches PostAction::Save { id } && a1 matches PostAction::Record { id: recorded, .. }
            && id == recorded,
        a3 matches PostAction::Reply(Ok(upload)) && a1 matches PostAction::Record {
            id: recorded,
            ..
        } && upload.id == recorded && upload.size == body_len && upload.url@ == file_url(
            public_url,
            recorded@,
        ),
{
}

} // verus!
