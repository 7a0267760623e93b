//! `GET /users/:id`, `GET /users/:id/api-tokens` and `POST /users`: what the
//! server decides about users.
use vstd::prelude::*;
use vstd::string::*;
use crate::api::utils::random_string;
use crate::api::common::auth::{
    credentials_header, law_credentials_header_round_trip, marker_at, parse_credentials,
    AuthParseError, API_TOKEN_LEN,
};
use vstd::utf8::*;
use crate::models::v1::{ApiToken, Signup, User as UserModel};
use crate::text::{is_ascii_alphanumeric, str_equals, trim, trim_to_owned};

verus! {

/// Why a user request failed.
#[derive(Clone, Copy, Debug, PartialEq, Eq, Structural)]
pub enum UserError {
    EmailTaken,
    QueryExecution,
    RegistrationClosed,
    UserNonexistent,
}

/// The text that describes a user request's failure.
pub open spec fn user_error_message(e: UserError) -> Seq<char> {
    match e {
        UserError::EmailTaken => "A user with that email address already exists"@,
        UserError::QueryExecution => "Failed to execute database query"@,
        UserError::RegistrationClosed => "Registration is closed"@,
        UserError::UserNonexistent => "user is not ready"@,
    }
}

impl UserError {
    /// The text that describes the error.
    pub fn message(&self) -> (m: &'static str)
        ensures
            m@ == user_error_message(*self),
    {
        match self {
            UserError::EmailTaken => "A user with that email address already exists",
            UserError::QueryExecution => "Failed to execute database query",
            UserError::RegistrationClosed => "Registration is closed",
            UserError::UserNonexistent => "user is not ready",
        }
    }

    /// The HTTP status of the failure: 409 for a taken email, 403 when
    /// registration is closed, 500 otherwise.
    pub fn status(&self) -> (s: u16)
        ensures
            s == (match *self {
                UserError::EmailTaken => 409u16,
                UserError::RegistrationClosed => 403u16,
                _ => 500u16,
            }),
    {
        match self {
            UserError::EmailTaken => 409,
            UserError::RegistrationClosed => 403,
            _ => 500,
        }
    }
}

/// What `GET /users/:id` does after looking at the path and the user.
pub enum GetPlan {
    /// Answer with this status and no body.
    Respond(u16),
    /// Fail.
    Fail(UserError),
    /// Look the user with this id up.
    Query(i64),
}

/// `GET /users/:id`, first step: only `@me` may be asked for (403 for any
/// other id, 400 when the id cannot be read); then the signed-in user is
/// looked up.
pub fn get(id_param: Option<&str>, user_id: Option<i64>) -> (plan: GetPlan)
    ensures
        match id_param {
            None => plan == GetPlan::Respond(400),
            Some(p) => if p@ == "@me"@ {
                match user_id {
                    None => plan == GetPlan::Fail(UserError::UserNonexistent),
                    Some(id) => plan == GetPlan::Query(id),
                }
            } else {
                plan == GetPlan::Respond(403)
            },
        },
{
    match id_param {
        None => GetPlan::Respond(400),
        Some(p) => {
            if str_equals(p, "@me") {
                match user_id {
                    None => GetPlan::Fail(UserError::UserNonexistent),
                    Some(id) => GetPlan::Query(id),
                }
            } else {
                GetPlan::Respond(403)
            }
        },
    }
}

/// `GET /users/:id`, second step: the user that the database found (200),
/// or a failed query.
pub fn get_found(found: Option<UserModel>) -> (r: Result<UserModel, UserError>)
    ensures
        match found {
            Some(user) => r == Ok::<UserModel, UserError>(user),
            None => r == Err::<UserModel, UserError>(UserError::QueryExecution),
        },
{
    match found {
        Some(user) => Ok(user),
        None => Err(UserError::QueryExecution),
    }
}

/// `GET /users/:id/api-tokens`, first step: the id of the signed-in user,
/// whose tokens are looked up.
pub fn get_api_tokens(user_id: Option<i64>) -> (r: Result<i64, UserError>)
    ensures
        match user_id {
            Some(id) => r == Ok::<i64, UserError>(id),
            None => r == Err::<i64, UserError>(UserError::UserNonexistent),
        },
{
    match user_id {
        Some(id) => Ok(id),
        None => Err(UserError::UserNonexistent),
    }
}

/// The rows that could be read, in their order.
pub open spec fn readable_rows(rows: Seq<Option<ApiToken>>) -> Seq<ApiToken>
    decreases rows.len(),
{
    if rows.len() == 0 {
        Seq::empty()
    } else {
        let rest = readable_rows(rows.drop_last());
        match rows.last() {
            Some(t) => rest.push(t),
            None => rest,
        }
    }
}

/// Law: the listing of readable rows keeps every readable row, once and in
/// order, and drops every unreadable one: a single readable row is listed as
/// itself, a single unreadable one gives nothing, and the listing of two row
/// lists joined is the two listings joined.
pub proof fn law_readable_rows_lists_each_readable_row(
    a: Seq<Option<ApiToken>>,
    b: Seq<Option<ApiToken>>,
    t: ApiToken,
)
    ensures
        readable_rows(Seq::empty()) == Seq::<ApiToken>::empty(),
        readable_rows(seq![Some(t)]) == seq![t],
        readable_rows(seq![None::<ApiToken>]) == Seq::<ApiToken>::empty(),
        readable_rows(a + b) == readable_rows(a) + readable_rows(b),
    decreases b.len(),
{
    reveal_with_fuel(readable_rows, 2);
    assert(seq![Some(t)].drop_last() =~= Seq::<Option<ApiToken>>::empty());
    assert(seq![Some(t)].last() == Some(t));
    assert(seq![None::<ApiToken>].last() == None::<ApiToken>);
    assert(seq![None::<ApiToken>].drop_last() =~= Seq::<Option<ApiToken>>::empty());
    assert(Seq::<ApiToken>::empty().push(t) =~= seq![t]);
    if b.len() == 0 {
        assert(a + b =~= a);
        assert(readable_rows(a) + readable_rows(b) =~= readable_rows(a));
    } else {
        law_readable_rows_lists_each_readable_row(a, b.drop_last(), t);
        assert((a + b).drop_last() =~= a + b.drop_last());
        assert((a + b).last() == b.last());
        match b.last() {
            Some(x) => {
                assert(readable_rows(a + b) =~= (readable_rows(a) + readable_rows(b.drop_last())).push(x));
                assert(readable_rows(a) + readable_rows(b) =~= (readable_rows(a) + readable_rows(b.drop_last())).push(x));
            },
            None => {},
        }
    }
}

/// Law: as many tokens are listed as there are readable rows.
pub proof fn law_readable_rows_count(rows: Seq<Option<ApiToken>>)
    ensures
        readable_rows(rows).len() == rows.filter(|r: Option<ApiToken>| r is Some).len(),
    decreases rows.len(),
{
    if rows.len() > 0 {
        law_readable_rows_count(rows.drop_last());
        rows.drop_last().lemma_filter_push(rows.last(), |r: Option<ApiToken>| r is Some);
        assert(rows.drop_last().push(rows.last()) =~= rows);
    } else {
        assert(rows.filter(|r: Option<ApiToken>| r is Some) =~= Seq::<Option<ApiToken>>::empty());
    }
}

/// `GET /users/:id/api-tokens`, second step: the tokens whose rows could be
/// read, in order (200), or a failed query.
pub fn api_tokens_found(rows: Option<Vec<Option<ApiToken>>>) -> (r: Result<Vec<ApiToken>, UserError>)
    ensures
        match rows {
            Some(rows) => r matches Ok(tokens) && tokens@ == readable_rows(rows@),
            None => r == Err::<Vec<ApiToken>, UserError>(UserError::QueryExecution),
        },
{
    match rows {
        None => Err(UserError::QueryExecution),
        Some(rows) => {
            let ghost all = rows@;
            let mut tokens: Vec<ApiToken> = Vec::new();
            let mut rows = rows;
            let n = rows.len();
            let mut i: usize = 0;
            while i < n
                invariant
                    n == all.len(),
                    i <= n,
                    rows@ == all.subrange(i as int, n as int),
                    tokens@ == readable_rows(all.subrange(0, i as int)),
                decreases n - i,
            {
                let row = rows.remove(0);
                proof {
                    assert(row == all[i as int]);
                    assert(rows@ =~= all.subrange(i + 1, n as int));
                    assert(all.subrange(0, i + 1).drop_last() =~= all.subrange(0, i as int));
                    assert(all.subrange(0, i + 1).last() == all[i as int]);
                }
                match row {
                    Some(t) => tokens.push(t),
                    None => {},
                }
                i = i + 1;
            }
            proof {
                assert(all.subrange(0, n as int) =~= all);
            }
            Ok(tokens)
        },
    }
}

/// An API token as the server issues it: 50 ASCII letters and digits.
pub open spec fn is_issued_token(t: Seq<char>) -> bool {
    t.len() == API_TOKEN_LEN && forall|i: int| 0 <= i < t.len() ==> is_ascii_alphanumeric(#[trigger] t[i])
}

/// Where `POST /users` stands.
pub enum PostStage {
    /// Waiting for the body; whether anyone may sign up (the server's
    /// `open_registration` setting).
    Receiving { open_registration: bool },
    /// Waiting for the database to create the user.
    CreatingUser { email: String },
    /// Waiting for the database to store the user's first API token.
    CreatingToken { email: String, user_id: i64, token: String },
    /// Answered.
    Finished,
}

/// What the server learned since the last step.
pub enum PostEvent {
    /// The email of the body; none when the body has none.
    Received(Option<String>),
    /// The id of the created user; none when the email is taken.
    UserCreated(Option<i64>),
    /// Whether the token was stored.
    TokenCreated(bool),
}

/// The answer to `POST /users`.
pub enum PostReply {
    /// 400: the body must include an email.
    BodyMissing,
    /// The failure.
    Failed(UserError),
    /// 201: the new user's email, id and API token.
    Created(Signup),
}

impl PostReply {
    /// The HTTP status of the answer: 400 without an email, the failure's
    /// status, or 201 for a created user.
    pub fn status(&self) -> (s: u16)
        ensures
            s == (match *self {
                PostReply::BodyMissing => 400u16,
                PostReply::Failed(UserError::EmailTaken) => 409u16,
                PostReply::Failed(UserError::RegistrationClosed) => 403u16,
                PostReply::Failed(_) => 500u16,
                PostReply::Created(_) => 201u16,
            }),
    {
        match self {
            PostReply::BodyMissing => 400,
            PostReply::Failed(e) => e.status(),
            PostReply::Created(_) => 201,
        }
    }

    /// The message of a refused request; none for a created user.
    pub fn message(&self) -> (m: Option<&'static str>)
        ensures
            match *self {
                PostReply::BodyMissing => m matches Some(t) && t@ == "Body must include an email"@,
                PostReply::Failed(e) => m matches Some(t) && t@ == user_error_message(e),
                PostReply::Created(_) => m is None,
            },
    {
        match self {
            PostReply::BodyMissing => Some("Body must include an email"),
            PostReply::Failed(e) => Some(e.message()),
            PostReply::Created(_) => None,
        }
    }
}

/// What the server does next.
pub enum PostAction {
    /// Create a user with this email.
    InsertUser { email: String },
    /// Store this API token for the user.
    InsertToken { contents: String, user_id: i64 },
    /// Answer.
    Reply(PostReply),
}

/// Whether an event is one that the stage waits for.
pub open spec fn post_expects(stage: PostStage, event: PostEvent) -> bool {
    match (stage, event) {
        (PostStage::Receiving { .. }, PostEvent::Received(_)) => true,
        (PostStage::CreatingUser { .. }, PostEvent::UserCreated(_)) => true,
        (PostStage::CreatingToken { .. }, PostEvent::TokenCreated(_)) => true,
        _ => false,
    }
}

/// What one step of `POST /users` does.
pub open spec fn post_transition(stage: PostStage, event: PostEvent, next: PostStage, action: PostAction) -> bool {
    match (stage, event) {
        (PostStage::Receiving { open_registration: false }, PostEvent::Received(_)) => {
            &&& next is Finished
            &&& action == PostAction::Reply(PostReply::Failed(UserError::RegistrationClosed))
        },
        (PostStage::Receiving { open_registration: true }, PostEvent::Received(None)) => {
            &&& next is Finished
            &&& action == PostAction::Reply(PostReply::BodyMissing)
        },
        (PostStage::Receiving { open_registration: true }, PostEvent::Received(Some(email))) => {
            &&& action matches PostAction::InsertUser { email: e }
            &&& e@ == trim(email@)
            &&& next == (PostStage::CreatingUser { email: e })
        },
        (PostStage::CreatingUser { .. }, PostEvent::UserCreated(None)) => {
            &&& next is Finished
            &&& action == PostAction::Reply(PostReply::Failed(UserError::EmailTaken))
        },
        (PostStage::CreatingUser { email }, PostEvent::UserCreated(Some(id))) => {
            &&& action matches PostAction::InsertToken { contents, user_id }
            &&& user_id == id
            &&& is_issued_token(contents@)
            &&& next == (PostStage::CreatingToken { email, user_id: id, token: contents })
        },
        (PostStage::CreatingToken { .. }, PostEvent::TokenCreated(false)) => {
            &&& next is Finished
            &&& action == PostAction::Reply(PostReply::Failed(UserError::QueryExecution))
        },
        (PostStage::CreatingToken { email, user_id, token }, PostEvent::TokenCreated(true)) => {
            &&& next is Finished
            &&& action == PostAction::Reply(
                PostReply::Created(Signup { email, id: user_id as u64, token }),
            )
        },
        _ => false,
    }
}

/// One step of `POST /users`: refuses when registration is closed; else reads
/// the email, creates the user, issues its first API token and answers with
/// email, id and token.
pub fn post(stage: PostStage, event: PostEvent) -> (r: (PostStage, PostAction))
    requires
        post_expects(stage, event),
    ensures
        post_transition(stage, event, r.0, r.1),
{
    match (stage, event) {
        (PostStage::Receiving { open_registration }, PostEvent::Received(body_email)) => {
            if !open_registration {
                return (PostStage::Finished, PostAction::Reply(PostReply::Failed(UserError::RegistrationClosed)));
            }
            match body_email {
            None => (PostStage::Finished, PostAction::Reply(PostReply::BodyMissing)),
            Some(email) => {
                let email = trim_to_owned(email.as_str());
                let action = PostAction::InsertUser { email: email.clone() };
                (PostStage::CreatingUser { email }, action)
            },
            }
        },
        (PostStage::CreatingUser { email }, PostEvent::UserCreated(created)) => match created {
            None => (PostStage::Finished, PostAction::Reply(PostReply::Failed(UserError::EmailTaken))),
            Some(id) => {
                let token = random_string(API_TOKEN_LEN);
                let action = PostAction::InsertToken { contents: token.clone(), user_id: id };
                (PostStage::CreatingToken { email, user_id: id, token }, action)
            },
        },
        (PostStage::CreatingToken { email, user_id, token }, PostEvent::TokenCreated(stored)) => {
            if stored {
                let signup = Signup { email, id: user_id as u64, token };
                (PostStage::Finished, PostAction::Reply(PostReply::Created(signup)))
            } else {
                (PostStage::Finished, PostAction::Reply(PostReply::Failed(UserError::QueryExecution)))
            }
        },
        _ => (PostStage::Finished, PostAction::Reply(PostReply::BodyMissing)),
    }
}

/// Law: an API token that `POST /users` issues, sent with any non-empty
/// email that does not hold `"/token:"` as `Basic <email>/token:<token>`, is
/// read back by the API's credentials parser as that email and that token.
pub proof fn law_issued_token_is_readable(email: Seq<char>, token: Seq<char>)
    requires
        is_issued_token(token),
        email.len() > 0,
        forall|q: int| !#[trigger] marker_at(encode_utf8(email), q),
    ensures
        parse_credentials(encode_utf8(credentials_header(email, token))) == Ok::<
            (Seq<u8>, Seq<u8>),
            AuthParseError,
        >((encode_utf8(email), encode_utf8(token))),
{
    assert(is_ascii_chars(token));
    is_ascii_chars_encode_utf8(token);
    let t = encode_utf8(token);
    assert forall|q: int| !#[trigger] marker_at(t, q) by {
        if marker_at(t, q) {
            assert(t.subrange(q, q + 7)[0] == t[q]);
            assert(t[q] == token[q] as u8);
            assert(is_ascii_alphanumeric(token[q]));
        }
    }
    law_credentials_header_round_trip(email, token);
}

/// Law: a completed `POST /users` answers with the user it created and the
/// token it stored: the answered email is the one given to the database
/// (the body's email without surrounding whitespace), the answered id is the
/// created user's id, and the answered token is the stored one.
pub proof fn law_signup_answers_what_it_stored(
    body_email: String,
    user_id: i64,
    s1: PostStage,
    a1: PostAction,
    s2: PostStage,
    a2: PostAction,
    s3: PostStage,
    a3: PostAction,
)
    requires
        post_transition(
            PostStage::Receiving { open_registration: true },
            PostEvent::Received(Some(body_email)),
            s1,
            a1,
        ),
        post_transition(s1, PostEvent::UserCreated(Some(user_id)), s2, a2),
        post_transition(s2, PostEvent::TokenCreated(true), s3, a3),
    ensures
        a1 matches PostAction::InsertUser { email } && email@ == trim(body_email@),
        a2 matches PostAction::InsertToken { contents, user_id: u } && u == user_id
            && is_issued_token(contents@),
        a3 matches PostAction::Reply(PostReply::Created(signup)) && a1 matches PostAction::InsertUser {
            email,
        } && a2 matches PostAction::InsertToken { contents, .. } && signup.email == email
            && signup.token == contents && signup.id == user_id as u64,
{
}

/// Law: while registration is closed, `POST /users` creates nothing: its
/// first step answers 403 and ends, whatever the body holds.
pub proof fn law_closed_registration_creates_nothing(event: PostEvent, next: PostStage, action: PostAction)
    requires
        post_transition(PostStage::Receiving { open_registration: false }, event, next, action),
    ensures
        next is Finished,
        action == PostAction::Reply(PostReply::Failed(UserError::RegistrationClosed)),
{
}

} // verus!
