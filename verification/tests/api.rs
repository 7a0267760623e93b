use leaves::api::error::ApiError;
use leaves::api::common::middleware::token_valid::{TokenError, TokenValid};
use leaves::api::config::{data_path, open_registration, port};
use leaves::api::routes::files::{self, FileError, PostAction, PostEvent, PostStage, TrimmedFileInfo};
use leaves::api::routes::index;
use leaves::api::routes::users::{self, GetPlan, PostReply, UserError};
use leaves::models::v1::{ApiToken, User as UserModel};

#[test]
fn config_defaults() {
    assert_eq!(data_path(), "/data");
    assert!(open_registration());
    assert_eq!(port(), 80);
}

#[test]
fn index_answers_ok() {
    assert_eq!(index::get(), 200);
}

#[test]
fn middleware_refuses_missing_and_malformed_headers() {
    let mw = TokenValid;
    assert_eq!(mw.credentials(&vec![]).unwrap_err(), TokenError::AuthorizationMissing);
    assert_eq!(mw.credentials(&vec!["Bearer x".to_string()]).unwrap_err(), TokenError::AuthorizationMalformed);
    assert_eq!(TokenError::AuthorizationMissing.status(), 401);
    assert_eq!(TokenError::CreatingAuthorizationHeader.status(), 500);
    assert_eq!(TokenError::Unauthorized.message(), "the authorization is invalid");
}

#[test]
fn middleware_lets_known_credentials_through() {
    let mw = TokenValid;
    let header = format!("Basic a@b.c/token:{}", "z".repeat(50));
    let values = vec![header];
    let auth = mw.credentials(&values).unwrap();
    assert!(matches!(mw.authorize(&auth, None), Err(TokenError::Unauthorized)));
    let user = mw.authorize(&auth, Some(UserModel { email: "a@b.c".to_string(), id: 7 })).unwrap();
    assert_eq!(user.api_token, "z".repeat(50));
    assert_eq!(user.email, "a@b.c");
    assert_eq!(user.id, 7);
}

#[test]
fn middleware_reads_the_last_authorization_value() {
    let mw = TokenValid;
    let good = format!("Basic a@b.c/token:{}", "z".repeat(50));
    let values = vec!["Bearer x".to_string(), good.clone()];
    let auth = mw.credentials(&values).unwrap();
    assert_eq!(auth.email, "a@b.c");
    assert_eq!(auth.api_token, "z".repeat(50));
    let values = vec![good, "Bearer x".to_string()];
    assert_eq!(mw.credentials(&values).unwrap_err(), TokenError::AuthorizationMalformed);
}

#[test]
fn users_post_refused_when_registration_is_closed() {
    let closed = users::PostStage::Receiving { open_registration: false };
    let (stage, a) = users::post(closed, users::PostEvent::Received(Some("vivian@hellyer.dev".to_string())));
    assert!(matches!(stage, users::PostStage::Finished));
    match a {
        users::PostAction::Reply(reply) => {
            assert_eq!(reply.status(), 403);
            assert_eq!(reply.message(), Some("Registration is closed"));
            assert!(matches!(reply, PostReply::Failed(UserError::RegistrationClosed)));
        }
        _ => panic!("expected a refusal"),
    }
    let closed = users::PostStage::Receiving { open_registration: false };
    let (_, a) = users::post(closed, users::PostEvent::Received(None));
    assert!(matches!(a, users::PostAction::Reply(PostReply::Failed(UserError::RegistrationClosed))));
    assert_eq!(UserError::RegistrationClosed.status(), 403);
}

#[test]
fn users_post_reply_statuses() {
    assert_eq!(PostReply::BodyMissing.status(), 400);
    assert_eq!(PostReply::BodyMissing.message(), Some("Body must include an email"));
    assert_eq!(PostReply::Failed(UserError::EmailTaken).status(), 409);
    assert_eq!(PostReply::Failed(UserError::QueryExecution).status(), 500);
    let created = PostReply::Created(leaves::models::v1::Signup { email: "e".to_string(), id: 1, token: "t".to_string() });
    assert_eq!(created.status(), 201);
    assert_eq!(created.message(), None);
}

#[test]
fn files_get_finds_or_404() {
    let found = files::get(Some(TrimmedFileInfo { id: "abcdef".to_string(), size: 3 })).unwrap();
    assert_eq!(found.id, "abcdef");
    assert_eq!(found.size, 3);
    let missing = files::get(None).unwrap_err();
    assert_eq!(missing, FileError::FileNonexistent);
    assert_eq!(missing.status(), 404);
    assert_eq!(missing.message(), "File doesn't exist");
}

#[test]
fn files_post_full_run() {
    let (stage, action) = files::post("https://x.y", PostStage::Receiving, PostEvent::Received { body_len: Some(12), user_id: Some(4) });
    let id = match action {
        PostAction::Record { id, size, user_id } => {
            assert_eq!(size, 12);
            assert_eq!(user_id, 4);
            assert_eq!(id.len(), 6);
            assert!(id.chars().all(|c| c.is_ascii_alphanumeric()));
            id
        }
        _ => panic!("expected a record action"),
    };
    let (stage, action) = files::post("https://x.y", stage, PostEvent::Recorded { ok: true });
    match action {
        PostAction::Save { id: saved } => assert_eq!(saved, id),
        _ => panic!("expected a save action"),
    }
    let (stage, action) = files::post("https://x.y", stage, PostEvent::Saved { ok: true });
    assert!(matches!(stage, PostStage::Finished));
    match action {
        PostAction::Reply(Ok(upload)) => {
            assert_eq!(upload.id, id);
            assert_eq!(upload.size, 12);
            assert_eq!(upload.url, format!("https://x.y/{}", id));
        }
        _ => panic!("expected a created file"),
    }
}

#[test]
fn files_post_failures() {
    let (_, a) = files::post("u", PostStage::Receiving, PostEvent::Received { body_len: None, user_id: Some(1) });
    assert!(matches!(a, PostAction::Reply(Err(FileError::BodyInvalid))));
    assert_eq!(FileError::BodyInvalid.status(), 400);
    let (_, a) = files::post("u", PostStage::Receiving, PostEvent::Received { body_len: Some(1), user_id: None });
    assert!(matches!(a, PostAction::Reply(Err(FileError::UserNonexistent))));
    let (_, a) = files::post("u", PostStage::Recording { id: "abcdef".to_string(), size: 1 }, PostEvent::Recorded { ok: false });
    assert!(matches!(a, PostAction::Reply(Err(FileError::CreatingFile))));
    let (_, a) = files::post("u", PostStage::Saving { id: "abcdef".to_string(), size: 1 }, PostEvent::Saved { ok: false });
    assert!(matches!(a, PostAction::Reply(Err(FileError::SavingFile))));
    assert_eq!(FileError::SavingFile.status(), 500);
}

#[test]
fn users_get_only_me() {
    assert!(matches!(users::get(None, Some(1)), GetPlan::Respond(400)));
    assert!(matches!(users::get(Some("12"), Some(1)), GetPlan::Respond(403)));
    assert!(matches!(users::get(Some("@me"), None), GetPlan::Fail(UserError::UserNonexistent)));
    assert!(matches!(users::get(Some("@me"), Some(9)), GetPlan::Query(9)));
    assert_eq!(users::get_found(None).unwrap_err(), UserError::QueryExecution);
    let user = users::get_found(Some(UserModel { email: "e".to_string(), id: 9 })).unwrap();
    assert_eq!(user.id, 9);
}

#[test]
fn users_api_tokens_keep_readable_rows_in_order() {
    assert_eq!(users::get_api_tokens(None).unwrap_err(), UserError::UserNonexistent);
    assert_eq!(users::get_api_tokens(Some(3)).unwrap(), 3);
    assert_eq!(users::api_tokens_found(None).unwrap_err(), UserError::QueryExecution);
    let token = |id: i64| ApiToken { contents: format!("t{}", id), id, user_id: 3 };
    let rows = vec![Some(token(1)), None, Some(token(2)), None];
    let tokens = users::api_tokens_found(Some(rows)).unwrap();
    assert_eq!(tokens.len(), 2);
    assert_eq!(tokens[0].id, 1);
    assert_eq!(tokens[1].id, 2);
}

#[test]
fn users_post_full_run() {
    let (stage, action) = users::post(users::PostStage::Receiving { open_registration: true }, users::PostEvent::Received(Some("  vivian@hellyer.dev \n".to_string())));
    match action {
        users::PostAction::InsertUser { email } => assert_eq!(email, "vivian@hellyer.dev"),
        _ => panic!("expected a user insert"),
    }
    let (stage, action) = users::post(stage, users::PostEvent::UserCreated(Some(4761)));
    let token = match action {
        users::PostAction::InsertToken { contents, user_id } => {
            assert_eq!(user_id, 4761);
            assert_eq!(contents.len(), 50);
            assert!(contents.chars().all(|c| c.is_ascii_alphanumeric()));
            contents
        }
        _ => panic!("expected a token insert"),
    };
    let (_, action) = users::post(stage, users::PostEvent::TokenCreated(true));
    match action {
        users::PostAction::Reply(PostReply::Created(signup)) => {
            assert_eq!(signup.email, "vivian@hellyer.dev");
            assert_eq!(signup.id, 4761);
            assert_eq!(signup.token, token);
            let header = format!("Basic {}/token:{}", signup.email, signup.token);
            let mw = TokenValid;
            let values = vec![header];
            let auth = mw.credentials(&values).unwrap();
            assert_eq!(auth.api_token, token.as_str());
        }
        _ => panic!("expected a signup"),
    }
}

#[test]
fn users_post_failures() {
    let (_, a) = users::post(users::PostStage::Receiving { open_registration: true }, users::PostEvent::Received(None));
    assert!(matches!(a, users::PostAction::Reply(PostReply::BodyMissing)));
    let (_, a) = users::post(users::PostStage::CreatingUser { email: "e".to_string() }, users::PostEvent::UserCreated(None));
    assert!(matches!(a, users::PostAction::Reply(PostReply::Failed(UserError::EmailTaken))));
    assert_eq!(UserError::EmailTaken.status(), 409);
    assert_eq!(UserError::EmailTaken.message(), "A user with that email address already exists");
    let (_, a) = users::post(
        users::PostStage::CreatingToken { email: "e".to_string(), user_id: 1, token: "t".to_string() },
        users::PostEvent::TokenCreated(false),
    );
    assert!(matches!(a, users::PostAction::Reply(PostReply::Failed(UserError::QueryExecution))));
    assert_eq!(UserError::QueryExecution.status(), 500);
}

#[test]
fn startup_error_messages() {
    let e = ApiError::ServerInitialization { port: 80, source: std::io::Error::new(std::io::ErrorKind::Other, "x") };
    assert_eq!(e.message(), "couldn't bind to port when starting server");
    let e = ApiError::R2d2Initialization { source: r2d2_error() };
    assert_eq!(e.message(), "couldn't open database");
}

fn r2d2_error() -> r2d2::Error {
    let manager = r2d2_sqlite::SqliteConnectionManager::file("/nonexistent-dir/for/sure/db");
    r2d2::Pool::builder()
        .max_size(1)
        .connection_timeout(std::time::Duration::from_millis(50))
        .build(manager)
        .unwrap_err()
}
