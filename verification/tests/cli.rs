use leaves::cli::command::file::{client_config as file_client_config, report};
use leaves::cli::command::file::{step as file_step, FileAction, FileError, FileEvent, FileStage};
use leaves::cli::command::login::{self, client_config as login_client_config, email_is_plausible, LoginAction, LoginError, LoginEvent, LoginStage};
use leaves::cli::command::signup::{self, SignupAction, SignupError, SignupEvent, SignupStage};
use leaves::cli::command::upload::{self, client_config as upload_client_config, UploadAction, UploadError, UploadEvent, UploadStage};
use leaves::cli::command::Line;
use leaves::cli::config::Config;
use leaves::text::trim_end_to_owned;
use leaves::http_client::error::ClientError;
use leaves::models::v1::{FileInfo, Signup, User};

#[test]
fn config_new_trims_fields() {
    let c = Config::new("  https://leaves.example \n".to_string(), "\tme@example.com ".to_string(), " tok\u{a0}".to_string());
    assert_eq!(c.api_url, "https://leaves.example");
    assert_eq!(c.email, "me@example.com");
    assert_eq!(c.token, "tok");
    let again = Config::new(c.api_url.clone(), c.email.clone(), c.token.clone());
    assert_eq!(again.api_url, c.api_url);
    assert_eq!(again.email, c.email);
    assert_eq!(again.token, c.token);
}

#[test]
fn email_needs_at_and_dot() {
    assert!(email_is_plausible("vivian@hellyer.dev"));
    assert!(!email_is_plausible("vivian@hellyer"));
    assert!(!email_is_plausible("vivian.hellyer.dev"));
    assert!(!email_is_plausible(""));
}

#[test]
fn login_client_config_trims_credentials() {
    let c = login_client_config(" https://a ", " me@b.c ", " tok ");
    assert_eq!(c.api_url, " https://a ");
    assert_eq!(c.email.as_deref(), Some("me@b.c"));
    assert_eq!(c.api_token.as_deref(), Some("tok"));
}

#[test]
fn upload_and_file_client_configs() {
    let saved = Config::new("https://a".to_string(), "me@b.c".to_string(), "tok".to_string());
    let up = upload_client_config(saved.clone());
    assert_eq!(up.api_url, "https://a");
    assert_eq!(up.api_token.as_deref(), Some("tok"));
    assert_eq!(up.email.as_deref(), Some("me@b.c"));
    let file = file_client_config(saved);
    assert_eq!(file.api_url, "https://a");
    assert!(file.api_token.is_none());
    assert!(file.email.is_none());
}

#[test]
fn file_report_small_and_large() {
    let small = FileInfo { id: "61xc90".to_string(), size: 512, url: "u".to_string() };
    assert_eq!(report(&small), "🍂 ID: 61xc90\n🍂 Size: 512 B (512 bytes)");
    let large = FileInfo { id: "abcdef".to_string(), size: 2048, url: "u".to_string() };
    assert_eq!(report(&large), "🍂 ID: abcdef\n🍂 Size: 2.0 kiB (2048 bytes)");
    let zero = FileInfo { id: "z".to_string(), size: 0, url: "u".to_string() };
    assert_eq!(report(&zero), "🍂 ID: z\n🍂 Size: 0 B (0 bytes)");
}

fn text_of(output: &[Line]) -> Vec<String> {
    output
        .iter()
        .map(|line| match line {
            Line::Text(t) => t.clone(),
            Line::Failure { prefix, error } => format!("{}{:?}", prefix, error),
        })
        .collect()
}

fn io_error() -> std::io::Error {
    std::io::Error::new(std::io::ErrorKind::UnexpectedEof, "closed")
}

#[test]
fn prompt_answers_lose_trailing_whitespace_only() {
    assert_eq!(trim_end_to_owned("  https://a \r\n"), "  https://a");
    assert_eq!(trim_end_to_owned(""), "");
    assert_eq!(trim_end_to_owned("x\u{a0}\t"), "x");
}

#[test]
fn login_with_arguments_checks_then_saves() {
    let (stage, a) = login::step(
        LoginStage::Starting,
        LoginEvent::Started { api_url: Some("https://a".to_string()), email: Some(" me@b.c ".to_string()), token: Some("tok ".to_string()) },
    );
    match a {
        LoginAction::Check(c) => {
            assert_eq!(c.api_url, "https://a");
            assert_eq!(c.email.as_deref(), Some("me@b.c"));
            assert_eq!(c.api_token.as_deref(), Some("tok"));
        }
        _ => panic!("expected a check"),
    }
    let (stage, a) = login::step(stage, LoginEvent::Checked(Ok(User { email: "me@b.c".to_string(), id: 1 })));
    match a {
        LoginAction::Save(c) => {
            assert_eq!(c.api_url, "https://a");
            assert_eq!(c.email, "me@b.c");
            assert_eq!(c.token, "tok");
        }
        _ => panic!("expected a save"),
    }
    let (stage, a) = login::step(stage, LoginEvent::Saved(Ok(())));
    assert!(matches!(stage, LoginStage::Finished));
    match a {
        LoginAction::Finish { output, result } => {
            assert_eq!(text_of(&output), vec!["🍂 Signed in".to_string()]);
            assert!(result.is_ok());
        }
        _ => panic!("expected the end"),
    }
}

#[test]
fn login_prompts_and_asks_again_for_a_bad_email() {
    let (stage, a) = login::step(LoginStage::Starting, LoginEvent::Started { api_url: Some("u".to_string()), email: None, token: None });
    assert!(matches!(a, LoginAction::Prompt { notice: None, question: "Where is your leaves 🍂 instance?\n❯ " }));
    let (stage, a) = login::step(stage, LoginEvent::Answered(Ok("https://a".to_string())));
    assert!(matches!(a, LoginAction::Prompt { notice: None, question: "What is your email address?\n❯ " }));
    let (stage, a) = login::step(stage, LoginEvent::Answered(Ok("vivian".to_string())));
    match a {
        LoginAction::Prompt { notice: Some(n), question } => {
            assert_eq!(n, "It looks like *vivian* is invalid");
            assert_eq!(question, "What is your email address?\n❯ ");
        }
        _ => panic!("expected the question again"),
    }
    let (stage, a) = login::step(stage, LoginEvent::Answered(Ok("vivian@hellyer.dev".to_string())));
    assert!(matches!(a, LoginAction::Prompt { notice: None, question: "What is your token?\n❯ " }));
    let (stage, a) = login::step(stage, LoginEvent::Answered(Ok("tok".to_string())));
    assert!(matches!(a, LoginAction::Check(_)));
    let (_, a) = login::step(stage, LoginEvent::Checked(Err(ClientError::Unauthorized)));
    match a {
        LoginAction::Finish { output, result } => {
            assert_eq!(text_of(&output), vec!["🍂 Login credentials invalid".to_string()]);
            assert!(result.is_ok());
        }
        _ => panic!("expected the end"),
    }
}

#[test]
fn login_failures() {
    let (_, a) = login::step(LoginStage::AskingUrl, LoginEvent::Answered(Err(io_error())));
    assert!(matches!(a, LoginAction::Finish { result: Err(LoginError::PromptingUser { .. }), .. }));
    let checking = LoginStage::Checking { api_url: "u".to_string(), email: "e".to_string(), token: "t".to_string() };
    let (_, a) = login::step(checking, LoginEvent::Checked(Err(ClientError::NotFound)));
    match a {
        LoginAction::Finish { output, result } => {
            assert_eq!(text_of(&output), vec!["🍂 Unknown response: NotFound".to_string()]);
            assert!(result.is_ok());
        }
        _ => panic!("expected the end"),
    }
    let checking = LoginStage::Checking { api_url: "u".to_string(), email: "e".to_string(), token: "t".to_string() };
    let (_, a) = login::step(checking, LoginEvent::ClientFailed(ClientError::NotFound));
    assert!(matches!(a, LoginAction::Finish { result: Err(LoginError::CreatingClient { .. }), .. }));
    assert_eq!(LoginError::PromptingUser { source: io_error() }.message(), "logging in failed");
}

#[test]
fn signup_full_run() {
    let (stage, a) = signup::step(SignupStage::Starting, SignupEvent::Started);
    assert!(matches!(a, SignupAction::Prompt { notice: None, question: "Where is your leaves 🍂 instance?\n❯ " }));
    let (stage, a) = signup::step(stage, SignupEvent::Answered(Ok("https://a".to_string())));
    assert!(matches!(a, SignupAction::Prompt { notice: None, question: "What is your email address?\n❯ " }));
    let (stage, a) = signup::step(stage, SignupEvent::Answered(Ok("vivian@hellyer".to_string())));
    match a {
        SignupAction::Prompt { notice: Some(n), .. } => assert_eq!(n, "It looks like *vivian@hellyer* is invalid"),
        _ => panic!("expected the question again"),
    }
    let (stage, a) = signup::step(stage, SignupEvent::Answered(Ok(" vivian@hellyer.dev ".to_string())));
    match a {
        SignupAction::Send { config, email } => {
            assert_eq!(config.api_url, "https://a");
            assert!(config.api_token.is_none());
            assert!(config.email.is_none());
            assert_eq!(email, "vivian@hellyer.dev");
        }
        _ => panic!("expected a request"),
    }
    let created = Signup { email: "vivian@hellyer.dev".to_string(), id: 3, token: "t".repeat(50) };
    let (stage, a) = signup::step(stage, SignupEvent::SignedUp(Ok(created)));
    match a {
        SignupAction::Save(c) => {
            assert_eq!(c.api_url, "https://a");
            assert_eq!(c.email, "vivian@hellyer.dev");
            assert_eq!(c.token, "t".repeat(50));
        }
        _ => panic!("expected a save"),
    }
    let (stage, a) = signup::step(stage, SignupEvent::Saved(Ok(())));
    assert!(matches!(stage, SignupStage::Finished));
    match a {
        SignupAction::Finish { output, result } => {
            assert_eq!(text_of(&output), vec!["🍂 You're logged in and can start uploading".to_string()]);
            assert!(result.is_ok());
        }
        _ => panic!("expected the end"),
    }
}

#[test]
fn signup_outcomes() {
    let sending = || SignupStage::Sending { api_url: "u".to_string() };
    let shown = |event| match signup::step(sending(), event).1 {
        SignupAction::Finish { output, result } => {
            assert!(result.is_ok());
            text_of(&output)
        }
        _ => panic!("expected the end"),
    };
    assert_eq!(
        shown(SignupEvent::SignedUp(Err(ClientError::ResourceAlreadyExists))),
        vec!["🍂 A user is already registered with that email address".to_string()]
    );
    assert_eq!(
        shown(SignupEvent::SignedUp(Err(ClientError::InternalServerError))),
        vec!["🍂 The server encountered an error while making your account".to_string()]
    );
    assert_eq!(
        shown(SignupEvent::SignedUp(Err(ClientError::Unauthorized))),
        vec!["🍂 An unknown error occurred: Unauthorized".to_string(), "Please try again later".to_string()]
    );
    let (_, a) = signup::step(sending(), SignupEvent::ClientFailed(ClientError::NotFound));
    assert!(matches!(a, SignupAction::Finish { result: Err(SignupError::CreatingClient { .. }), .. }));
    let (_, a) = signup::step(SignupStage::AskingUrl, SignupEvent::Answered(Err(io_error())));
    assert!(matches!(a, SignupAction::Finish { result: Err(SignupError::PromptingUser { .. }), .. }));
    assert_eq!(SignupError::PromptingUser { source: io_error() }.message(), "signing up failed");
}

#[test]
fn file_needs_login_and_id() {
    let (_, a) = file_step(FileStage::Starting, FileEvent::Started { config: None, id: Some("x".to_string()) });
    match a {
        FileAction::Finish { output, result } => {
            assert_eq!(text_of(&output), vec!["You need to login first with `leaves login`".to_string()]);
            assert!(result.is_ok());
        }
        _ => panic!("expected the end"),
    }
    let saved = Config::new("https://a".to_string(), "me@b.c".to_string(), "tok".to_string());
    let (_, a) = file_step(FileStage::Starting, FileEvent::Started { config: Some(saved.clone()), id: None });
    match a {
        FileAction::Finish { output, .. } => {
            assert_eq!(text_of(&output), vec!["🍂 You need to give the ID of the file to get".to_string()])
        }
        _ => panic!("expected the end"),
    }
    let (stage, a) = file_step(FileStage::Starting, FileEvent::Started { config: Some(saved), id: Some("61xc90".to_string()) });
    match a {
        FileAction::Fetch { config, id } => {
            assert_eq!(config.api_url, "https://a");
            assert_eq!(id, "61xc90");
        }
        _ => panic!("expected a request"),
    }
    let info = FileInfo { id: "61xc90".to_string(), size: 512, url: "u".to_string() };
    let (_, a) = file_step(stage, FileEvent::Fetched(Ok(info)));
    match a {
        FileAction::Finish { output, result } => {
            assert_eq!(text_of(&output), vec!["🍂 ID: 61xc90\n🍂 Size: 512 B (512 bytes)".to_string()]);
            assert!(result.is_ok());
        }
        _ => panic!("expected the end"),
    }
    let (_, a) = file_step(FileStage::Fetching { id: "q".to_string() }, FileEvent::Fetched(Err(ClientError::NotFound)));
    assert!(matches!(a, FileAction::Finish { result: Err(FileError::PerformingRequest { .. }), .. }));
}

#[test]
fn upload_reads_then_sends() {
    let (_, a) = upload::step(UploadStage::Starting, UploadEvent::Started { config: None, path: None });
    assert!(matches!(a, UploadAction::Finish { result: Ok(()), .. }));
    let saved = Config::new("https://a".to_string(), "me@b.c".to_string(), "tok".to_string());
    let (stage, a) = upload::step(UploadStage::Starting, UploadEvent::Started { config: Some(saved.clone()), path: Some("f.txt".to_string()) });
    assert!(matches!(a, UploadAction::ReadFile(ref p) if p == "f.txt"));
    let (_, a) = upload::step(stage, UploadEvent::Read(Err(io_error())));
    assert!(matches!(a, UploadAction::Finish { result: Err(UploadError::ReadingFile { .. }), .. }));
    let (stage, a) = upload::step(UploadStage::Starting, UploadEvent::Started { config: Some(saved), path: None });
    assert!(matches!(a, UploadAction::ReadStdin));
    let (stage, a) = upload::step(stage, UploadEvent::Read(Ok(b"hi".to_vec())));
    match a {
        UploadAction::Send { config, body } => {
            assert_eq!(body, b"hi".to_vec());
            assert_eq!(config.api_token.as_deref(), Some("tok"));
            assert_eq!(config.email.as_deref(), Some("me@b.c"));
        }
        _ => panic!("expected a request"),
    }
    let done = leaves::models::v1::Upload { id: "abc".to_string(), size: 2, url: "https://a/files/abc".to_string() };
    let (_, a) = upload::step(stage, UploadEvent::Uploaded(Ok(done)));
    match a {
        UploadAction::Finish { output, result } => {
            assert_eq!(text_of(&output), vec!["https://a/files/abc".to_string()]);
            assert!(result.is_ok());
        }
        _ => panic!("expected the end"),
    }
}

#[test]
fn signup_login_signs_uploads_in() {
    let token = "a".repeat(50);
    let answer = Signup { email: "vivian@hellyer.dev".to_string(), id: 4761, token: token.clone() };
    let (_, a) = signup::step(SignupStage::Sending { api_url: "https://a".to_string() }, SignupEvent::SignedUp(Ok(answer)));
    let saved = match a {
        SignupAction::Save(c) => c,
        _ => panic!("expected a save"),
    };
    let reading = UploadStage::Reading { config: saved, from_file: true };
    let (_, a) = upload::step(reading, UploadEvent::Read(Ok(b"post file contents as the body".to_vec())));
    match a {
        UploadAction::Send { config, .. } => {
            assert_eq!(config.auth(), Some(format!("Basic vivian@hellyer.dev/token:{}", token)));
        }
        _ => panic!("expected a request"),
    }
}
