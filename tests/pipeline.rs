use rusty_liveblog::auth::{complete_authorization, plan_authentication, AuthPlan, Credentials};
use rusty_liveblog::backend::{
    after_response, build_rich_post, finish_post, first_request, two_step_post_body, BackendRequest,
    PublishProgress, PNG_MIME, finish_upload, markdown_body, rich_post_blocks, ContentBlock,
    PublishBackend,
};
use rusty_liveblog::coordinator::{collect, join, TaskDone};
use rusty_liveblog::desktop::{
    dialog_outcome, error_notice, info_notice, posted_notice, play_pause_key, XKeyCode, ERROR_TIMEOUT_MS,
    INFO_TIMEOUT_MS,
};
use rusty_liveblog::envelope::{JsonValue, PostReference};
use rusty_liveblog::error::{ErrorKind, LiveblogError};
use rusty_liveblog::guard::{MediaGuard, PlaybackSignal};
use rusty_liveblog::markdown::md2html;
use rusty_liveblog::orchestrator::{Action, Event, Orchestrator, Stage};

const PNG_STUB: [u8; 10] = [0x89, b'P', b'N', b'G', 0x0d, 0x0a, 0x1a, 0x0a, 0, 0];

fn err(kind: ErrorKind, msg: &str) -> LiveblogError {
    LiveblogError::new(kind, msg.to_string())
}

fn creds(token: &str) -> Credentials {
    Credentials { token: token.to_string(), identity: None }
}

fn obj(members: Vec<(&str, JsonValue)>) -> JsonValue {
    JsonValue::Object(members.into_iter().map(|(k, v)| (k.to_string(), v)).collect())
}

fn count_resumes(actions: &[Action]) -> usize {
    actions.iter().filter(|a| matches!(a, Action::Resume)).count()
}

fn count_success(actions: &[Action]) -> usize {
    actions.iter().filter(|a| matches!(a, Action::NotifySuccess)).count()
}

/// Runs the state machine over the events and collects every action.
fn drive(events: Vec<Event>) -> (Orchestrator, Vec<Action>) {
    let mut o = Orchestrator::new();
    let mut all = Vec::new();
    for e in events {
        all.extend(o.step(e));
    }
    (o, all)
}

#[test]
fn join_is_commutative() {
    let cases: Vec<(bool, bool)> = vec![(true, true), (true, false), (false, true), (false, false)];
    for (cap_ok, cap2_ok) in cases {
        let mk_cap = || if cap_ok { Ok(PNG_STUB.to_vec()) } else { Err(err(ErrorKind::Capture, "no screen")) };
        let mk_txt = || if cap2_ok { Ok("hi".to_string()) } else { Err(err(ErrorKind::Dialog, "cancel")) };
        let a = join(TaskDone::Capture(mk_cap()), TaskDone::Caption(mk_txt())).unwrap();
        let b = join(TaskDone::Caption(mk_txt()), TaskDone::Capture(mk_cap())).unwrap();
        match (a, b) {
            (Ok((s1, c1)), Ok((s2, c2))) => {
                assert_eq!(s1, s2);
                assert_eq!(c1, c2);
            }
            (Err(e1), Err(e2)) => {
                assert_eq!(e1.kind, e2.kind);
                assert_eq!(e1.message, e2.message);
            }
            _ => panic!("orders disagree"),
        }
    }
}

#[test]
fn collect_discards_caption_when_capture_fails() {
    let r = collect(Err(err(ErrorKind::Capture, "no screen")), Ok("typed".to_string()));
    assert_eq!(r.unwrap_err().kind, ErrorKind::Capture);
    let r = collect(Ok(PNG_STUB.to_vec()), Err(err(ErrorKind::Dialog, "cancel")));
    assert_eq!(r.unwrap_err().kind, ErrorKind::Dialog);
}

#[test]
fn join_of_same_task_twice_is_none() {
    assert!(join(TaskDone::Capture(Ok(vec![1])), TaskDone::Capture(Ok(vec![2]))).is_none());
}

#[test]
fn guard_release_is_idempotent() {
    let (mut g, sig) = MediaGuard::acquire();
    assert_eq!(sig, PlaybackSignal::Pause);
    assert!(!g.is_released());
    assert_eq!(g.release(), Some(PlaybackSignal::Resume));
    assert_eq!(g.release(), None);
    assert!(g.is_released());
}

#[test]
fn resume_exactly_once_for_every_outcome() {
    let pair = || Ok((PNG_STUB.to_vec(), "c".to_string()));
    let runs: Vec<(Vec<Event>, Stage)> = vec![
        (
            vec![
                Event::Start,
                Event::Paused,
                Event::Collected(pair()),
                Event::Authenticated(Ok(creds("t"))),
                Event::Published(Ok(PostReference { id: "1".to_string() })),
            ],
            Stage::Done,
        ),
        (vec![Event::Start, Event::Paused, Event::Collected(Err(err(ErrorKind::Capture, "x")))], Stage::Failed),
        (vec![Event::Start, Event::Paused, Event::Collected(Err(err(ErrorKind::Dialog, "x")))], Stage::Failed),
        (
            vec![Event::Start, Event::Paused, Event::Collected(pair()), Event::Authenticated(Err(err(ErrorKind::Auth, "x")))],
            Stage::Failed,
        ),
    ];
    let mut runs = runs;
    for kind in [ErrorKind::Upload, ErrorKind::Post, ErrorKind::Decode] {
        runs.push((
            vec![
                Event::Start,
                Event::Paused,
                Event::Collected(pair()),
                Event::Authenticated(Ok(creds("t"))),
                Event::Published(Err(err(kind, "x"))),
            ],
            Stage::Failed,
        ));
    }
    for (events, end) in runs {
        let (mut o, mut actions) = drive(events);
        assert_eq!(o.stage(), end);
        // Later events change nothing.
        actions.extend(o.step(Event::Published(Ok(PostReference { id: "2".to_string() }))));
        actions.extend(o.step(Event::Start));
        assert_eq!(count_resumes(&actions), 1);
        assert!(matches!(actions[0], Action::Pause));
    }
}

#[test]
fn publish_action_carries_capture_and_credentials() {
    let (o, actions) = drive(vec![
        Event::Start,
        Event::Paused,
        Event::Collected(Ok((PNG_STUB.to_vec(), "cap".to_string()))),
        Event::Authenticated(Ok(creds("tok"))),
    ]);
    assert_eq!(o.stage(), Stage::Publishing);
    assert!(matches!(actions[1], Action::StartTasks));
    assert!(matches!(actions[2], Action::Authenticate));
    match &actions[3] {
        Action::Publish { screenshot, caption, credentials } => {
            assert_eq!(screenshot, &PNG_STUB.to_vec());
            assert_eq!(caption, "cap");
            assert_eq!(credentials.token, "tok");
        }
        other => panic!("expected publish, got {:?}", other),
    }
}

#[test]
fn events_out_of_order_are_ignored() {
    let mut o = Orchestrator::new();
    assert!(o.step(Event::Paused).is_empty());
    assert_eq!(o.stage(), Stage::Idle);
    assert_eq!(o.step(Event::Start).len(), 1);
    assert!(o.step(Event::Authenticated(Ok(creds("t")))).is_empty());
    assert_eq!(o.stage(), Stage::Guarded);
}

#[test]
fn authenticate_twice_uses_store_second_time() {
    let mut store: Option<Credentials> = None;
    assert!(matches!(plan_authentication(None), AuthPlan::RunInteractive));
    let c = complete_authorization(&mut store, Ok(creds("secret-token"))).unwrap();
    assert_eq!(c.token, "secret-token");
    let stored = store.as_ref().unwrap().duplicate();
    match plan_authentication(Some(stored)) {
        AuthPlan::UseStored(c) => assert_eq!(c.token, "secret-token"),
        AuthPlan::RunInteractive => panic!("interactive flow ran again"),
    }
}

#[test]
fn stored_credentials_are_used_and_failed_flow_is_auth_error() {
    match plan_authentication(Some(creds(""))) {
        AuthPlan::UseStored(c) => assert_eq!(c.token, ""),
        AuthPlan::RunInteractive => panic!("a stored credential must be used"),
    }
    let mut store: Option<Credentials> = None;
    let e = complete_authorization(&mut store, Ok(creds(""))).unwrap_err();
    assert_eq!(e.kind, ErrorKind::Auth);
    assert!(store.is_none());
    let e = complete_authorization(&mut store, Err(err(ErrorKind::Auth, "denied"))).unwrap_err();
    assert_eq!(e.kind, ErrorKind::Auth);
    assert_eq!(e.message, "denied");
    assert!(store.is_none());
}

#[test]
fn scenario_a_two_step_backend() {
    let (mut o, mut actions) = drive(vec![
        Event::Start,
        Event::Paused,
        Event::Collected(Ok((PNG_STUB.to_vec(), "hello".to_string()))),
        Event::Authenticated(Ok(creds("t"))),
    ]);
    let (shot, caption) = match actions.pop().unwrap() {
        Action::Publish { screenshot, caption, .. } => (screenshot, caption),
        other => panic!("expected publish, got {:?}", other),
    };
    assert_eq!(shot.len(), 10);
    let upload_resp = obj(vec![
        ("error", JsonValue::Bool(false)),
        ("url", JsonValue::Str("http://x/1.png".to_string())),
        ("type", JsonValue::Str("image/png".to_string())),
    ]);
    let media = finish_upload(PublishBackend::TwoStepUpload, &upload_resp).unwrap();
    assert_eq!(media.url, "http://x/1.png");
    let body = markdown_body(&media.url, &caption);
    assert_eq!(body, "![Screenshot](http://x/1.png)\n\nhello");
    let post_resp = obj(vec![("error", JsonValue::Bool(false)), ("id", JsonValue::Str("p1".to_string()))]);
    let post = finish_post(PublishBackend::TwoStepUpload, &post_resp).unwrap();
    assert_eq!(post.id, "p1");
    let rest = o.step(Event::Published(Ok(post)));
    assert_eq!(o.stage(), Stage::Done);
    actions.extend(rest);
    assert_eq!(count_success(&actions), 1);
    assert_eq!(count_resumes(&actions), 1);
}

#[test]
fn scenario_b_dialog_exit_code_one() {
    let e = dialog_outcome(false, Some(1), String::new()).unwrap_err();
    assert_eq!(e.kind, ErrorKind::Dialog);
    assert_eq!(e.message, "Zenity exited with code 1!");
    let joined = collect(Ok(PNG_STUB.to_vec()), Err(e));
    let (o, actions) = drive(vec![Event::Start, Event::Paused, Event::Collected(joined)]);
    assert_eq!(o.stage(), Stage::Failed);
    assert_eq!(count_resumes(&actions), 1);
    match &actions[actions.len() - 1] {
        Action::NotifyError(m) => assert_eq!(m, "Zenity exited with code 1!"),
        other => panic!("expected error notification, got {:?}", other),
    }
    assert!(matches!(actions[actions.len() - 2], Action::Resume));
}

#[test]
fn dialog_outcome_success_and_signal() {
    assert_eq!(dialog_outcome(true, Some(0), "text\n".to_string()).unwrap(), "text\n");
    let e = dialog_outcome(false, None, String::new()).unwrap_err();
    assert_eq!(e.message, "Zenity exited with failure!");
    assert_eq!(e.to_string(), "Zenity exited with failure!");
}

#[test]
fn scenario_c_decode_error_ends_run() {
    let resp = obj(vec![("unexpected", JsonValue::Null)]);
    let e = finish_post(PublishBackend::SingleStepRichPost, &resp).unwrap_err();
    assert_eq!(e.kind, ErrorKind::Decode);
    let (o, actions) = drive(vec![
        Event::Start,
        Event::Paused,
        Event::Collected(Ok((PNG_STUB.to_vec(), "c".to_string()))),
        Event::Authenticated(Ok(creds("t"))),
        Event::Published(Err(e)),
    ]);
    assert_eq!(o.stage(), Stage::Failed);
    assert_eq!(count_success(&actions), 0);
    assert_eq!(count_resumes(&actions), 1);
}

#[test]
fn scenario_d_empty_caption_has_only_image_block() {
    let post = build_rich_post(PNG_STUB.to_vec(), String::new());
    assert_eq!(post.blocks.len(), 1);
    match &post.blocks[0] {
        ContentBlock::Image { identifier, mime_type } => {
            assert_eq!(identifier, "screenshot");
            assert_eq!(mime_type, "image/png");
            assert_eq!(identifier, &post.attachment.key);
        }
        other => panic!("expected image, got {:?}", other),
    }
    assert_eq!(post.attachment.bytes, PNG_STUB.to_vec());
    assert_eq!(post.attachment.filename, "screenshot.png");
}

#[test]
fn caption_becomes_text_block() {
    let blocks = rich_post_blocks("look".to_string());
    assert_eq!(blocks.len(), 2);
    match &blocks[1] {
        ContentBlock::Text(t) => assert_eq!(t, "look"),
        other => panic!("expected text, got {:?}", other),
    }
}

#[test]
fn markdown_renders_and_trims() {
    assert_eq!(md2html("hello"), "<p>hello</p>");
    assert_eq!(md2html("# Title"), "<h1>Title</h1>");
    assert_eq!(md2html(""), "");
}

#[test]
fn notices_differ_for_errors() {
    let i = info_notice("Posted!");
    assert_eq!(i.summary, "rusty-liveblog");
    assert_eq!(i.body, "Posted!");
    assert!(i.icon.is_none());
    assert_eq!(i.timeout_ms, INFO_TIMEOUT_MS);
    let e = error_notice("boom");
    assert_eq!(e.summary, "Error");
    assert_eq!(e.icon.as_deref(), Some("dialog-error"));
    assert_eq!(e.timeout_ms, ERROR_TIMEOUT_MS);
    assert!(ERROR_TIMEOUT_MS > INFO_TIMEOUT_MS);
}

#[test]
fn play_pause_key_is_audio_play() {
    let k: XKeyCode = play_pause_key();
    assert_eq!(k.code(), x11::keysym::XF86XK_AudioPlay as u64);
}

#[test]
fn two_step_body_from_upload_answer() {
    let ok = obj(vec![
        ("error", JsonValue::Bool(false)),
        ("url", JsonValue::Str("http://x/1.png".to_string())),
        ("type", JsonValue::Str("image/png".to_string())),
    ]);
    assert_eq!(two_step_post_body(&ok, "hello").unwrap(), "![Screenshot](http://x/1.png)\n\nhello");
    assert_eq!(two_step_post_body(&ok, "").unwrap(), "![Screenshot](http://x/1.png)\n\n");
    let failed = obj(vec![
        ("error", JsonValue::Bool(true)),
        ("message", JsonValue::Str("quota".to_string())),
    ]);
    let e = two_step_post_body(&failed, "hello").unwrap_err();
    assert_eq!(e.kind, ErrorKind::Upload);
    assert_eq!(e.message, "quota");
    let e = two_step_post_body(&JsonValue::Bool(true), "hello").unwrap_err();
    assert_eq!(e.kind, ErrorKind::Decode);
}

#[test]
fn screenshot_mime_is_png() {
    assert_eq!(PNG_MIME, mime::IMAGE_PNG.essence_str());
}

#[test]
fn two_step_publication_sequence() {
    let (req, pending) = first_request(PublishBackend::TwoStepUpload, PNG_STUB.to_vec(), "hello".to_string());
    match req {
        BackendRequest::UploadImage { bytes, mime_type, filename } => {
            assert_eq!(bytes.len(), 10);
            assert_eq!(mime_type, "image/png");
            assert_eq!(filename, "screenshot.png");
        }
        other => panic!("expected upload, got {:?}", other),
    }
    assert_eq!(pending.as_deref(), Some("hello"));
    let upload_resp = obj(vec![
        ("error", JsonValue::Bool(false)),
        ("url", JsonValue::Str("http://x/1.png".to_string())),
        ("type", JsonValue::Str("image/png".to_string())),
    ]);
    match after_response(PublishBackend::TwoStepUpload, pending, &upload_resp).unwrap() {
        PublishProgress::Send(BackendRequest::CreateMarkdownPost(body)) => {
            assert_eq!(body, "![Screenshot](http://x/1.png)\n\nhello")
        }
        other => panic!("expected markdown post, got {:?}", other),
    }
    let post_resp = obj(vec![("error", JsonValue::Bool(false)), ("id", JsonValue::Str("9".to_string()))]);
    match after_response(PublishBackend::TwoStepUpload, None, &post_resp).unwrap() {
        PublishProgress::Published(p) => assert_eq!(p.id, "9"),
        other => panic!("expected published, got {:?}", other),
    }
}

#[test]
fn single_step_publication_sequence() {
    let (req, pending) = first_request(PublishBackend::SingleStepRichPost, PNG_STUB.to_vec(), "cap".to_string());
    assert!(pending.is_none());
    match req {
        BackendRequest::CreateRichPost(p) => {
            assert_eq!(p.blocks.len(), 2);
            assert_eq!(p.attachment.key, "screenshot");
        }
        other => panic!("expected rich post, got {:?}", other),
    }
    let resp = obj(vec![
        ("status", JsonValue::Number(201)),
        ("data", obj(vec![("id", JsonValue::Str("77".to_string()))])),
    ]);
    match after_response(PublishBackend::SingleStepRichPost, None, &resp).unwrap() {
        PublishProgress::Published(p) => assert_eq!(p.id, "77"),
        other => panic!("expected published, got {:?}", other),
    }
    let failed = obj(vec![("error", JsonValue::Bool(true)), ("message", JsonValue::Str("no".to_string()))]);
    let e = after_response(PublishBackend::TwoStepUpload, Some("c".to_string()), &failed).unwrap_err();
    assert_eq!(e.kind, ErrorKind::Upload);
}

#[test]
fn posted_notice_says_posted() {
    let n = posted_notice();
    assert_eq!(n.body, "Posted!");
    assert_eq!(n.summary, "rusty-liveblog");
    assert_eq!(n.timeout_ms, INFO_TIMEOUT_MS);
}

#[test]
fn markdown_trailing_unicode_space_is_trimmed() {
    let html = md2html("    code\u{3000}");
    assert!(!html.ends_with(char::is_whitespace));
    assert!(html.starts_with("<pre><code>code"));
}
