use blured::ipc::{accept_step, AcceptAction, AcceptOutcome, ACCEPT_RETRY_MS};
use blured::ipc::{
    encode_frame, frame_payload, handle_action, not_initialized_message, Action, ErrResponse,
    OkResponse, Status,
};
use blured::renderer::Renderer;
use blured::slideshow::SlideShowData;

fn setup() -> (Renderer, SlideShowData) {
    let mut r = Renderer::new();
    r.init(vec!["a".to_string(), "b".to_string()]);
    (r, SlideShowData::default())
}

#[test]
fn jump_to_scene() {
    let (mut r, mut s) = setup();
    let (st, reset) = handle_action(&mut r, &mut s, Action::JumpToScene("b".to_string()));
    assert_eq!(st, Status::Success(OkResponse::SwitchedScene("b".to_string())));
    assert!(reset);
    let (st, reset) = handle_action(&mut r, &mut s, Action::JumpToScene("q".to_string()));
    assert_eq!(st, Status::Failure(ErrResponse::NoSuchScene("q".to_string())));
    assert!(!reset);
}

#[test]
fn next_scene_answers_its_name() {
    let (mut r, mut s) = setup();
    let (st, reset) = handle_action(&mut r, &mut s, Action::NextScene);
    assert_eq!(st, Status::Success(OkResponse::SwitchedScene("b".to_string())));
    assert!(reset);
    let (st, _) = handle_action(&mut r, &mut s, Action::NextScene);
    assert_eq!(st, Status::Success(OkResponse::SwitchedScene("a".to_string())));
}

#[test]
fn effect_requests() {
    let (mut r, mut s) = setup();
    let (st, _) = handle_action(&mut r, &mut s, Action::SetEffectOn(true));
    assert_eq!(st, Status::Success(OkResponse::SetEffectOn(true)));
    let (st, _) = handle_action(&mut r, &mut s, Action::ToggleEffect);
    assert_eq!(st, Status::Success(OkResponse::SetEffectOn(false)));
}

#[test]
fn slideshow_request() {
    let (mut r, mut s) = setup();
    let (st, reset) = handle_action(&mut r, &mut s, Action::SetSlideshowOn(true));
    assert_eq!(st, Status::Success(OkResponse::Done));
    assert!(!reset);
    assert!(s.active);
}

#[test]
fn requests_before_setup_fail() {
    let mut r = Renderer::new();
    let mut s = SlideShowData::default();
    let msg = "Renderer was not initialized".to_string();
    assert_eq!(not_initialized_message(), msg);
    let (st, _) = handle_action(&mut r, &mut s, Action::NextScene);
    assert_eq!(st, Status::Failure(ErrResponse::Error(msg.clone())));
    let (st, _) = handle_action(&mut r, &mut s, Action::ToggleEffect);
    assert_eq!(st, Status::Failure(ErrResponse::Error(msg.clone())));
    let (st, _) = handle_action(&mut r, &mut s, Action::SetEffectOn(false));
    assert_eq!(st, Status::Failure(ErrResponse::Error(msg)));
    let (st, _) = handle_action(&mut r, &mut s, Action::JumpToScene("a".to_string()));
    assert_eq!(st, Status::Failure(ErrResponse::NoSuchScene("a".to_string())));
}

#[test]
fn frames() {
    assert_eq!(frame_payload(b""), None);
    assert_eq!(frame_payload(b"{}\0"), Some(b"{}".to_vec()));
    assert_eq!(frame_payload(b"abc"), Some(b"ab".to_vec()));
    assert_eq!(encode_frame(b"ok"), b"ok\0".to_vec());
    let m = b"{\"x\":1}";
    assert_eq!(frame_payload(&encode_frame(m)), Some(m.to_vec()));
}

#[test]
fn listener_steps() {
    assert_eq!(accept_step(AcceptOutcome::Accepted, true), AcceptAction::Spawn);
    assert_eq!(accept_step(AcceptOutcome::WouldBlock, true), AcceptAction::Stop);
    assert_eq!(accept_step(AcceptOutcome::WouldBlock, false), AcceptAction::Sleep);
    assert_eq!(accept_step(AcceptOutcome::Failed, true), AcceptAction::LogAndRetry);
    assert_eq!(ACCEPT_RETRY_MS, 30);
}
