//! The control socket: how requests and replies are framed on the stream, and
//! what each request does to the renderer and the slideshow and is answered.
use vstd::prelude::*;
use crate::renderer::{
    lemma_first_index,
    spec_next_scene, spec_set_effect_on, spec_switch_scene, spec_toggle_effect, Renderer,
    RendererError,
};
use crate::slideshow::SlideShowData;

verus! {

/// A request sent over the control socket.
#[derive(Debug, Clone, PartialEq, Eq)]
pub enum Action {
    /// Show the scene with this name.
    JumpToScene(String),
    /// Show the next scene.
    NextScene,
    /// Turn the effect on or off.
    SetEffectOn(bool),
    /// Turn the effect over.
    ToggleEffect,
    /// Turn the slideshow on or off.
    SetSlideshowOn(bool),
}

/// The answer to a request that succeeded.
#[derive(Debug, Clone, PartialEq, Eq)]
pub enum OkResponse {
    /// The scene with this name is shown now.
    SwitchedScene(String),
    /// The effect is on (or off) now.
    SetEffectOn(bool),
    /// Done (`Ok` on the wire).
    Done,
}

/// The answer to a request that failed.
#[derive(Debug, Clone, PartialEq, Eq)]
pub enum ErrResponse {
    /// No scene bears this name.
    NoSuchScene(String),
    /// Any other failure, with its message.
    Error(String),
}

/// The answer to a request.
#[derive(Debug, Clone, PartialEq, Eq)]
pub enum Status {
    /// The request succeeded (`Ok` on the wire).
    Success(OkResponse),
    /// The request failed (`Err` on the wire).
    Failure(ErrResponse),
}

/// The message of a request that reached a renderer that is not set up.
pub fn not_initialized_message() -> (r: String)
    ensures
        r@ == "Renderer was not initialized"@,
{
    "Renderer was not initialized".to_owned()
}

/// The message of a renderer error other than a missing scene.
pub open spec fn is_not_initialized_error(s: Status) -> bool {
    s matches Status::Failure(ErrResponse::Error(m)) && m@ == "Renderer was not initialized"@
}

/// What a request does and is answered; `reset` is whether the slideshow timer
/// starts anew.
pub open spec fn spec_handle_action(
    action: Action,
    renderer_before: Renderer,
    renderer_after: Renderer,
    slideshow_before: SlideShowData,
    slideshow_after: SlideShowData,
    status: Status,
    reset: bool,
) -> bool {
    match action {
        Action::JumpToScene(scene) => {
            &&& slideshow_after == slideshow_before
            &&& exists|r: Result<(), RendererError>|
                spec_switch_scene(renderer_before, renderer_after, scene@, r) && (if r is Ok {
                    status == Status::Success(OkResponse::SwitchedScene(scene)) && reset
                } else {
                    status == Status::Failure(ErrResponse::NoSuchScene(scene)) && !reset
                })
        },
        Action::NextScene => {
            &&& slideshow_after == slideshow_before
            &&& exists|r: Result<String, RendererError>|
                spec_next_scene(renderer_before, renderer_after, r) && (match r {
                    Ok(name) => status == Status::Success(OkResponse::SwitchedScene(name)) && reset,
                    Err(_) => is_not_initialized_error(status) && !reset,
                })
        },
        Action::SetEffectOn(on) => {
            &&& slideshow_after == slideshow_before
            &&& !reset
            &&& exists|r: Result<(), RendererError>|
                spec_set_effect_on(renderer_before, renderer_after, on, r) && (if r is Ok {
                    status == Status::Success(OkResponse::SetEffectOn(on))
                } else {
                    is_not_initialized_error(status)
                })
        },
        Action::ToggleEffect => {
            &&& slideshow_after == slideshow_before
            &&& !reset
            &&& exists|r: Result<bool, RendererError>|
                spec_toggle_effect(renderer_before, renderer_after, r) && (match r {
                    Ok(on) => status == Status::Success(OkResponse::SetEffectOn(on)),
                    Err(_) => is_not_initialized_error(status),
                })
        },
        Action::SetSlideshowOn(on) => {
            &&& renderer_after == renderer_before
            &&& slideshow_after == SlideShowData { active: on, ..slideshow_before }
            &&& status == Status::Success(OkResponse::Done)
            &&& !reset
        },
    }
}

/// Carries out one request of a control client and returns the answer, and
/// whether the slideshow timer starts anew (after a successful scene switch).
pub fn handle_action(
    renderer: &mut Renderer,
    slideshow: &mut SlideShowData,
    action: Action,
) -> (r: (Status, bool))
    requires
        action is NextScene ==> (old(renderer).inner() matches Some(ri) ==> ri.idents().len() > 0),
    ensures
        spec_handle_action(
            action,
            *old(renderer),
            *final(renderer),
            *old(slideshow),
            *final(slideshow),
            r.0,
            r.1,
        ),
        action matches Action::SetSlideshowOn(on) ==> final(slideshow).active == on
            && final(slideshow).interval_secs == old(slideshow).interval_secs,
{
    match action {
        Action::JumpToScene(scene) => {
            let res = renderer.switch_scene(scene.as_str());
            match res {
                Ok(_) => (Status::Success(OkResponse::SwitchedScene(scene)), true),
                Err(_) => (Status::Failure(ErrResponse::NoSuchScene(scene)), false),
            }
        },
        Action::NextScene => {
            let res = renderer.next_scene();
            match res {
                Ok(name) => (Status::Success(OkResponse::SwitchedScene(name)), true),
                Err(_) => (Status::Failure(ErrResponse::Error(not_initialized_message())), false),
            }
        },
        Action::SetEffectOn(on) => {
            let res = renderer.set_effect_on(on);
            match res {
                Ok(_) => (Status::Success(OkResponse::SetEffectOn(on)), false),
                Err(_) => (Status::Failure(ErrResponse::Error(not_initialized_message())), false),
            }
        },
        Action::ToggleEffect => {
            let res = renderer.toggle_effect();
            match res {
                Ok(on) => (Status::Success(OkResponse::SetEffectOn(on)), false),
                Err(_) => (Status::Failure(ErrResponse::Error(not_initialized_message())), false),
            }
        },
        Action::SetSlideshowOn(on) => {
            slideshow.set_active(on);
            (Status::Success(OkResponse::Done), false)
        },
    }
}

/// What accepting a client on the listening socket gave.
#[derive(Debug, Clone, Copy, PartialEq, Eq, Structural)]
pub enum AcceptOutcome {
    /// A client connected.
    Accepted,
    /// No client is waiting.
    WouldBlock,
    /// Accepting failed for another reason.
    Failed,
}

/// What the listener does next.
#[derive(Debug, Clone, Copy, PartialEq, Eq, Structural)]
pub enum AcceptAction {
    /// Serve the new client on a thread of its own, and accept again.
    Spawn,
    /// Stop listening: the server shuts down.
    Stop,
    /// Sleep for `ACCEPT_RETRY_MS` milliseconds, then accept again.
    Sleep,
    /// Log the failure and accept again.
    LogAndRetry,
}

/// How long the listener sleeps when no client is waiting, in milliseconds.
pub const ACCEPT_RETRY_MS: u64 = 30;

/// One step of the listener: a connected client is served; when no client
/// is waiting the listener stops if shut-down was asked for and sleeps
/// otherwise; any other failure is logged and accepting goes on.
pub fn accept_step(outcome: AcceptOutcome, shutdown: bool) -> (a: AcceptAction)
    ensures
        a == match outcome {
            AcceptOutcome::Accepted => AcceptAction::Spawn,
            AcceptOutcome::WouldBlock => if shutdown {
                AcceptAction::Stop
            } else {
                AcceptAction::Sleep
            },
            AcceptOutcome::Failed => AcceptAction::LogAndRetry,
        },
{
    match outcome {
        AcceptOutcome::Accepted => AcceptAction::Spawn,
        AcceptOutcome::WouldBlock => {
            if shutdown {
                AcceptAction::Stop
            } else {
                AcceptAction::Sleep
            }
        },
        AcceptOutcome::Failed => AcceptAction::LogAndRetry,
    }
}

/// The payload of a message as read from the stream up to and including its
/// terminating NUL byte: everything but the last byte read. `None` when nothing
/// was read, which means the client closed the connection.
pub open spec fn spec_frame_payload(read: Seq<u8>) -> Option<Seq<u8>> {
    if read.len() == 0 {
        None
    } else {
        Some(read.take(read.len() - 1))
    }
}

/// The bytes that carry a payload on the stream: the payload and a NUL byte.
pub open spec fn spec_encode_frame(payload: Seq<u8>) -> Seq<u8> {
    payload.push(0u8)
}

/// The payload of a message read from the stream (see `spec_frame_payload`).
pub fn frame_payload(read: &[u8]) -> (r: Option<Vec<u8>>)
    ensures
        match spec_frame_payload(read@) {
            Some(p) => r is Some && r->0@ == p,
            None => r is None,
        },
{
    let n = read.len();
    if n == 0 {
        return None;
    }
    let mut out: Vec<u8> = Vec::new();
    let mut i: usize = 0;
    while i < n - 1
        invariant
            n == read@.len(),
            n > 0,
            i <= n - 1,
            out@ == read@.take(i as int),
        decreases n - 1 - i,
    {
        out.push(read[i]);
        assert(read@.take(i + 1) =~= read@.take(i as int).push(read@[i as int]));
        i = i + 1;
    }
    Some(out)
}

/// The bytes that carry `payload` on the stream: the payload and a NUL byte.
pub fn encode_frame(payload: &[u8]) -> (r: Vec<u8>)
    ensures
        r@ == spec_encode_frame(payload@),
{
    let n = payload.len();
    let mut out: Vec<u8> = Vec::new();
    let mut i: usize = 0;
    while i < n
        invariant
            n == payload@.len(),
            i <= n,
            out@ == payload@.take(i as int),
        decreases n - i,
    {
        out.push(payload[i]);
        assert(payload@.take(i + 1) =~= payload@.take(i as int).push(payload@[i as int]));
        i = i + 1;
    }
    out.push(0u8);
    assert(payload@.take(n as int) =~= payload@);
    out
}

/// Asking for the slideshow to be on (or off) leaves it on (or off), whatever
/// it was before, keeps its interval and the renderer, is answered `Done`, and
/// does not start the slideshow timer anew.
pub proof fn law_slideshow_request_sets(
    on: bool,
    renderer_before: Renderer,
    renderer_after: Renderer,
    slideshow_before: SlideShowData,
    slideshow_after: SlideShowData,
    status: Status,
    reset: bool,
)
    requires
        spec_handle_action(
            Action::SetSlideshowOn(on),
            renderer_before,
            renderer_after,
            slideshow_before,
            slideshow_after,
            status,
            reset,
        ),
    ensures
        slideshow_after.active == on,
        slideshow_after.interval_secs == slideshow_before.interval_secs,
        renderer_after == renderer_before,
        status == Status::Success(OkResponse::Done),
        !reset,
{
}

/// Asking a set-up renderer for a scene by name shows a scene of that name,
/// answers with the name and starts the slideshow timer anew when one bears it;
/// otherwise it answers that no scene bears it and changes nothing. The
/// slideshow settings stay either way.
pub proof fn law_jump_request(
    scene: String,
    renderer_before: Renderer,
    renderer_after: Renderer,
    slideshow_before: SlideShowData,
    slideshow_after: SlideShowData,
    status: Status,
    reset: bool,
)
    requires
        renderer_before.inner() is Some,
        spec_handle_action(
            Action::JumpToScene(scene),
            renderer_before,
            renderer_after,
            slideshow_before,
            slideshow_after,
            status,
            reset,
        ),
    ensures
        slideshow_after == slideshow_before,
        (exists|i: int|
            0 <= i < renderer_before.inner()->0.idents().len()
                && #[trigger] renderer_before.inner()->0.idents()[i]@ == scene@) ==> {
            &&& status == Status::Success(OkResponse::SwitchedScene(scene))
            &&& reset
            &&& renderer_after.inner() matches Some(fi)
            &&& fi.index() < fi.idents().len()
            &&& fi.idents()[fi.index() as int]@ == scene@
            &&& fi.idents() == renderer_before.inner()->0.idents()
        },
        (forall|i: int|
            0 <= i < renderer_before.inner()->0.idents().len()
                ==> #[trigger] renderer_before.inner()->0.idents()[i]@ != scene@) ==> {
            &&& status == Status::Failure(ErrResponse::NoSuchScene(scene))
            &&& !reset
            &&& renderer_after.inner() == renderer_before.inner()
            &&& renderer_after.out_of_date() == renderer_before.out_of_date()
        },
{
    lemma_first_index(renderer_before.inner()->0.idents(), scene@);
}

/// Asking a set-up renderer for the effect to be on (or off) leaves it on (or
/// off), whatever it was before, and is answered with that state.
pub proof fn law_effect_request_sets(
    on: bool,
    renderer_before: Renderer,
    renderer_after: Renderer,
    slideshow_before: SlideShowData,
    slideshow_after: SlideShowData,
    status: Status,
    reset: bool,
)
    requires
        renderer_before.inner() is Some,
        spec_handle_action(
            Action::SetEffectOn(on),
            renderer_before,
            renderer_after,
            slideshow_before,
            slideshow_after,
            status,
            reset,
        ),
    ensures
        renderer_after.inner() matches Some(fi) && fi.effect_on() == on,
        status == Status::Success(OkResponse::SetEffectOn(on)),
        slideshow_after == slideshow_before,
        !reset,
{
}

/// A message framed for the stream and read back is the message sent.
pub proof fn law_frame_roundtrip(payload: Seq<u8>)
    ensures
        spec_frame_payload(spec_encode_frame(payload)) == Some(payload),
{
    assert(spec_encode_frame(payload).take(payload.len() as int) =~= payload);
}

} // verus!
