use vstd::prelude::*;
use crate::config::{Config, Dpi, px_of};
use crate::decode::{decode_lossy, lossy_utf8};

verus! {

/// Terminal HTTP status of one request to the print endpoint.
#[derive(Clone, Copy, PartialEq, Eq, Structural, Debug)]
pub enum Status {
    /// The markup rendered and the preview side effect was initiated.
    Success,
    /// The collaborator rejected the markup; nothing was previewed.
    BadRequest,
    /// The preview side effect failed after a successful render.
    ServerError,
}

impl Status {
    /// The numeric code this status answers with on the wire.
    pub open spec fn code_spec(self) -> u16 {
        match self {
            Status::Success => 200,
            Status::BadRequest => 400,
            Status::ServerError => 500,
        }
    }

    /// The numeric code this status answers with on the wire.
    pub fn code(self) -> (c: u16)
        ensures
            c == self.code_spec(),
    {
        match self {
            Status::Success => 200,
            Status::BadRequest => 400,
            Status::ServerError => 500,
        }
    }
}

/// One render invocation's inputs: the decoded markup and the canvas the
/// collaborator is asked to rasterize onto. Built per inbound request and
/// discarded once the response is sent.
pub struct RenderRequest {
    /// The payload, decoded as text.
    pub markup: String,
    /// Canvas width in device pixels.
    pub width_px: u32,
    /// Canvas height in device pixels.
    pub height_px: u32,
    /// The fixed rasterization resolution.
    pub dpi: Dpi,
}

/// Builds the render request for one inbound body. Total for every byte
/// sequence: the body is decoded lossily, never rejected, and the canvas is
/// sized from the process-wide configuration.
pub fn prepare_request(config: &Config, body: &[u8]) -> (req: RenderRequest)
    ensures
        req.markup@ == lossy_utf8(body@),
        req.width_px == px_of(config.width_mils as nat, config.dpi.dots_spec() as nat),
        req.height_px == px_of(config.height_mils as nat, config.dpi.dots_spec() as nat),
        req.dpi == config.dpi,
{
    RenderRequest {
        markup: decode_lossy(body),
        width_px: config.canvas_width_px(),
        height_px: config.canvas_height_px(),
        dpi: config.dpi,
    }
}

/// Where one request stands in its handling.
#[derive(Clone, Copy, PartialEq, Eq, Structural, Debug)]
pub enum PipelineState {
    /// The collaborator has not answered yet.
    AwaitingRender,
    /// The markup rendered; the preview sink has not answered yet.
    AwaitingPreview,
    /// The one terminal status this request answers with.
    Complete(Status),
}

/// What the outside world reports back to one request's pipeline.
#[derive(Clone, Copy, PartialEq, Eq, Structural, Debug)]
pub enum PipelineEvent {
    /// The collaborator produced image bytes.
    RenderSucceeded,
    /// The collaborator rejected the markup.
    RenderRejected,
    /// The preview sink made the image visible.
    PreviewShown,
    /// The preview sink failed (write, viewer, decode or display failure).
    PreviewFailed,
}

/// What the host must do next for this request.
#[derive(Clone, Copy, PartialEq, Eq, Structural, Debug)]
pub enum PipelineAction {
    /// Hand the rendered image to the preview sink.
    InvokePreview,
    /// Answer the caller with this terminal status.
    Respond(Status),
}

/// Why the file+viewer preview sink failed. The two conditions are
/// distinct — a file that cannot be written and a viewer that cannot be
/// invoked — and both are surfaced to the caller as a server error.
#[derive(Clone, Copy, PartialEq, Eq, Structural, Debug)]
pub enum PreviewError {
    /// The image could not be written to the single-slot file.
    WriteFailed,
    /// No viewer could be invoked for the written file.
    ViewerFailed,
}

/// The pipeline event a preview attempt reports: success means the image
/// was shown; either failure condition is a preview failure.
pub fn preview_event(outcome: &Result<(), PreviewError>) -> (e: PipelineEvent)
    ensures
        e == (if outcome is Ok {
            PipelineEvent::PreviewShown
        } else {
            PipelineEvent::PreviewFailed
        }),
{
    match outcome {
        Ok(_) => PipelineEvent::PreviewShown,
        Err(_) => PipelineEvent::PreviewFailed,
    }
}

/// The pipeline's transition relation. `None` for an event that cannot
/// arise in the given state: a completed request accepts nothing further,
/// so every request carries exactly one terminal status.
pub open spec fn advance_spec(state: PipelineState, event: PipelineEvent) -> Option<
    (PipelineState, PipelineAction),
> {
    match (state, event) {
        (PipelineState::AwaitingRender, PipelineEvent::RenderSucceeded) => Some(
            (PipelineState::AwaitingPreview, PipelineAction::InvokePreview),
        ),
        (PipelineState::AwaitingRender, PipelineEvent::RenderRejected) => Some(
            (
                PipelineState::Complete(Status::BadRequest),
                PipelineAction::Respond(Status::BadRequest),
            ),
        ),
        (PipelineState::AwaitingPreview, PipelineEvent::PreviewShown) => Some(
            (PipelineState::Complete(Status::Success), PipelineAction::Respond(Status::Success)),
        ),
        (PipelineState::AwaitingPreview, PipelineEvent::PreviewFailed) => Some(
            (
                PipelineState::Complete(Status::ServerError),
                PipelineAction::Respond(Status::ServerError),
            ),
        ),
        _ => None,
    }
}

/// Advances one request's pipeline by one event, exactly as
/// `advance_spec` states.
pub fn advance(state: PipelineState, event: PipelineEvent) -> (r: (PipelineState, PipelineAction))
    requires
        advance_spec(state, event) is Some,
    ensures
        advance_spec(state, event) == Some(r),
{
    match (state, event) {
        (PipelineState::AwaitingRender, PipelineEvent::RenderSucceeded) => (
            PipelineState::AwaitingPreview,
            PipelineAction::InvokePreview,
        ),
        (PipelineState::AwaitingRender, PipelineEvent::RenderRejected) => (
            PipelineState::Complete(Status::BadRequest),
            PipelineAction::Respond(Status::BadRequest),
        ),
        (PipelineState::AwaitingPreview, PipelineEvent::PreviewShown) => (
            PipelineState::Complete(Status::Success),
            PipelineAction::Respond(Status::Success),
        ),
        (PipelineState::AwaitingPreview, PipelineEvent::PreviewFailed) => (
            PipelineState::Complete(Status::ServerError),
            PipelineAction::Respond(Status::ServerError),
        ),
        _ => vstd::pervasive::unreached(),
    }
}

/// Runs the pipeline over a sequence of events, collecting the actions it
/// demands; `None` as soon as an event does not fit the state reached.
pub open spec fn run(state: PipelineState, events: Seq<PipelineEvent>) -> Option<
    (PipelineState, Seq<PipelineAction>),
>
    decreases events.len(),
{
    if events.len() == 0 {
        Some((state, Seq::empty()))
    } else {
        match advance_spec(state, events[0]) {
            Option::None => Option::None,
            Option::Some((mid, act)) => match run(mid, events.skip(1)) {
                Option::None => Option::None,
                Option::Some((end, rest)) => Some((end, seq![act] + rest)),
            },
        }
    }
}

/// The events one request's handling produces, as a function of its own two
/// outside outcomes alone: whether the collaborator accepted the markup,
/// and — only if it did — whether the preview sink succeeded.
pub open spec fn request_trace(render_ok: bool, preview_ok: bool) -> Seq<PipelineEvent> {
    if !render_ok {
        seq![PipelineEvent::RenderRejected]
    } else if preview_ok {
        seq![PipelineEvent::RenderSucceeded, PipelineEvent::PreviewShown]
    } else {
        seq![PipelineEvent::RenderSucceeded, PipelineEvent::PreviewFailed]
    }
}

/// The terminal status owed for given outcomes: 400 when the markup is
/// rejected, 500 when the preview fails, 200 otherwise.
pub open spec fn request_outcome(render_ok: bool, preview_ok: bool) -> Status {
    if !render_ok {
        Status::BadRequest
    } else if preview_ok {
        Status::Success
    } else {
        Status::ServerError
    }
}

/// A request whose markup the collaborator accepts invokes the preview
/// exactly once, as the first demanded action, and then answers 200 when
/// the sink succeeds and 500 when it fails — in either case exactly one
/// terminal status.
pub proof fn lemma_accepted_markup_previews_once(preview_ok: bool)
    ensures
        run(PipelineState::AwaitingRender, request_trace(true, preview_ok)) matches Some(p)
            && p.0 == PipelineState::Complete(request_outcome(true, preview_ok)) && p.1 =~= seq![
            PipelineAction::InvokePreview,
            PipelineAction::Respond(request_outcome(true, preview_ok)),
        ],
{
    reveal_with_fuel(run, 4);
    assert(request_trace(true, preview_ok).skip(1).skip(1) =~= Seq::<PipelineEvent>::empty());
}

/// A request whose markup the collaborator rejects answers 400 and causes
/// no side effect: no action along its run invokes the preview.
pub proof fn lemma_rejected_markup_no_side_effect()
    ensures
        run(PipelineState::AwaitingRender, request_trace(false, false)) matches Some(p) && p.0
            == PipelineState::Complete(Status::BadRequest) && p.1 =~= seq![
            PipelineAction::Respond(Status::BadRequest),
        ] && (forall|i: int|
            0 <= i < p.1.len() ==> p.1[i] != PipelineAction::InvokePreview),
{
    reveal_with_fuel(run, 3);
    assert(request_trace(false, false).skip(1) =~= Seq::<PipelineEvent>::empty());
}

/// Every request runs to completion and its terminal status is a function
/// of its own render and preview outcomes alone — another request's
/// outcomes do not enter it. The last demanded action answers with that
/// status, and no earlier action answers at all.
pub proof fn lemma_terminal_status(render_ok: bool, preview_ok: bool)
    ensures
        run(PipelineState::AwaitingRender, request_trace(render_ok, preview_ok)) matches Some(p)
            && p.0 == PipelineState::Complete(request_outcome(render_ok, preview_ok))
            && p.1.len() > 0 && p.1.last() == PipelineAction::Respond(
            request_outcome(render_ok, preview_ok),
        ) && (forall|i: int|
            0 <= i < p.1.len() - 1 ==> !(#[trigger] p.1[i] matches PipelineAction::Respond(_))),
{
    if render_ok {
        lemma_accepted_markup_previews_once(preview_ok);
    } else {
        lemma_rejected_markup_no_side_effect();
    }
}

/// A completed request accepts no further event: the pipeline cannot be
/// driven past its one terminal status.
pub proof fn lemma_complete_is_terminal(status: Status, event: PipelineEvent)
    ensures
        advance_spec(PipelineState::Complete(status), event) is None,
{
}

} // verus!
