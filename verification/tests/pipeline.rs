use zebra_emu::config::Config;
use zebra_emu::pipeline::{
    PipelineAction, PipelineEvent, PipelineState, PreviewError, Status, advance, prepare_request,
    preview_event,
};

#[test]
fn status_codes() {
    assert_eq!(Status::Success.code(), 200);
    assert_eq!(Status::BadRequest.code(), 400);
    assert_eq!(Status::ServerError.code(), 500);
}

#[test]
fn accepted_markup_then_shown_answers_200() {
    let (s1, a1) = advance(PipelineState::AwaitingRender, PipelineEvent::RenderSucceeded);
    assert_eq!(s1, PipelineState::AwaitingPreview);
    assert_eq!(a1, PipelineAction::InvokePreview);
    let (s2, a2) = advance(s1, PipelineEvent::PreviewShown);
    assert_eq!(s2, PipelineState::Complete(Status::Success));
    assert_eq!(a2, PipelineAction::Respond(Status::Success));
}

#[test]
fn rejected_markup_answers_400_without_preview() {
    let (s, a) = advance(PipelineState::AwaitingRender, PipelineEvent::RenderRejected);
    assert_eq!(s, PipelineState::Complete(Status::BadRequest));
    assert_eq!(a, PipelineAction::Respond(Status::BadRequest));
    assert_ne!(a, PipelineAction::InvokePreview);
}

#[test]
fn failed_preview_answers_500() {
    let (s1, a1) = advance(PipelineState::AwaitingRender, PipelineEvent::RenderSucceeded);
    assert_eq!(a1, PipelineAction::InvokePreview);
    let (s2, a2) = advance(s1, PipelineEvent::PreviewFailed);
    assert_eq!(s2, PipelineState::Complete(Status::ServerError));
    assert_eq!(a2, PipelineAction::Respond(Status::ServerError));
}

#[test]
fn shown_preview_reports_success_event() {
    assert_eq!(preview_event(&Ok(())), PipelineEvent::PreviewShown);
}

#[test]
fn either_sink_failure_reports_a_preview_failure() {
    assert_eq!(
        preview_event(&Err(PreviewError::WriteFailed)),
        PipelineEvent::PreviewFailed
    );
    assert_eq!(
        preview_event(&Err(PreviewError::ViewerFailed)),
        PipelineEvent::PreviewFailed
    );
}

#[test]
fn write_failure_ends_in_500() {
    let (state, _) = advance(PipelineState::AwaitingRender, PipelineEvent::RenderSucceeded);
    let event = preview_event(&Err(PreviewError::WriteFailed));
    let (end, action) = advance(state, event);
    assert_eq!(end, PipelineState::Complete(Status::ServerError));
    assert_eq!(action, PipelineAction::Respond(Status::ServerError));
}

fn test_config() -> Config {
    Config::new(2250, 1250, 8080, String::from("127.0.0.1")).unwrap()
}

#[test]
fn request_carries_decoded_markup_and_canvas() {
    let config = test_config();
    let body = b"^XA^FO50,50^A0N,30,30^FDHello!^FS^XZ";
    let req = prepare_request(&config, body);
    assert_eq!(req.markup, "^XA^FO50,50^A0N,30,30^FDHello!^FS^XZ");
    assert_eq!(req.width_px, 457);
    assert_eq!(req.height_px, 254);
}

#[test]
fn invalid_bytes_are_replaced_not_rejected() {
    let config = test_config();
    let body: &[u8] = &[0xff, 0xfe];
    let req = prepare_request(&config, body);
    assert_eq!(req.markup, "\u{fffd}\u{fffd}");
}

#[test]
fn invalid_bytes_inside_markup_are_replaced_in_place() {
    let config = test_config();
    let body: &[u8] = b"^XA\xFF^XZ";
    let req = prepare_request(&config, body);
    assert_eq!(req.markup, "^XA\u{fffd}^XZ");
}

#[test]
fn empty_body_decodes_to_empty_markup() {
    let config = test_config();
    let req = prepare_request(&config, &[]);
    assert_eq!(req.markup, "");
}
