use xrloop::frame_loop::{FrameLoop, LoopState};
use xrloop::session::{build_layer, GraphicsContext, Session, SessionMode, XrError};
use xrloop::setup::{HostReply, SetupAction, SetupMachine, SetupPhase};

#[test]
fn scenario_unsupported_mode() {
    // Support query answers false: no session request may be ordered.
    let mut m = SetupMachine::new(SessionMode::ImmersiveVr);
    assert_eq!(m.begin(), SetupAction::QuerySupport(SessionMode::ImmersiveVr));
    let a = m.on_reply(HostReply::SupportKnown(false));
    assert_eq!(a, SetupAction::Wait);
    assert_eq!(m.error(), Some(XrError::UnsupportedMode));
    assert!(!m.is_complete());
    // A stray grant afterwards moves nothing and orders nothing.
    assert_eq!(m.on_reply(HostReply::SessionGranted), SetupAction::Wait);
    assert_eq!(m.error(), Some(XrError::UnsupportedMode));
}

#[test]
fn scenario_session_denied() {
    // Support is there but the host refuses the session: setup ends with
    // SessionDenied and never orders a context or a layer.
    let mut m = SetupMachine::new(SessionMode::ImmersiveVr);
    m.begin();
    assert_eq!(
        m.on_reply(HostReply::SupportKnown(true)),
        SetupAction::RequestSession(SessionMode::ImmersiveVr)
    );
    assert_eq!(m.on_reply(HostReply::SessionDenied), SetupAction::Wait);
    assert_eq!(m.error(), Some(XrError::SessionDenied));
    assert_eq!(m.on_reply(HostReply::ContextCreated), SetupAction::Wait);
    assert_eq!(m.on_reply(HostReply::CompatOk), SetupAction::Wait);
}

#[test]
fn scenario_happy_path() {
    // Full setup, then the loop enters Armed, Running on the first host
    // tick, and re-arms to Armed on completion.
    let mut m = SetupMachine::new(SessionMode::ImmersiveVr);
    m.begin();
    assert_eq!(
        m.on_reply(HostReply::SupportKnown(true)),
        SetupAction::RequestSession(SessionMode::ImmersiveVr)
    );
    assert_eq!(m.on_reply(HostReply::SessionGranted), SetupAction::CreateContext);
    let mut session = Session::new(SessionMode::ImmersiveVr);
    assert_eq!(m.on_reply(HostReply::ContextCreated), SetupAction::MakeXrCompatible);
    let mut context = GraphicsContext::new(false);
    context.mark_xr_compatible();
    assert_eq!(m.on_reply(HostReply::CompatOk), SetupAction::BuildLayer);
    let layer = build_layer(&session, &context, 1, 1024, 512).unwrap();
    assert_eq!(m.on_reply(HostReply::LayerBuilt), SetupAction::InstallAndArm);
    assert!(m.is_complete());
    assert_eq!(m.phase, SetupPhase::Complete);

    session.install_render_state(&layer, None, None);
    assert_eq!(session.base_layer(), Some(1));

    let mut frame_loop = FrameLoop::new();
    assert!(frame_loop.arm());
    assert_eq!(frame_loop.state(), LoopState::Armed);
    frame_loop.begin_frame();
    assert_eq!(frame_loop.state(), LoopState::Running);
    assert!(frame_loop.finish_frame(true));
    assert_eq!(frame_loop.state(), LoopState::Armed);
}

#[test]
fn scenario_compat_failure_tears_down() {
    // The XR-compatibility upgrade fails: the machine orders the session
    // torn down at once and never orders a layer build afterwards.
    let mut m = SetupMachine::new(SessionMode::ImmersiveVr);
    m.begin();
    m.on_reply(HostReply::SupportKnown(true));
    m.on_reply(HostReply::SessionGranted);
    m.on_reply(HostReply::ContextCreated);
    let a = m.on_reply(HostReply::CompatFailed);
    assert_eq!(a, SetupAction::EndSession);
    assert_eq!(m.error(), Some(XrError::IncompatibleContext));
    let mut session = Session::new(SessionMode::ImmersiveVr);
    session.end();
    assert!(!session.is_active());
    // No later reply can make the failed machine order a layer build.
    assert_eq!(m.on_reply(HostReply::CompatOk), SetupAction::Wait);
    assert_eq!(m.on_reply(HostReply::LayerBuilt), SetupAction::Wait);
}

#[test]
fn scenario_session_ends_while_armed() {
    // The session ends externally while the loop is Armed: the loop closes
    // down to Ended and stays there.
    let mut frame_loop = FrameLoop::new();
    frame_loop.arm();
    assert_eq!(frame_loop.state(), LoopState::Armed);
    frame_loop.notify_session_ended();
    assert_eq!(frame_loop.state(), LoopState::Ended);
    assert!(!frame_loop.session_live());
    // Sticky: a second end notification changes nothing.
    frame_loop.notify_session_ended();
    assert_eq!(frame_loop.state(), LoopState::Ended);
}
