use xrloop::frame_loop::{FrameLoop, LoopState};

#[test]
fn loop_rearms_each_frame() {
    let mut frame_loop = FrameLoop::new();
    assert_eq!(frame_loop.state(), LoopState::Idle);
    assert!(frame_loop.arm());
    for _ in 0..3 {
        assert_eq!(frame_loop.state(), LoopState::Armed);
        frame_loop.begin_frame();
        assert_eq!(frame_loop.state(), LoopState::Running);
        assert!(frame_loop.finish_frame(true));
    }
    assert_eq!(frame_loop.state(), LoopState::Armed);
}

#[test]
fn skipping_rearm_ends_the_loop() {
    let mut frame_loop = FrameLoop::new();
    frame_loop.arm();
    frame_loop.begin_frame();
    let issued = frame_loop.finish_frame(false);
    assert!(!issued);
    assert_eq!(frame_loop.state(), LoopState::Ended);
}

#[test]
fn session_end_mid_frame_blocks_rearm() {
    // The session ends while a callback runs: the callback finishes its
    // work, but its request to continue is refused.
    let mut frame_loop = FrameLoop::new();
    frame_loop.arm();
    frame_loop.begin_frame();
    frame_loop.notify_session_ended();
    assert_eq!(frame_loop.state(), LoopState::Running);
    let issued = frame_loop.finish_frame(true);
    assert!(!issued);
    assert_eq!(frame_loop.state(), LoopState::Ended);
}

#[test]
fn session_end_before_arming() {
    let mut frame_loop = FrameLoop::new();
    frame_loop.notify_session_ended();
    assert_eq!(frame_loop.state(), LoopState::Ended);
    assert!(!frame_loop.session_live());
}
