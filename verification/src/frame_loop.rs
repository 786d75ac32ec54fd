//! The frame loop: a cooperative, self-re-arming callback driven by the
//! host's presentation clock.
//!
//! The loop is a state machine over `Idle -> Armed -> Running -> {Armed,
//! Ended}`. `Armed` means exactly one frame request is outstanding with the
//! host; `Running` means the callback for a delivered frame is executing;
//! `Ended` is terminal. The executable [`FrameLoop`] carries a ghost
//! [`LoopModel`] that also counts requests and callback entries/exits, so
//! the laws below — callbacks never overlap, at most one request is ever
//! outstanding, `Ended` is sticky and requests nothing further — speak about
//! every history the loop can go through.

use vstd::prelude::*;

verus! {

/// The loop's control state.
#[derive(Clone, Copy, Debug, PartialEq, Eq, Structural)]
pub enum LoopState {
    /// No frame requested yet.
    Idle,
    /// Exactly one frame request is pending with the host.
    Armed,
    /// The callback for a delivered frame is currently executing.
    Running,
    /// Terminal: no further frame is ever requested.
    Ended,
}

/// One observable event in the loop's history.
#[derive(Clone, Copy, Debug, PartialEq, Eq, Structural)]
pub enum LoopEvent {
    /// The application registers the first frame request.
    Arm,
    /// The host delivers a frame: the callback begins.
    Tick,
    /// The callback returns; `rearm` says whether it asked to continue.
    Finish { rearm: bool },
    /// The host (or the application) ended the session.
    SessionEnded,
}

/// The loop's full history model: control state, session liveness, and
/// counters over the whole history.
pub struct LoopModel {
    pub state: LoopState,
    /// Whether the session the loop serves is still alive.
    pub session_live: bool,
    /// Frame requests ever issued to the host.
    pub requests_issued: nat,
    /// Frame requests issued and not yet answered or discarded.
    pub pending_requests: nat,
    /// Callback invocations ever begun.
    pub frames_begun: nat,
    /// Callback invocations that have returned.
    pub frames_completed: nat,
}

/// The model before anything happened: idle over a live session.
pub open spec fn init_model() -> LoopModel {
    LoopModel {
        state: LoopState::Idle,
        session_live: true,
        requests_issued: 0,
        pending_requests: 0,
        frames_begun: 0,
        frames_completed: 0,
    }
}

/// The transition relation of the loop, as a total function: an event that
/// cannot occur in the current state leaves the model unchanged.
///
/// A `Tick` never reaches a loop whose session has ended: the host discards
/// the pending request instead, which `SessionEnded` models by zeroing
/// `pending_requests` and closing an `Armed` loop down to `Ended`. A loop
/// whose callback is mid-flight when the session ends finishes that callback
/// (best effort) and then refuses to re-arm.
pub open spec fn loop_step(m: LoopModel, e: LoopEvent) -> LoopModel {
    match e {
        LoopEvent::Arm => if m.state is Idle {
            if m.session_live {
                LoopModel {
                    state: LoopState::Armed,
                    requests_issued: m.requests_issued + 1,
                    pending_requests: 1,
                    ..m
                }
            } else {
                LoopModel { state: LoopState::Ended, ..m }
            }
        } else {
            m
        },
        LoopEvent::Tick => if m.state is Armed {
            LoopModel {
                state: LoopState::Running,
                frames_begun: m.frames_begun + 1,
                pending_requests: 0,
                ..m
            }
        } else {
            m
        },
        LoopEvent::Finish { rearm } => if m.state is Running {
            if rearm && m.session_live {
                LoopModel {
                    state: LoopState::Armed,
                    frames_completed: m.frames_completed + 1,
                    requests_issued: m.requests_issued + 1,
                    pending_requests: 1,
                    ..m
                }
            } else {
                LoopModel {
                    state: LoopState::Ended,
                    frames_completed: m.frames_completed + 1,
                    ..m
                }
            }
        } else {
            m
        },
        LoopEvent::SessionEnded => LoopModel {
            state: if m.state is Running {
                LoopState::Running
            } else {
                LoopState::Ended
            },
            session_live: false,
            pending_requests: 0,
            ..m
        },
    }
}

/// The model after a whole sequence of events.
pub open spec fn loop_run(m: LoopModel, events: Seq<LoopEvent>) -> LoopModel
    decreases events.len(),
{
    if events.len() == 0 {
        m
    } else {
        loop_run(loop_step(m, events[0]), events.drop_first())
    }
}

/// Well-formedness of a loop history: at most one callback is ever
/// mid-flight and it is exactly the `Running` one; at most one request is
/// ever outstanding and it is exactly the `Armed` one; and a loop that still
/// waits (idle or armed) serves a live session.
pub open spec fn loop_wf(m: LoopModel) -> bool {
    &&& m.frames_completed <= m.frames_begun
    &&& m.frames_begun <= m.frames_completed + 1
    &&& (m.state is Running <==> m.frames_begun == m.frames_completed + 1)
    &&& m.pending_requests == (if m.state is Armed { 1nat } else { 0nat })
    &&& ((m.state is Idle || m.state is Armed) ==> m.session_live)
}

/// Every single transition preserves well-formedness.
pub proof fn lemma_step_preserves_wf(m: LoopModel, e: LoopEvent)
    requires
        loop_wf(m),
    ensures
        loop_wf(loop_step(m, e)),
{
}

/// Every history reachable from a well-formed model stays well-formed.
pub proof fn lemma_run_preserves_wf(m: LoopModel, events: Seq<LoopEvent>)
    requires
        loop_wf(m),
    ensures
        loop_wf(loop_run(m, events)),
    decreases events.len(),
{
    if events.len() > 0 {
        lemma_step_preserves_wf(m, events[0]);
        lemma_run_preserves_wf(loop_step(m, events[0]), events.drop_first());
    }
}

/// Law: in every reachable history, callbacks are strictly sequential — at
/// most one is mid-flight, a frame is delivered only once every earlier
/// callback has returned, and at most one frame request is outstanding.
pub proof fn lemma_callbacks_sequential(events: Seq<LoopEvent>)
    ensures
        loop_wf(loop_run(init_model(), events)),
        loop_run(init_model(), events).frames_begun
            <= loop_run(init_model(), events).frames_completed + 1,
        loop_step(loop_run(init_model(), events), LoopEvent::Tick).frames_begun
            > loop_run(init_model(), events).frames_begun
            ==> loop_run(init_model(), events).frames_begun
                == loop_run(init_model(), events).frames_completed,
        loop_run(init_model(), events).pending_requests <= 1,
{
    lemma_run_preserves_wf(init_model(), events);
}

/// Law: `Ended` is sticky — from an ended loop, no sequence of further
/// events changes the state or issues another frame request.
pub proof fn lemma_ended_sticky(m: LoopModel, events: Seq<LoopEvent>)
    requires
        m.state is Ended,
    ensures
        loop_run(m, events).state is Ended,
        loop_run(m, events).requests_issued == m.requests_issued,
    decreases events.len(),
{
    if events.len() > 0 {
        lemma_ended_sticky(loop_step(m, events[0]), events.drop_first());
    }
}

/// The frame loop as the application drives it. The ghost `history` is the
/// loop's model; the executable fields mirror its state and liveness.
pub struct FrameLoop {
    state: LoopState,
    session_live: bool,
    history: Ghost<LoopModel>,
}

impl View for FrameLoop {
    type V = LoopModel;

    closed spec fn view(&self) -> LoopModel {
        self.history@
    }
}

impl FrameLoop {
    /// The executable fields agree with the model, and the model is
    /// well-formed. Every method keeps this.
    pub closed spec fn inv(&self) -> bool {
        &&& self.history@.state == self.state
        &&& self.history@.session_live == self.session_live
        &&& loop_wf(self.history@)
    }

    pub fn new() -> (l: FrameLoop)
        ensures
            l.inv(),
            l@ == init_model(),
    {
        FrameLoop {
            state: LoopState::Idle,
            session_live: true,
            history: Ghost(init_model()),
        }
    }

    pub fn state(&self) -> (s: LoopState)
        requires
            self.inv(),
        ensures
            s == self@.state,
    {
        self.state
    }

    pub fn session_live(&self) -> (b: bool)
        requires
            self.inv(),
        ensures
            b == self@.session_live,
    {
        self.session_live
    }

    /// Register the first frame request. Returns whether the driver must now
    /// issue a frame request to the host (always, from a well-formed idle
    /// loop: an idle loop serves a live session).
    pub fn arm(&mut self) -> (issue: bool)
        requires
            old(self).inv(),
            old(self)@.state is Idle,
        ensures
            final(self).inv(),
            final(self)@ == loop_step(old(self)@, LoopEvent::Arm),
            issue == (final(self)@.state is Armed),
    {
        self.state = LoopState::Armed;
        self.history = Ghost(loop_step(self.history@, LoopEvent::Arm));
        true
    }

    /// The host delivered a frame: the callback begins. The ensured equality
    /// of the counters is the no-overlap guarantee at the call site: every
    /// earlier callback has already returned.
    pub fn begin_frame(&mut self)
        requires
            old(self).inv(),
            old(self)@.state is Armed,
        ensures
            final(self).inv(),
            final(self)@ == loop_step(old(self)@, LoopEvent::Tick),
            old(self)@.frames_begun == old(self)@.frames_completed,
    {
        self.state = LoopState::Running;
        self.history = Ghost(loop_step(self.history@, LoopEvent::Tick));
    }

    /// The callback body returned. It re-arms — and the driver must issue
    /// one more host frame request — exactly when it asked to continue and
    /// the session is still alive; otherwise the loop ends.
    pub fn finish_frame(&mut self, rearm: bool) -> (issue: bool)
        requires
            old(self).inv(),
            old(self)@.state is Running,
        ensures
            final(self).inv(),
            final(self)@ == loop_step(old(self)@, LoopEvent::Finish { rearm }),
            issue == (final(self)@.state is Armed),
            issue == (rearm && old(self)@.session_live),
    {
        let issue: bool = rearm && self.session_live;
        if issue {
            self.state = LoopState::Armed;
        } else {
            self.state = LoopState::Ended;
        }
        self.history = Ghost(loop_step(self.history@, LoopEvent::Finish { rearm }));
        issue
    }

    /// The session ended (host-driven or explicit). A waiting loop closes
    /// down at once; a callback that is mid-flight may finish its draw work
    /// but will not re-arm.
    pub fn notify_session_ended(&mut self)
        requires
            old(self).inv(),
        ensures
            final(self).inv(),
            final(self)@ == loop_step(old(self)@, LoopEvent::SessionEnded),
    {
        self.session_live = false;
        match self.state {
            LoopState::Running => {},
            _ => {
                self.state = LoopState::Ended;
            },
        }
        self.history = Ghost(loop_step(self.history@, LoopEvent::SessionEnded));
    }
}

} // verus!
