//! Session setup: the negotiation and binding sequence, as a state machine.
//!
//! The machine fixes the conservative ordering: query support, request the
//! session, create a graphics context, make it XR-compatible, build the
//! composition layer, then install the render state and arm the frame loop.
//! Each step is an action the driver performs against the host; the host's
//! answer comes back as a [`HostReply`] and the machine orders the next
//! action. A failure is terminal, and a failure after the session exists
//! orders the session torn down first.

use vstd::prelude::*;
use crate::session::{SessionMode, XrError};

verus! {

/// Where the setup sequence stands.
#[derive(Clone, Copy, Debug, PartialEq, Eq, Structural)]
pub enum SetupPhase {
    /// Nothing asked of the host yet.
    Start,
    /// The support query is out.
    AwaitSupport,
    /// The session request is out.
    AwaitSession,
    /// Context creation is out.
    AwaitContext,
    /// The XR-compatibility upgrade is out.
    AwaitCompat,
    /// The layer build is out.
    AwaitLayer,
    /// The render state is ready to install: setup succeeded.
    Complete,
    /// Terminal failure.
    Failed(XrError),
}

/// The host's answer to the action last ordered.
#[derive(Clone, Copy, Debug, PartialEq, Eq, Structural)]
pub enum HostReply {
    /// Whether the requested mode is supported. Never an error: an
    /// unavailable mode answers `false`.
    SupportKnown(bool),
    SessionGranted,
    SessionDenied,
    ContextCreated,
    ContextFailed,
    CompatOk,
    CompatFailed,
    LayerBuilt,
    LayerFailed,
}

/// What the driver must do next against the host.
#[derive(Clone, Copy, Debug, PartialEq, Eq, Structural)]
pub enum SetupAction {
    /// Ask the host whether the mode is supported.
    QuerySupport(SessionMode),
    /// Ask the host to grant a session for the mode.
    RequestSession(SessionMode),
    /// Create a graphics context on the drawable surface.
    CreateContext,
    /// Ask the host to make the context XR-compatible.
    MakeXrCompatible,
    /// Build the composition layer for the session/context pairing.
    BuildLayer,
    /// Install the render state on the session and arm the frame loop.
    InstallAndArm,
    /// Tear the session down: a fatal failure after the session existed.
    EndSession,
    /// Nothing: the machine is terminal, or the reply did not belong to the
    /// current phase.
    Wait,
}

/// The transition relation of setup, as a total function: a reply that does
/// not answer the current phase changes nothing and orders nothing.
pub open spec fn setup_step(
    phase: SetupPhase,
    mode: SessionMode,
    reply: HostReply,
) -> (SetupPhase, SetupAction) {
    match (phase, reply) {
        (SetupPhase::AwaitSupport, HostReply::SupportKnown(true)) => (
            SetupPhase::AwaitSession,
            SetupAction::RequestSession(mode),
        ),
        (SetupPhase::AwaitSupport, HostReply::SupportKnown(false)) => (
            SetupPhase::Failed(XrError::UnsupportedMode),
            SetupAction::Wait,
        ),
        (SetupPhase::AwaitSession, HostReply::SessionGranted) => (
            SetupPhase::AwaitContext,
            SetupAction::CreateContext,
        ),
        (SetupPhase::AwaitSession, HostReply::SessionDenied) => (
            SetupPhase::Failed(XrError::SessionDenied),
            SetupAction::Wait,
        ),
        (SetupPhase::AwaitContext, HostReply::ContextCreated) => (
            SetupPhase::AwaitCompat,
            SetupAction::MakeXrCompatible,
        ),
        (SetupPhase::AwaitContext, HostReply::ContextFailed) => (
            SetupPhase::Failed(XrError::ContextCreationFailed),
            SetupAction::EndSession,
        ),
        (SetupPhase::AwaitCompat, HostReply::CompatOk) => (
            SetupPhase::AwaitLayer,
            SetupAction::BuildLayer,
        ),
        (SetupPhase::AwaitCompat, HostReply::CompatFailed) => (
            SetupPhase::Failed(XrError::IncompatibleContext),
            SetupAction::EndSession,
        ),
        (SetupPhase::AwaitLayer, HostReply::LayerBuilt) => (
            SetupPhase::Complete,
            SetupAction::InstallAndArm,
        ),
        (SetupPhase::AwaitLayer, HostReply::LayerFailed) => (
            SetupPhase::Failed(XrError::LayerCreationFailed),
            SetupAction::EndSession,
        ),
        _ => (phase, SetupAction::Wait),
    }
}

/// The actions the machine orders over a whole sequence of replies.
pub open spec fn setup_actions(
    phase: SetupPhase,
    mode: SessionMode,
    replies: Seq<HostReply>,
) -> Seq<SetupAction>
    decreases replies.len(),
{
    if replies.len() == 0 {
        Seq::empty()
    } else {
        seq![setup_step(phase, mode, replies[0]).1] + setup_actions(
            setup_step(phase, mode, replies[0]).0,
            mode,
            replies.drop_first(),
        )
    }
}

/// The machine orders exactly one action per reply.
pub proof fn lemma_setup_actions_len(
    phase: SetupPhase,
    mode: SessionMode,
    replies: Seq<HostReply>,
)
    ensures
        setup_actions(phase, mode, replies).len() == replies.len(),
    decreases replies.len(),
{
    if replies.len() > 0 {
        lemma_setup_actions_len(setup_step(phase, mode, replies[0]).0, mode, replies.drop_first());
    }
}

/// Law: a failed setup is terminal — no reply moves it or orders an action.
pub proof fn lemma_failed_sticky(e: XrError, mode: SessionMode, reply: HostReply)
    ensures
        setup_step(SetupPhase::Failed(e), mode, reply) == (
            SetupPhase::Failed(e),
            SetupAction::Wait,
        ),
{
}

/// Law: a failed XR-compatibility upgrade immediately tears the session
/// down and ends setup with `IncompatibleContext`.
pub proof fn lemma_compat_failure_tears_down(mode: SessionMode)
    ensures
        setup_step(SetupPhase::AwaitCompat, mode, HostReply::CompatFailed) == (
            SetupPhase::Failed(XrError::IncompatibleContext),
            SetupAction::EndSession,
        ),
{
}

/// Law: a layer build is ordered only as the immediate answer to a
/// successful XR-compatibility upgrade — never when the upgrade failed or
/// was skipped.
pub proof fn lemma_layer_build_needs_compat(
    phase: SetupPhase,
    mode: SessionMode,
    reply: HostReply,
)
    ensures
        setup_step(phase, mode, reply).1 is BuildLayer ==> phase is AwaitCompat
            && reply is CompatOk,
{
}

/// Law: every setup action is ordered only as the immediate answer to the
/// step before it in the protocol. In particular a session is requested
/// only once support is known to be there, and a context only once the
/// session is granted.
pub proof fn lemma_actions_follow_protocol(
    phase: SetupPhase,
    mode: SessionMode,
    reply: HostReply,
)
    ensures
        setup_step(phase, mode, reply).1 is RequestSession ==> phase is AwaitSupport
            && reply == HostReply::SupportKnown(true),
        setup_step(phase, mode, reply).1 is CreateContext ==> phase is AwaitSession
            && reply is SessionGranted,
        setup_step(phase, mode, reply).1 is MakeXrCompatible ==> phase is AwaitContext
            && reply is ContextCreated,
        setup_step(phase, mode, reply).1 is InstallAndArm ==> phase is AwaitLayer
            && reply is LayerBuilt,
{
}

/// Law: when the host answers yes at every step, the machine orders exactly
/// the conservative sequence — request the session, create the context,
/// make it XR-compatible, build the layer, then install and arm.
pub proof fn lemma_happy_path_ordering(mode: SessionMode)
    ensures
        setup_actions(
            SetupPhase::AwaitSupport,
            mode,
            seq![
                HostReply::SupportKnown(true),
                HostReply::SessionGranted,
                HostReply::ContextCreated,
                HostReply::CompatOk,
                HostReply::LayerBuilt,
            ],
        ) =~= seq![
            SetupAction::RequestSession(mode),
            SetupAction::CreateContext,
            SetupAction::MakeXrCompatible,
            SetupAction::BuildLayer,
            SetupAction::InstallAndArm,
        ],
{
    let replies = seq![
        HostReply::SupportKnown(true),
        HostReply::SessionGranted,
        HostReply::ContextCreated,
        HostReply::CompatOk,
        HostReply::LayerBuilt,
    ];
    reveal_with_fuel(setup_actions, 6);
    assert(replies.drop_first() =~= seq![
        HostReply::SessionGranted,
        HostReply::ContextCreated,
        HostReply::CompatOk,
        HostReply::LayerBuilt,
    ]);
    assert(replies.drop_first().drop_first() =~= seq![
        HostReply::ContextCreated,
        HostReply::CompatOk,
        HostReply::LayerBuilt,
    ]);
    assert(replies.drop_first().drop_first().drop_first() =~= seq![
        HostReply::CompatOk,
        HostReply::LayerBuilt,
    ]);
    assert(replies.drop_first().drop_first().drop_first().drop_first() =~= seq![
        HostReply::LayerBuilt,
    ]);
    assert(replies.drop_first().drop_first().drop_first().drop_first().drop_first() =~= Seq::<
        HostReply,
    >::empty());
}

/// Law: once setup has failed — in particular after a failed
/// XR-compatibility upgrade has torn the session down — no sequence of
/// further replies ever orders a layer build.
pub proof fn lemma_failed_never_builds_layer(
    e: XrError,
    mode: SessionMode,
    replies: Seq<HostReply>,
)
    ensures
        forall|i: int|
            0 <= i < replies.len() ==> !(setup_actions(
                SetupPhase::Failed(e),
                mode,
                replies,
            )[i] is BuildLayer),
    decreases replies.len(),
{
    if replies.len() > 0 {
        lemma_failed_never_builds_layer(e, mode, replies.drop_first());
        lemma_setup_actions_len(SetupPhase::Failed(e), mode, replies.drop_first());
        assert forall|i: int|
            0 <= i < replies.len() implies !(setup_actions(
            SetupPhase::Failed(e),
            mode,
            replies,
        )[i] is BuildLayer) by {
            if i > 0 {
                assert(setup_actions(SetupPhase::Failed(e), mode, replies)[i]
                    == setup_actions(SetupPhase::Failed(e), mode, replies.drop_first())[i - 1]);
            }
        }
    }
}

/// The setup sequence as the driver runs it.
#[derive(Clone, Copy, Debug)]
pub struct SetupMachine {
    pub phase: SetupPhase,
    pub mode: SessionMode,
}

impl SetupMachine {
    pub fn new(mode: SessionMode) -> (m: SetupMachine)
        ensures
            m.phase is Start,
            m.mode == mode,
    {
        SetupMachine { phase: SetupPhase::Start, mode }
    }

    /// Start negotiating: orders the support query for the machine's mode.
    pub fn begin(&mut self) -> (a: SetupAction)
        requires
            old(self).phase is Start,
        ensures
            final(self).phase is AwaitSupport,
            final(self).mode == old(self).mode,
            a == SetupAction::QuerySupport(old(self).mode),
    {
        self.phase = SetupPhase::AwaitSupport;
        SetupAction::QuerySupport(self.mode)
    }

    /// Feed the host's answer in; the machine moves and orders the next
    /// action, exactly as [`setup_step`] says.
    pub fn on_reply(&mut self, reply: HostReply) -> (a: SetupAction)
        ensures
            final(self).phase == setup_step(old(self).phase, old(self).mode, reply).0,
            a == setup_step(old(self).phase, old(self).mode, reply).1,
            final(self).mode == old(self).mode,
    {
        match (self.phase, reply) {
            (SetupPhase::AwaitSupport, HostReply::SupportKnown(true)) => {
                self.phase = SetupPhase::AwaitSession;
                SetupAction::RequestSession(self.mode)
            },
            (SetupPhase::AwaitSupport, HostReply::SupportKnown(false)) => {
                self.phase = SetupPhase::Failed(XrError::UnsupportedMode);
                SetupAction::Wait
            },
            (SetupPhase::AwaitSession, HostReply::SessionGranted) => {
                self.phase = SetupPhase::AwaitContext;
                SetupAction::CreateContext
            },
            (SetupPhase::AwaitSession, HostReply::SessionDenied) => {
                self.phase = SetupPhase::Failed(XrError::SessionDenied);
                SetupAction::Wait
            },
            (SetupPhase::AwaitContext, HostReply::ContextCreated) => {
                self.phase = SetupPhase::AwaitCompat;
                SetupAction::MakeXrCompatible
            },
            (SetupPhase::AwaitContext, HostReply::ContextFailed) => {
                self.phase = SetupPhase::Failed(XrError::ContextCreationFailed);
                SetupAction::EndSession
            },
            (SetupPhase::AwaitCompat, HostReply::CompatOk) => {
                self.phase = SetupPhase::AwaitLayer;
                SetupAction::BuildLayer
            },
            (SetupPhase::AwaitCompat, HostReply::CompatFailed) => {
                self.phase = SetupPhase::Failed(XrError::IncompatibleContext);
                SetupAction::EndSession
            },
            (SetupPhase::AwaitLayer, HostReply::LayerBuilt) => {
                self.phase = SetupPhase::Complete;
                SetupAction::InstallAndArm
            },
            (SetupPhase::AwaitLayer, HostReply::LayerFailed) => {
                self.phase = SetupPhase::Failed(XrError::LayerCreationFailed);
                SetupAction::EndSession
            },
            _ => SetupAction::Wait,
        }
    }

    /// Whether setup reached its goal.
    pub fn is_complete(&self) -> (r: bool)
        ensures
            r == (self.phase is Complete),
    {
        match self.phase {
            SetupPhase::Complete => true,
            _ => false,
        }
    }

    /// The failure setup ended with, if it failed.
    pub fn error(&self) -> (e: Option<XrError>)
        ensures
            e == (match self.phase {
                SetupPhase::Failed(err) => Some(err),
                _ => None::<XrError>,
            }),
    {
        match self.phase {
            SetupPhase::Failed(err) => Some(err),
            _ => None,
        }
    }
}

} // verus!
