//! The session model: an immersive session's mode, liveness, and the render
//! state (base layer plus depth range) currently bound to it.
//!
//! Depth bounds are carried in micro-units (millionths), so that a depth of
//! one thousandth is the value `1_000` and the host's default far plane of
//! one thousand is `1_000_000_000`.

use vstd::prelude::*;

verus! {

/// The immersive mode a session is negotiated for.
#[derive(Clone, Copy, Debug, PartialEq, Eq, Structural)]
pub enum SessionMode {
    Inline,
    ImmersiveVr,
    ImmersiveAr,
}

/// Why a step of session setup failed.
#[derive(Clone, Copy, Debug, PartialEq, Eq, Structural)]
pub enum XrError {
    /// The support query answered that the requested mode is unavailable.
    UnsupportedMode,
    /// The host or the user refused to grant the session.
    SessionDenied,
    /// The host could not create a graphics context for the surface.
    ContextCreationFailed,
    /// The host could not make the context usable for XR presentation;
    /// fatal to the session.
    IncompatibleContext,
    /// A layer was requested for an invalid session/context pairing.
    LayerCreationFailed,
}

/// Host default near plane, in micro-units (a tenth).
pub const DEFAULT_DEPTH_NEAR_MICROS: u64 = 100_000;

/// Host default far plane, in micro-units (one thousand).
pub const DEFAULT_DEPTH_FAR_MICROS: u64 = 1_000_000_000;

/// A graphics context as the session logic sees it: only whether the host
/// has marked it compatible with XR presentation matters here.
#[derive(Clone, Copy, Debug, PartialEq, Eq, Structural)]
pub struct GraphicsContext {
    pub xr_compatible: bool,
}

impl GraphicsContext {
    pub fn new(xr_compatible: bool) -> (c: GraphicsContext)
        ensures
            c.xr_compatible == xr_compatible,
    {
        GraphicsContext { xr_compatible }
    }

    /// Record that the host finished its XR-compatibility upgrade.
    pub fn mark_xr_compatible(&mut self)
        ensures
            final(self).xr_compatible,
    {
        self.xr_compatible = true;
    }
}

/// A composition layer: the compositor's render-target wrapper around a
/// context, identified by an index into the host-side layer table.
#[derive(Clone, Copy, Debug, PartialEq, Eq, Structural)]
pub struct Layer {
    pub id: u64,
    pub framebuffer_width: u32,
    pub framebuffer_height: u32,
}

/// The (base layer, depth range) configuration bound to a session.
#[derive(Clone, Copy, Debug, PartialEq, Eq, Structural)]
pub struct RenderState {
    /// Identifier of the installed base layer.
    pub base_layer: u64,
    pub depth_near_micros: u64,
    pub depth_far_micros: u64,
}

/// Whether the host still considers the session alive.
#[derive(Clone, Copy, Debug, PartialEq, Eq, Structural)]
pub enum SessionPhase {
    Active,
    Ended,
}

/// An immersive session: its mode, its liveness, and the render state
/// currently installed on it (none until the first install).
#[derive(Clone, Copy, Debug)]
pub struct Session {
    pub mode: SessionMode,
    pub phase: SessionPhase,
    pub render_state: Option<RenderState>,
}

/// A depth override resolved against the host default.
pub open spec fn resolve_depth(choice: Option<u64>, fallback: u64) -> u64 {
    match choice {
        Some(v) => v,
        None => fallback,
    }
}

/// The session after a render state with the given layer and depth range is
/// installed: everything else about the session is untouched.
pub open spec fn spec_installed(
    s: Session,
    layer_id: u64,
    near_micros: u64,
    far_micros: u64,
) -> Session {
    Session {
        render_state: Some(
            RenderState {
                base_layer: layer_id,
                depth_near_micros: near_micros,
                depth_far_micros: far_micros,
            },
        ),
        ..s
    }
}

/// The session after the host (or the application) has ended it.
pub open spec fn spec_ended(s: Session) -> Session {
    Session { phase: SessionPhase::Ended, ..s }
}

/// The identifier of the session's current base layer, if a render state is
/// installed.
pub open spec fn spec_base_layer(s: Session) -> Option<u64> {
    match s.render_state {
        Some(rs) => Some(rs.base_layer),
        None => None,
    }
}

impl Session {
    /// A freshly granted session: active, with no render state installed yet.
    pub fn new(mode: SessionMode) -> (s: Session)
        ensures
            s.mode == mode,
            s.phase is Active,
            s.render_state is None,
    {
        Session { mode, phase: SessionPhase::Active, render_state: None }
    }

    pub fn is_active(&self) -> (r: bool)
        ensures
            r == (self.phase is Active),
    {
        match self.phase {
            SessionPhase::Active => true,
            SessionPhase::Ended => false,
        }
    }

    /// End the session. Terminal: no operation is valid on it afterwards.
    pub fn end(&mut self)
        ensures
            *final(self) == spec_ended(*old(self)),
    {
        self.phase = SessionPhase::Ended;
    }

    /// Replace the session's render state with one built from the given
    /// layer; absent depth overrides fall back to the host defaults.
    ///
    /// Installing is idempotent for equal arguments, and the installed layer
    /// becomes the current base layer whatever was installed before.
    pub fn install_render_state(
        &mut self,
        layer: &Layer,
        depth_near_micros: Option<u64>,
        depth_far_micros: Option<u64>,
    )
        requires
            old(self).phase is Active,
        ensures
            *final(self) == spec_installed(
                *old(self),
                layer.id,
                resolve_depth(depth_near_micros, DEFAULT_DEPTH_NEAR_MICROS),
                resolve_depth(depth_far_micros, DEFAULT_DEPTH_FAR_MICROS),
            ),
    {
        let near: u64 = match depth_near_micros {
            Some(v) => v,
            None => DEFAULT_DEPTH_NEAR_MICROS,
        };
        let far: u64 = match depth_far_micros {
            Some(v) => v,
            None => DEFAULT_DEPTH_FAR_MICROS,
        };
        self.render_state = Some(
            RenderState { base_layer: layer.id, depth_near_micros: near, depth_far_micros: far },
        );
    }

    /// The render state currently bound to the session. A frame callback
    /// must call this anew on every frame rather than cache the result.
    pub fn render_state(&self) -> (r: Option<RenderState>)
        requires
            self.phase is Active,
        ensures
            r == self.render_state,
    {
        self.render_state
    }

    /// The current base layer's identifier, resolved fresh from the current
    /// render state.
    pub fn base_layer(&self) -> (r: Option<u64>)
        requires
            self.phase is Active,
        ensures
            r == spec_base_layer(*self),
    {
        match self.render_state {
            Some(rs) => Some(rs.base_layer),
            None => None,
        }
    }
}

/// Build a composition layer for the given session/context pairing. The
/// pairing is valid exactly when the session is still active and the context
/// has been marked XR-compatible; an invalid pairing is a contract violation
/// answered with `LayerCreationFailed`. The identifier and framebuffer size
/// are the compositor's.
pub fn build_layer(
    session: &Session,
    context: &GraphicsContext,
    layer_id: u64,
    framebuffer_width: u32,
    framebuffer_height: u32,
) -> (r: Result<Layer, XrError>)
    ensures
        (r is Ok) <==> (session.phase is Active && context.xr_compatible),
        r is Ok ==> r->Ok_0 == (Layer {
            id: layer_id,
            framebuffer_width,
            framebuffer_height,
        }),
        r is Err ==> r->Err_0 == XrError::LayerCreationFailed,
{
    if session.is_active() && context.xr_compatible {
        Ok(Layer { id: layer_id, framebuffer_width, framebuffer_height })
    } else {
        Err(XrError::LayerCreationFailed)
    }
}

/// Law: installing a render state makes the installed layer the session's
/// current base layer — never a stale layer from before the call.
pub proof fn lemma_install_replaces_base_layer(
    s: Session,
    layer_id: u64,
    near_micros: u64,
    far_micros: u64,
)
    ensures
        spec_base_layer(spec_installed(s, layer_id, near_micros, far_micros)) == Some(layer_id),
{
}

/// Law: the render state read back from a session is exactly the one last
/// installed; it stays in place under the only other session transition
/// (ending), and re-installing the same configuration changes nothing.
pub proof fn lemma_render_state_round_trip(
    s: Session,
    layer_id: u64,
    near_micros: u64,
    far_micros: u64,
)
    ensures
        spec_installed(s, layer_id, near_micros, far_micros).render_state == Some(
            RenderState {
                base_layer: layer_id,
                depth_near_micros: near_micros,
                depth_far_micros: far_micros,
            },
        ),
        spec_ended(spec_installed(s, layer_id, near_micros, far_micros)).render_state
            == spec_installed(s, layer_id, near_micros, far_micros).render_state,
        spec_installed(
            spec_installed(s, layer_id, near_micros, far_micros),
            layer_id,
            near_micros,
            far_micros,
        ) == spec_installed(s, layer_id, near_micros, far_micros),
{
}

} // verus!
