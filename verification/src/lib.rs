//! Management of an immersive XR session's lifecycle: negotiating support,
//! binding a graphics context and composition layer to the session, and
//! driving the cooperative, self-re-arming frame loop.
//!
//! The host XR and graphics systems (the browser, the compositor) are external
//! collaborators: this crate holds the decision logic as explicit state
//! machines over plain values, and a driver outside the crate performs each
//! ordered action against the host and hands the host's answer back.

pub mod session;
pub mod frame_loop;
pub mod setup;
pub mod stereo;
pub mod texture;
