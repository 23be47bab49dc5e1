//! Host-side orchestration of a sphere ray tracer whose simulation runs on the
//! accelerator.
//!
//! A compute pass advances the spheres from one device buffer into another, a
//! render pass traces them on a full-screen quad, and with every frame the two
//! buffers trade places. This crate holds what the host decides about that,
//! over plain values and with nothing of the device in it:
//!
//! - [`wire`]: the byte layout of the parameter block and of the sphere array;
//! - [`scene`]: the spheres that the simulation starts from;
//! - [`parity`]: the bit that selects a member of a pair;
//! - [`resources`]: the buffers, binding layouts, bind groups, surface and
//!   offscreen target to create, and the proof that they fit together;
//! - [`renderer`]: the renderer's state and the plan of one frame;
//! - [`session`]: the event loop as a state machine;
//! - [`traces`]: what holds of a session over any run of events.
//!
//! Whoever owns the window and the device feeds events to a
//! [`session::Session`] and carries out the actions that it answers with.

pub mod parity;
pub mod renderer;
pub mod resources;
pub mod scene;
pub mod session;
pub mod traces;
pub mod wire;
