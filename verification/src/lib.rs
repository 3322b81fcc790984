//! Frame pacing for a renderer that draws through a swapchain.
//!
//! The host of this library talks to the graphics device; the library
//! decides. It says how many frames may be in flight between host and
//! device, in what order the synchronization objects of a frame are used,
//! when the swapchain is rebuilt, and in what order the device objects are
//! built and destroyed. Around that core it holds the decisions made once,
//! at startup: which physical device and which queue families to use, how
//! to configure the swapchain, and how to turn a mesh into vertex and index
//! buffers.
//!
//! - [`sync`]: the ring of frame slots and the record of each image's last
//!   user.
//! - [`scheduler`]: the state machine that runs a tick, step by step.
//! - [`fences`]: a model of the device's fences, and the proofs that the
//!   scheduler uses them safely.
//! - [`lifecycle`]: the order of construction and destruction.
//! - [`swapchain`]: the negotiation of the swapchain.
//! - [`device`]: the choice of physical device and queue families.
//! - [`mesh`]: vertex and index buffers without repeated vertices.

pub mod device;
pub mod fences;
pub mod lifecycle;
pub mod mesh;
pub mod scheduler;
pub mod swapchain;
pub mod sync;
