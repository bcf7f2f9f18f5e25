//! Decision logic of the Hearth scheduler and worker: the round-robin
//! distribution of jobs over registered workers, the routing of direct worker
//! messages to running jobs, the checks made before a track is controlled,
//! the metadata reply, and the headers of a direct stream request.
//!
//! Everything that talks to NATS, to the voice driver or to the clock lives in
//! the application crate around this library; it hands plain values in and
//! carries out the actions that come back.

pub mod messages;
pub mod scheduler;
pub mod scheduler_laws;
pub mod worker;
pub mod worker_laws;
pub mod track;
pub mod metadata;
pub mod player;
