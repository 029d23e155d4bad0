//! Core logic of a single-core, interrupt-driven radio peripheral: a
//! cooperative scheduler backed by one hardware alarm channel, the
//! advertise/connect/timeout state machine with its first-to-complete race,
//! the per-connection attribute dispatch loop, and the bit-exact
//! advertisement payload encoding.

pub mod adv;
pub mod device;
pub mod dispatch;
pub mod machine;
pub mod scheduler;
pub mod timer;
