//! Fingerprint enrollment orchestration: the finger-slot vocabulary, the error
//! taxonomy, the sensor's status vocabulary, scoped device sessions, the
//! enrollment state machine and the template registry operations.

pub mod error;
pub mod finger;
pub mod signal;
pub mod session;
pub mod enroll;
pub mod registry;
pub mod message;
pub mod controls;
