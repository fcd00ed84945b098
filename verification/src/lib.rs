//! Best-effort pseudo-random numbers for a robot brain without an entropy source.
//!
//! Every draw hashes freshly sampled noisy signals (battery telemetry, clocks
//! and, optionally, floating three-wire ports) into one 64-bit digest. The
//! library does the mixing and the shaping of the output; reading the signals
//! is left to the caller, who hands them over as plain samples.
//!
//! The draws are meant for casual randomness. They are not fit for cryptography.
pub mod adi;
pub mod hasher;
pub mod laws;
pub mod mixer;
pub mod output;
pub mod port;
pub mod signal;
pub mod system;

pub use crate::adi::AdiRng;
pub use crate::port::{AdiPort, BusAddress, DEFAULT_EXPANDER_INDEX};
pub use crate::signal::{AdiSample, SystemSample};
pub use crate::system::SystemRng;
