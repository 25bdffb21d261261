//! Bridge between a generic leveled logging facade and the DLT
//! (Diagnostic Log and Trace) backend.
//!
//! The crate holds the decision core of the bridge: severity mapping,
//! marshaling of text to NUL-free native form, rendering of log records,
//! and the two-step registration protocol driven as a state machine.
//! The native calls themselves (registration, emission, sink install)
//! are performed by a thin unverified driver around this library.

pub mod errors;
pub mod logger;
pub mod registration;
pub mod severity;
pub mod text;

pub use errors::DltReturnValue;
pub use errors::InitializeError;
