//! Bindings around Bitcoin's consensus script verifier: the soft fork
//! activation schedule, the engine's outcome codes, and the marshaling of a
//! verification request to the engine and of its verdict back.
pub mod engine;
pub mod error;
pub mod flags;

pub use engine::{outcome, verify, verify_with_flags, VerifyRequest};
pub use error::Error;
pub use flags::{
    height_to_flags, VERIFY_ALL, VERIFY_CHECKLOCKTIMEVERIFY, VERIFY_CHECKSEQUENCEVERIFY,
    VERIFY_DERSIG, VERIFY_NONE, VERIFY_NULLDUMMY, VERIFY_P2SH, VERIFY_WITNESS,
};
