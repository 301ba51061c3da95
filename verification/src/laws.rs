//! What holds of every command that the interpreter applies.
//!
//! Each law is a proof function whose name begins with `law_`; the lemmas
//! beside it carry its proof.
pub mod activity;
pub mod commands;
pub mod journal;
pub mod locks;
pub mod moves;
pub mod numbering;
pub mod termination;
