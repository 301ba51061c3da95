//! Command interpreter of a partition processor.
//!
//! A partition owns a range of keys. Every command that is applied to the
//! partition is turned into a list of effects, which the caller commits to
//! storage and hands to the invoker, the timer service, the outbox shuffler
//! and the ingress. The interpreter reads the partition state through a
//! [`StateReader`], never writes it, and keeps only the next inbox and outbox
//! sequence numbers.
//!
//! [`model`] says what applying a command means, [`interpreter`] does it,
//! and [`laws`] holds what follows for every command.
pub mod clock;
pub mod command;
pub mod deterministic;
pub mod effects;
pub mod enricher;
pub mod errors;
pub mod identifiers;
pub mod interpreter;
pub mod invocation;
pub mod journal;
pub mod laws;
pub mod model;
pub mod octets;
pub mod processor;
pub mod state;
pub mod storage;

pub use command::Command;
pub use effects::{Effect, Effects};
pub use enricher::EntryEnricher;
pub use errors::Error;
pub use interpreter::CommandInterpreter;
pub use journal::RawEntryCodec;
pub use state::StateReader;
