//! Materializes a compiled-in helper script on disk once per instance and
//! builds the command that runs it with a locally installed interpreter.
//!
//! The library decides; the caller performs the filesystem work. Each
//! decision is a verified function from the current state and the outcome of
//! the last outside step to the next state and the next thing to do.

mod bootstrap;
mod command;
mod laws;

pub use bootstrap::{
    after_round, after_rounds, dir_of, error_text, path_of_round, round_path, writes, writes_in_rounds,
    BootstrapError, BootstrapView, ResourceBootstrapper, RoundOutcome, Step,
};
pub use command::{joined, joined_path, launch_args, launch_command, texts, Command, LOCATE_AND_RUN};
pub use laws::{
    lemma_cached_is_final, lemma_command_uses_returned_path, lemma_dir_failure_then_retry,
    lemma_fresh_state_writes, lemma_write_failure_then_retry, lemma_written_once,
};
