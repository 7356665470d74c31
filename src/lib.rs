//! An on-chain program with a single instruction, `initialize`, which takes a
//! context holding no accounts, logs one greeting naming the program, and
//! succeeds.
mod address;
mod program;

pub use address::{id, pubkey_text, Address, PROGRAM_ID};
pub use program::{
    greeting, greeting_line, initialize, initialize_log, lemma_invocations_independent,
    lemma_log_line_names_program, logs_one_greeting, Context, Initialize, GREETING_PREFIX,
};
