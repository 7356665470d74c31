use crate::address::{key_text, pubkey_text, Address};
use anchor_lang::error::Error;
use vstd::prelude::*;
use vstd::string::StringExecFns;

verus! {

/// anchor-lang's error type, the error of an instruction's `Result`.
#[verifier::external_type_specification]
#[verifier::external_body]
pub struct ExAnchorError(Error);

/// The accounts that `initialize` takes: none.
#[derive(Clone, Copy, Debug, PartialEq, Eq)]
pub struct Initialize {}

/// What the runtime hands an instruction: the address of the program being
/// executed, and the instruction's accounts.
pub struct Context<T> {
    pub program_id: Address,
    pub accounts: T,
}

impl<T> Context<T> {
    pub fn new(program_id: Address, accounts: T) -> (r: Context<T>)
        ensures
            r.program_id == program_id,
            r.accounts == accounts,
    {
        Context { program_id, accounts }
    }
}

/// The words that the greeting starts with, before the program's address.
pub const GREETING_PREFIX: &'static str = "Greetings from: ";

/// The greeting for a program whose address reads `id_text`.
pub open spec fn greeting_line(id_text: Seq<char>) -> Seq<char> {
    GREETING_PREFIX@ + id_text
}

/// The line that `initialize` logs for the program at `program_id`.
pub open spec fn initialize_log(program_id: Seq<u8>) -> Seq<char> {
    greeting_line(pubkey_text(program_id))
}

/// `after` is the log `before` with one more line: the greeting of the
/// program at `program_id`.
pub open spec fn logs_one_greeting(before: Seq<String>, after: Seq<String>, program_id: Seq<u8>) -> bool {
    &&& after.len() == before.len() + 1
    &&& after.subrange(0, before.len() as int) == before
    &&& after.last()@ == initialize_log(program_id)
}

/// Builds the greeting for a program whose address reads `id_text`.
pub fn greeting(id_text: &str) -> (r: String)
    ensures
        r@ == greeting_line(id_text@),
{
    let mut line = String::from_str(GREETING_PREFIX);
    line.append(id_text);
    line
}

/// The instruction: appends to `log` one line that greets from the executing
/// program's address, and succeeds. Neither the context nor its accounts
/// change.
pub fn initialize(ctx: &Context<Initialize>, log: &mut Vec<String>) -> (r: Result<(), Error>)
    ensures
        r is Ok,
        logs_one_greeting(old(log)@, final(log)@, ctx.program_id@),
{
    let id_text = key_text(&ctx.program_id);
    let line = greeting(id_text.as_str());
    log.push(line);
    assert(log@.subrange(0, old(log)@.len() as int) =~= old(log)@);
    Ok(())
}

/// The one line that `initialize` logs ends with the text of the program's
/// address.
pub proof fn lemma_log_line_names_program(program_id: Seq<u8>)
    ensures
        pubkey_text(program_id).is_suffix_of(initialize_log(program_id)),
{
    let line = initialize_log(program_id);
    let text = pubkey_text(program_id);
    assert(line.subrange(line.len() - text.len(), line.len() as int) =~= text);
}

/// Calls of `initialize` are independent: two calls in a row, for the same
/// program, keep every earlier line as it was and add the same greeting
/// twice, whatever the log held before.
pub proof fn lemma_invocations_independent(
    log0: Seq<String>,
    log1: Seq<String>,
    log2: Seq<String>,
    program_id: Seq<u8>,
)
    requires
        logs_one_greeting(log0, log1, program_id),
        logs_one_greeting(log1, log2, program_id),
    ensures
        log2.len() == log0.len() + 2,
        log2.subrange(0, log0.len() as int) == log0,
        log2[log0.len() as int]@ == initialize_log(program_id),
        log2[log0.len() + 1int]@ == initialize_log(program_id),
{
    assert(log2.subrange(0, log0.len() as int) =~= log1.subrange(0, log0.len() as int));
    assert(log2[log0.len() as int] == log2.subrange(0, log1.len() as int)[log0.len() as int]);
}

} // verus!
