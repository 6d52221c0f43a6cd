//! A minimal on-chain program: one `initialize` instruction that writes a
//! greeting naming the executing program to the diagnostic log and reports
//! success. The host runtime's execution context and its log are modelled by
//! plain types of this crate, so the instruction's behaviour is stated and
//! proved here; the runtime wiring lives outside the library.

use vstd::prelude::*;

verus! {

/// The base58-encoded identifier under which this program is deployed.
pub open spec fn spec_program_id() -> Seq<char> {
    "EDk7rVCqYwm2A4FNwRTiahdpJNmoXXsww7ATPtvyTf8D"@
}

/// The fixed prefix of the greeting that `initialize` logs.
pub open spec fn spec_greeting_prefix() -> Seq<char> {
    "Greetings from: "@
}

/// The full log entry that `initialize` writes when the executing program's
/// identifier renders as `id`.
pub open spec fn spec_greeting(id: Seq<char>) -> Seq<char> {
    spec_greeting_prefix() + id
}

/// The identifier under which this program is deployed, base58-encoded.
pub fn program_id() -> (r: String)
    ensures
        r@ == spec_program_id(),
{
    String::from_str("EDk7rVCqYwm2A4FNwRTiahdpJNmoXXsww7ATPtvyTf8D")
}

/// The greeting logged for a program whose identifier renders as `id`.
pub fn greeting(id: &str) -> (r: String)
    ensures
        r@ == spec_greeting(id@),
{
    let prefix = String::from_str("Greetings from: ");
    prefix.concat(id)
}

/// The error type of an instruction. `initialize` never constructs it: the
/// instruction succeeds on every input.
pub struct ProgramError {}

/// Account validation for `initialize`: the instruction touches no accounts.
pub struct Initialize {}

/// The execution context the host runtime hands to an instruction: the
/// identifier of the executing program, base58-encoded, and the instruction's
/// validated accounts.
pub struct Context {
    pub program_id: String,
    pub accounts: Initialize,
}

/// The executing program's diagnostic log: one entry per message emitted.
pub struct Log {
    pub entries: Vec<String>,
}

impl View for Log {
    type V = Seq<Seq<char>>;

    open spec fn view(&self) -> Seq<Seq<char>> {
        self.entries.deep_view()
    }
}

impl Log {
    /// An empty log, as the runtime provides at the start of a transaction.
    pub fn new() -> (r: Log)
        ensures
            r@ == Seq::<Seq<char>>::empty(),
    {
        let r = Log { entries: Vec::new() };
        proof {
            assert(r@ =~= Seq::<Seq<char>>::empty());
        }
        r
    }

    /// Emit one diagnostic message: append it to the log.
    pub fn msg(&mut self, entry: String)
        ensures
            final(self)@ == old(self)@.push(entry@),
    {
        self.entries.push(entry);
        proof {
            assert(self@ =~= old(self)@.push(entry@));
        }
    }
}

/// Handle the `initialize` instruction: log one greeting naming the executing
/// program, and report success.
pub fn initialize(ctx: &Context, log: &mut Log) -> (r: Result<(), ProgramError>)
    ensures
        r is Ok,
        final(log)@ == old(log)@.push(spec_greeting(ctx.program_id@)),
{
    let entry = greeting(ctx.program_id.as_str());
    log.msg(entry);
    Ok(())
}

/// `needle` occurs in `hay` as one contiguous run of characters.
pub open spec fn spec_contains(hay: Seq<char>, needle: Seq<char>) -> bool {
    exists|i: int|
        0 <= i && i + needle.len() <= hay.len() && #[trigger] hay.subrange(
            i,
            i + needle.len() as int,
        ) == needle
}

/// Law: the greeting logged for identifier `id` contains `id` itself.
pub proof fn lemma_greeting_contains_id(id: Seq<char>)
    ensures
        spec_contains(spec_greeting(id), id),
{
    let p = spec_greeting_prefix().len() as int;
    assert(spec_greeting(id).subrange(p, p + id.len() as int) =~= id);
}

/// Law: one invocation of `initialize` appends exactly one entry to the log,
/// and that entry contains the executing program's identifier.
pub proof fn lemma_initialize_logs_program_id(pre: Log, post: Log, ctx: Context)
    requires
        post@ == pre@.push(spec_greeting(ctx.program_id@)),
    ensures
        post@.len() == pre@.len() + 1,
        post@.last() == spec_greeting(ctx.program_id@),
        spec_contains(post@.last(), ctx.program_id@),
{
    lemma_greeting_contains_id(ctx.program_id@);
}

} // verus!
