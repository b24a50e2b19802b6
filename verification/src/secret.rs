//! Decision logic of the credential-store collaborator.
//!
//! The embedding shell talks to the OS-native credential manager and hands
//! the outcome of a lookup in as a plain `LookupOutcome`; the classification
//! below decides what the caller sees. The one non-obvious rule lives here:
//! "no secret stored" is a distinguished success, not an error.

use vstd::prelude::*;

verus! {

/// What the OS credential store answered to a password lookup, as handed in
/// by the shell: a stored value, the absence of any entry for the key, or a
/// failure with the store's error text.
pub enum LookupOutcome {
    Found(String),
    NoEntry,
    Failed(String),
}

/// The fixed service identifier under which the application's secret is
/// keyed in the OS credential store; the other half of the key is the
/// current OS user name, which the shell supplies.
pub fn service_name() -> (r: String)
    ensures
        r@ == "chiken"@,
{
    "chiken".to_owned()
}

/// Classifies a lookup outcome for the caller: a stored value is returned,
/// a missing entry is the distinguished empty success — not an error — and
/// only a store failure is an error, carrying the store's own text.
pub fn interpret_lookup(outcome: LookupOutcome) -> (r: Result<Option<String>, String>)
    ensures
        match outcome {
            LookupOutcome::Found(v) => r == Ok::<Option<String>, String>(Some(v)),
            LookupOutcome::NoEntry => r == Ok::<Option<String>, String>(None),
            LookupOutcome::Failed(msg) => r == Err::<Option<String>, String>(msg),
        },
{
    match outcome {
        LookupOutcome::Found(v) => Ok(Some(v)),
        LookupOutcome::NoEntry => Ok(None),
        LookupOutcome::Failed(msg) => Err(msg),
    }
}

} // verus!
