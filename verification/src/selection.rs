//! Entry-point selection: which exported symbol the orchestrator invokes.
//!
//! The shared object may export a rich entry point, which takes the path of
//! an auxiliary plugin object, and a plain one, which takes nothing. The rich
//! one is always preferred; the plain one is chosen only in its absence; when
//! neither is exported the invocation fails.

use vstd::prelude::*;
use vstd::string::StringSliceAdditionalSpecFns;
use crate::errors::LoadError;

verus! {

/// The entry point chosen for an invocation, resolved once at load time
/// rather than re-probed per call.
#[derive(Debug, Clone, PartialEq, Eq)]
pub enum EntryChoice {
    /// The rich entry point, to be handed this auxiliary plugin path as a
    /// null-terminated byte string.
    Rich(String),
    /// The plain, zero-argument entry point.
    Plain,
}

/// Name under which the rich entry point is exported.
pub fn rich_entry_name() -> (s: &'static str)
    ensures
        s@ == "MainWithPlugin"@,
{
    "MainWithPlugin"
}

/// Name under which the plain entry point is exported.
pub fn plain_entry_name() -> (s: &'static str)
    ensures
        s@ == "Main"@,
{
    "Main"
}

/// Name under which the optional diagnostic entry point is exported.
pub fn runtime_info_name() -> (s: &'static str)
    ensures
        s@ == "GetRuntimeInfo"@,
{
    "GetRuntimeInfo"
}

/// The selection policy. Given which of the two entry points the object
/// exports, choose the rich one whenever it is present, handing it the
/// auxiliary path unchanged; fall back to the plain one; fail with
/// `RequiredSymbolMissing` only when neither is exported.
pub fn select_entry(has_rich: bool, has_plain: bool, aux_path: String) -> (r: Result<
    EntryChoice,
    LoadError,
>)
    ensures
        has_rich ==> (r matches Ok(c) && c matches EntryChoice::Rich(p) && p@ == aux_path@),
        !has_rich && has_plain ==> (r matches Ok(c) && c is Plain),
        !has_rich && !has_plain ==> (r matches Err(e) && e is RequiredSymbolMissing),
        r is Ok <==> (has_rich || has_plain),
{
    if has_rich {
        Ok(EntryChoice::Rich(aux_path))
    } else if has_plain {
        Ok(EntryChoice::Plain)
    } else {
        Err(LoadError::RequiredSymbolMissing)
    }
}

/// Whether a byte string may cross the foreign boundary null-terminated: it
/// must hold no interior nul byte.
pub open spec fn spec_nul_free(bytes: Seq<u8>) -> bool {
    forall|i: int| 0 <= i < bytes.len() ==> bytes[i] != 0
}

/// Check that an auxiliary plugin path can be marshaled as a null-terminated
/// byte string, which is how the rich entry point receives it: true exactly
/// when no byte of the path is nul.
pub fn marshalable_plugin_path(path: &str) -> (b: bool)
    ensures
        b == spec_nul_free(path.spec_bytes()),
{
    let bytes = path.as_bytes();
    let mut i: usize = 0;
    while i < bytes.len()
        invariant
            0 <= i <= bytes@.len(),
            bytes@ == path.spec_bytes(),
            forall|j: int| 0 <= j < i ==> bytes@[j] != 0,
        decreases bytes@.len() - i,
    {
        if bytes[i] == 0 {
            return false;
        }
        i += 1;
    }
    true
}

/// Outcome of resolving one named export against an opened handle: succeeds
/// exactly when the export table holds that name, and otherwise reports which
/// name was absent. The declared call signature is a caller-supplied trust
/// boundary, never verified against the object.
pub fn resolve_symbol(present: bool, name: &str) -> (r: Result<(), LoadError>)
    ensures
        r is Ok <==> present,
        !present ==> (r matches Err(e) && e matches LoadError::SymbolNotFound(n) && n@ == name@),
{
    if present {
        Ok(())
    } else {
        Err(LoadError::SymbolNotFound(name.to_owned()))
    }
}

} // verus!
