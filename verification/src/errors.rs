//! Error taxonomy of the loading and invocation protocol, and the process
//! exit code earned by each outcome.

use vstd::prelude::*;

verus! {

/// Everything that can go wrong between opening the shared object and the
/// foreign call returning. None of these is retried: each is a permanent
/// condition for the current process invocation.
#[derive(Debug, Clone, PartialEq, Eq)]
pub enum LoadError {
    /// The shared-object path does not exist on disk.
    NotFound,
    /// The dynamic loader rejected the object (missing dependency, wrong ABI,
    /// corrupt file); carries the loader's diagnostic text.
    LoadFailure(String),
    /// A worker was requested before any library was opened.
    NotLoaded,
    /// A named export was looked up and is absent; carries the name.
    SymbolNotFound(String),
    /// Neither the rich nor the plain entry point is exported.
    RequiredSymbolMissing,
    /// A foreign entry point returned a nonzero status code; carries it.
    ForeignCallFailure(i32),
    /// The worker thread ended abnormally, so no status code is available.
    ThreadJoinFailure,
}

/// The process exit code for each error condition. Success exits with 0;
/// every error earns a nonzero code of its own.
pub open spec fn spec_exit_code(e: LoadError) -> u8 {
    match e {
        LoadError::NotFound => 2,
        LoadError::LoadFailure(_) => 3,
        LoadError::NotLoaded => 4,
        LoadError::SymbolNotFound(_) => 5,
        LoadError::RequiredSymbolMissing => 6,
        LoadError::ForeignCallFailure(_) => 7,
        LoadError::ThreadJoinFailure => 8,
    }
}

/// Two errors report the same condition when they are the same variant,
/// whatever diagnostic payload each carries.
pub open spec fn same_error_condition(a: LoadError, b: LoadError) -> bool {
    &&& (a is NotFound <==> b is NotFound)
    &&& (a is LoadFailure <==> b is LoadFailure)
    &&& (a is NotLoaded <==> b is NotLoaded)
    &&& (a is SymbolNotFound <==> b is SymbolNotFound)
    &&& (a is RequiredSymbolMissing <==> b is RequiredSymbolMissing)
    &&& (a is ForeignCallFailure <==> b is ForeignCallFailure)
    &&& (a is ThreadJoinFailure <==> b is ThreadJoinFailure)
}

/// Exit codes separate the error conditions: no error exits with the success
/// code, and two errors share a code only when they are the same condition.
pub proof fn lemma_exit_codes_distinct(a: LoadError, b: LoadError)
    ensures
        spec_exit_code(a) != 0,
        spec_exit_code(a) == spec_exit_code(b) ==> same_error_condition(a, b),
{
}

impl LoadError {
    /// The nonzero exit code this error earns.
    pub fn exit_code(&self) -> (c: u8)
        ensures
            c == spec_exit_code(*self),
            c != 0,
    {
        match self {
            LoadError::NotFound => 2,
            LoadError::LoadFailure(_) => 3,
            LoadError::NotLoaded => 4,
            LoadError::SymbolNotFound(_) => 5,
            LoadError::RequiredSymbolMissing => 6,
            LoadError::ForeignCallFailure(_) => 7,
            LoadError::ThreadJoinFailure => 8,
        }
    }
}

/// The exit code of a whole run: 0 when the workflow succeeded, the failing
/// error's own code otherwise.
pub fn exit_code_of(r: &Result<(), LoadError>) -> (c: u8)
    ensures
        r is Ok ==> c == 0,
        r matches Err(e) ==> c == spec_exit_code(*e) && c != 0,
{
    match r {
        Ok(()) => 0,
        Err(e) => e.exit_code(),
    }
}

} // verus!
