//! The library-handle manager and run-state tracker.
//!
//! `CollectorLoader` is the verified state of the host: whether a shared
//! object is currently held open, and whether a foreign call dispatched to a
//! worker thread is currently executing. The native mapping, the symbol
//! lookups and the foreign calls themselves are `unsafe` and are performed by
//! the unverified host; it reports each outcome here as a plain event, and
//! every decision taken on those events is verified.

use vstd::prelude::*;
use crate::errors::LoadError;

verus! {

/// What the host observed while opening the shared object.
#[derive(Debug, Clone, PartialEq, Eq)]
pub enum LoadEvent {
    /// The path does not exist on disk; no native mapping was attempted.
    Missing,
    /// The dynamic loader mapped and linked the object.
    Mapped,
    /// The dynamic loader rejected the object; carries its diagnostic text.
    Rejected(String),
}

/// The step an open attempt is allowed to take next.
#[derive(Debug, Clone, Copy, PartialEq, Eq)]
pub enum LoadStep {
    /// The path exists: the host may hand it to the dynamic loader.
    AttemptMapping,
    /// The path is absent: fail with `NotFound`, never touching the loader.
    FailNotFound,
}

/// Verified state of one loader instance: one handle slot and one run flag.
/// Only one backgrounded invocation is tracked at a time.
pub struct CollectorLoader {
    lib_loaded: bool,
    run_flag: bool,
}

impl CollectorLoader {
    /// Whether a shared object is currently held open.
    pub closed spec fn loaded(self) -> bool {
        self.lib_loaded
    }

    /// Whether a dispatched foreign call is currently executing.
    pub closed spec fn running(self) -> bool {
        self.run_flag
    }

    /// The state of a freshly constructed loader.
    pub closed spec fn spec_init() -> CollectorLoader {
        CollectorLoader { lib_loaded: false, run_flag: false }
    }

    /// The state after the worker marks its foreign call started.
    pub closed spec fn after_start(self) -> CollectorLoader {
        CollectorLoader { run_flag: true, ..self }
    }

    /// The state after the worker marks its foreign call finished.
    pub closed spec fn after_finish(self) -> CollectorLoader {
        CollectorLoader { run_flag: false, ..self }
    }

    /// The step an open attempt takes: a mapping is attempted exactly for a
    /// path that exists.
    pub open spec fn spec_plan_load(exists: bool) -> LoadStep {
        if exists {
            LoadStep::AttemptMapping
        } else {
            LoadStep::FailNotFound
        }
    }

    /// The state after one open attempt: only a mapped object fills the
    /// handle slot; a missing path or a rejected object leaves it untouched.
    pub closed spec fn after_load(self, event: LoadEvent) -> CollectorLoader {
        if event is Mapped {
            CollectorLoader { lib_loaded: true, ..self }
        } else {
            self
        }
    }

    /// A fresh loader: nothing opened, nothing running.
    pub fn new() -> (s: Self)
        ensures
            s == Self::spec_init(),
            !s.loaded(),
            !s.running(),
    {
        CollectorLoader { lib_loaded: false, run_flag: false }
    }

    /// Decide whether an open attempt may proceed to a native mapping: only a
    /// path that exists on disk is ever handed to the dynamic loader.
    pub fn plan_load(exists: bool) -> (s: LoadStep)
        ensures
            s == Self::spec_plan_load(exists),
            s is AttemptMapping <==> exists,
            s is FailNotFound <==> !exists,
    {
        if exists {
            LoadStep::AttemptMapping
        } else {
            LoadStep::FailNotFound
        }
    }

    /// Record the outcome of one open attempt. A missing path is `NotFound`
    /// and a rejected object is `LoadFailure` with the loader's diagnostic,
    /// each leaving the handle slot as it was; only a mapped object loads.
    pub fn load_library(&mut self, event: LoadEvent) -> (r: Result<(), LoadError>)
        ensures
            *final(self) == old(self).after_load(event),
            r == spec_load_result(event),
            final(self).running() == old(self).running(),
            r is Ok <==> event is Mapped,
            event is Mapped ==> final(self).loaded(),
            event is Missing ==> (r matches Err(e) && e is NotFound) && final(self).loaded()
                == old(self).loaded(),
            event matches LoadEvent::Rejected(msg) ==> (r matches Err(e) && e matches
                LoadError::LoadFailure(m) && m@ == msg@ && final(self).loaded() == old(
                self,
            ).loaded()),
    {
        match event {
            LoadEvent::Missing => Err(LoadError::NotFound),
            LoadEvent::Mapped => {
                self.lib_loaded = true;
                Ok(())
            },
            LoadEvent::Rejected(msg) => Err(LoadError::LoadFailure(msg)),
        }
    }

    /// Decide whether a worker may be dispatched for the plain entry point:
    /// only for an opened handle whose object exports it. `Ok` licenses the
    /// host to spawn one worker, which must bracket the foreign call with
    /// `mark_call_started` and `mark_call_finished`.
    pub fn run_collector(&self, has_main: bool) -> (r: Result<(), LoadError>)
        ensures
            r is Ok <==> (self.loaded() && has_main),
            !self.loaded() ==> (r matches Err(e) && e is NotLoaded),
            self.loaded() && !has_main ==> (r matches Err(e) && e matches
                LoadError::SymbolNotFound(n) && n@ == "Main"@),
    {
        if !self.lib_loaded {
            Err(LoadError::NotLoaded)
        } else if !has_main {
            Err(LoadError::SymbolNotFound(crate::selection::plain_entry_name().to_owned()))
        } else {
            Ok(())
        }
    }

    /// The worker thread records, strictly before the foreign body begins,
    /// that the call is now executing. Requires an opened handle and no other
    /// call in flight: one backgrounded invocation at a time.
    pub fn mark_call_started(&mut self)
        requires
            old(self).loaded(),
            !old(self).running(),
        ensures
            *final(self) == old(self).after_start(),
            final(self).running(),
            final(self).loaded() == old(self).loaded(),
    {
        self.run_flag = true;
    }

    /// The worker thread records, strictly after the foreign call returned,
    /// that it is no longer executing.
    pub fn mark_call_finished(&mut self)
        requires
            old(self).running(),
        ensures
            *final(self) == old(self).after_finish(),
            !final(self).running(),
            final(self).loaded() == old(self).loaded(),
    {
        self.run_flag = false;
    }

    /// Whether a shared object is currently held open.
    pub fn is_loaded(&self) -> (b: bool)
        ensures
            b == self.loaded(),
    {
        self.lib_loaded
    }

    /// Non-blocking status query: whether a dispatched foreign call is
    /// currently executing.
    pub fn is_running(&self) -> (b: bool)
        ensures
            b == self.running(),
    {
        self.run_flag
    }

    /// Unmap the object. The handle's lifetime must be a superset of every
    /// call made through it, so closing is permitted only once no dispatched
    /// call is still in flight; an unverified caller must check `is_running`
    /// first and treat a running call as a precondition violation.
    pub fn close(&mut self)
        requires
            !old(self).running(),
        ensures
            !final(self).loaded(),
            !final(self).running(),
    {
        self.lib_loaded = false;
        self.run_flag = false;
    }
}

/// Run-state lifecycle law: a freshly constructed loader reports not running;
/// from the moment a dispatched call is marked started the flag holds, and it
/// is clear again exactly once the call is marked finished. Neither
/// transition touches the handle slot.
pub proof fn lemma_run_state_lifecycle(s: CollectorLoader)
    ensures
        !CollectorLoader::spec_init().running(),
        s.after_start().running(),
        !s.after_start().after_finish().running(),
        s.after_start().loaded() == s.loaded(),
        s.after_start().after_finish().loaded() == s.loaded(),
{
}

/// One run-flag transition taken by the worker thread.
#[derive(Debug, Clone, Copy, PartialEq, Eq)]
pub enum RunEvent {
    /// `mark_call_started`: recorded strictly before the foreign body begins.
    Started,
    /// `mark_call_finished`: recorded strictly after the foreign call returned.
    Finished,
}

/// The state after one run-flag transition.
pub open spec fn apply_run_event(s: CollectorLoader, e: RunEvent) -> CollectorLoader {
    match e {
        RunEvent::Started => s.after_start(),
        RunEvent::Finished => s.after_finish(),
    }
}

/// The state after a whole sequence of run-flag transitions.
pub open spec fn apply_run_events(s: CollectorLoader, t: Seq<RunEvent>) -> CollectorLoader
    decreases t.len(),
{
    if t.len() == 0 {
        s
    } else {
        apply_run_event(apply_run_events(s, t.drop_last()), t.last())
    }
}

/// Over any sequence of run-flag transitions, the flag reports exactly
/// whether the last transition was a start: in particular it is never set
/// once the call it bracketed has been marked finished. No transition ever
/// touches the handle slot.
pub proof fn lemma_flag_tracks_last_event(s: CollectorLoader, t: Seq<RunEvent>)
    ensures
        apply_run_events(s, t).running() == if t.len() == 0 {
            s.running()
        } else {
            t.last() is Started
        },
        apply_run_events(s, t).loaded() == s.loaded(),
    decreases t.len(),
{
    if t.len() > 0 {
        lemma_flag_tracks_last_event(s, t.drop_last());
    }
}

/// What each open outcome reports: a missing path is `NotFound`, a rejected
/// object is `LoadFailure` with the loader's own diagnostic, a mapped object
/// succeeds.
pub open spec fn spec_load_result(event: LoadEvent) -> Result<(), LoadError> {
    match event {
        LoadEvent::Missing => Err(LoadError::NotFound),
        LoadEvent::Mapped => Ok(()),
        LoadEvent::Rejected(msg) => Err(LoadError::LoadFailure(msg)),
    }
}

/// A missing path never reaches the dynamic loader: for a path that does not
/// exist the planned step is `FailNotFound`, never `AttemptMapping`, and
/// recording that outcome reports `NotFound` while leaving the loader exactly
/// as it was.
pub proof fn lemma_missing_path_never_maps(s: CollectorLoader, exists: bool)
    requires
        !exists,
    ensures
        CollectorLoader::spec_plan_load(exists) is FailNotFound,
        spec_load_result(LoadEvent::Missing) == Err::<(), LoadError>(LoadError::NotFound),
        s.after_load(LoadEvent::Missing) == s,
{
}

} // verus!
