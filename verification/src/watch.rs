//! Startup decisions of the watcher lifecycle: validating the watch root
//! and fixing the set of directories to observe.

use vstd::prelude::*;

verus! {

/// The directories under observation: the root plus the immediate
/// subdirectories enumerated once at startup.  Static afterwards: the
/// design does not add watches for subdirectories created later.
#[derive(Debug)]
pub struct WatchSet {
    pub root: String,
    pub subdirs: Vec<String>,
}

impl WatchSet {
    /// Whether `path` is one of the watched directories.
    pub open spec fn watched(&self, path: Seq<char>) -> bool {
        ||| path == self.root@
        ||| exists|i: int|
            0 <= i < self.subdirs.deep_view().len() && self.subdirs.deep_view()[i] == path
    }
}

/// Why the watcher subsystem never started.  Fatal to the watcher only:
/// the consumer keeps running with a permanently empty log.
#[derive(Clone, Copy, PartialEq, Eq, Structural, Debug)]
pub enum InitError {
    /// The watch root does not exist.
    RootMissing,
    /// The OS watch facility could not be initialized.
    FacilityUnavailable,
    /// The facility refused the watch on the root itself.
    RootWatchFailed,
}

/// Fail-fast validation of the watch root: a missing root yields an error
/// and no watch set, so no thread is spawned and no watch is registered;
/// an existing root yields the watch set of the root and the enumerated
/// subdirectories, unchanged and in order.
pub fn plan_watches(root: String, root_exists: bool, subdirs: Vec<String>) -> (r: Result<
    WatchSet,
    InitError,
>)
    ensures
        root_exists ==> (r matches Ok(w) && w.root@ == root@ && w.subdirs.deep_view()
            == subdirs.deep_view()),
        root_exists ==> (r matches Ok(w) && forall|p: Seq<char>|
            w.watched(p) <==> (p == root@ || subdirs.deep_view().contains(p))),
        !root_exists ==> (r matches Err(e) && e == InitError::RootMissing),
{
    if root_exists {
        Ok(WatchSet { root, subdirs })
    } else {
        Err(InitError::RootMissing)
    }
}

/// Outcome of registering the root watch: the adapter aborts entirely when
/// the facility could not be initialized or the root watch was refused, and
/// proceeds otherwise.  (A refused subdirectory watch, by contrast, is
/// skipped by the caller and watching continues.)
pub fn confirm_registration(facility_ok: bool, root_watch_ok: bool) -> (r: Result<
    (),
    InitError,
>)
    ensures
        r is Ok <==> (facility_ok && root_watch_ok),
        !facility_ok ==> (r matches Err(e) && e == InitError::FacilityUnavailable),
        facility_ok && !root_watch_ok ==> (r matches Err(e) && e == InitError::RootWatchFailed),
{
    if !facility_ok {
        Err(InitError::FacilityUnavailable)
    } else if !root_watch_ok {
        Err(InitError::RootWatchFailed)
    } else {
        Ok(())
    }
}

} // verus!
