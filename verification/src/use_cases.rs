//! Read-side collaborators at the core's boundary. They answer queries
//! from a shared repository and never touch the registry's channel state.

use std::sync::Arc;

use vstd::prelude::*;

verus! {

/// A mission read model: holds a shared handle to whichever repository
/// implementation answers mission queries. The queries themselves are
/// I/O and live with the caller; the core only guarantees the handle is
/// kept as given.
pub struct MissionViewingUseCase<T> {
    pub repository: Arc<T>,
}

impl<T> MissionViewingUseCase<T> {
    pub fn new(repository: Arc<T>) -> (r: Self)
        ensures
            r.repository == repository,
    {
        Self { repository }
    }
}

} // verus!
