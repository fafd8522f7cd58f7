use vstd::prelude::*;
use crate::errors::{CreateStorageError, SetupStorageError};

verus! {

/// The instance held after a construction attempt: an instance already held
/// is kept; otherwise a successful construction is taken and a failed one
/// leaves nothing behind.
pub open spec fn after_construction<T>(held: Option<T>, built: Result<T, CreateStorageError>) -> Option<T> {
    match held {
        Some(t) => Some(t),
        None => match built {
            Ok(t) => Some(t),
            Err(_) => None,
        },
    }
}

/// Holds the one shared instance of the process, built lazily on first
/// access.
pub struct Lifecycle<T> {
    instance: Option<T>,
}

impl<T> Lifecycle<T> {
    /// The instance held, if any.
    pub closed spec fn held(&self) -> Option<T> {
        self.instance
    }

    /// A holder with no instance yet.
    pub fn new() -> (r: Lifecycle<T>)
        ensures
            r.held() is None,
    {
        Lifecycle { instance: None }
    }

    /// Whether an access must construct the instance first.
    pub fn needs_construction(&self) -> (r: bool)
        ensures
            r == self.held() is None,
    {
        self.instance.is_none()
    }

    /// Records the result of a construction. When an instance is already
    /// held it stays, and the new one is refused with `AlreadyInitialized`.
    /// A failed construction keeps no partial state, so a later access
    /// retries from a clean slate.
    pub fn complete(&mut self, built: Result<T, CreateStorageError>) -> (r: Result<(), SetupStorageError>)
        ensures
            final(self).held() == after_construction(old(self).held(), built),
            old(self).held() is Some ==> r == Err::<(), SetupStorageError>(
                SetupStorageError::AlreadyInitialized,
            ),
            old(self).held() is None ==> match built {
                Ok(_) => r is Ok,
                Err(e) => r == Err::<(), SetupStorageError>(
                    SetupStorageError::CreateStorageError(e),
                ),
            },
    {
        if self.instance.is_some() {
            return Err(SetupStorageError::AlreadyInitialized);
        }
        match built {
            Ok(t) => {
                self.instance = Some(t);
                Ok(())
            },
            Err(e) => Err(SetupStorageError::CreateStorageError(e)),
        }
    }

    /// The instance held, if any.
    pub fn get(&self) -> (r: Option<&T>)
        ensures
            match r {
                Some(t) => self.held() == Some(*t),
                None => self.held() is None,
            },
    {
        match &self.instance {
            Some(t) => Some(t),
            None => None,
        }
    }
}

/// Once an instance is held, no later construction replaces it: every
/// access after the first successful one sees that same instance.
pub proof fn lemma_single_instance<T>(
    first: T,
    later: Seq<Result<T, CreateStorageError>>,
    held: Option<T>,
)
    requires
        held == after_construction(None, Ok::<T, CreateStorageError>(first)),
    ensures
        later.fold_left(held, |h: Option<T>, b: Result<T, CreateStorageError>| after_construction(h, b))
            == Some(first),
    decreases later.len(),
{
    if later.len() > 0 {
        let f = |h: Option<T>, b: Result<T, CreateStorageError>| after_construction(h, b);
        lemma_single_instance(first, later.drop_last(), held);
        assert(later.fold_left(held, f) == f(later.drop_last().fold_left(held, f), later.last()));
    }
}

} // verus!
