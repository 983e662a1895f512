//! The single in-memory slot for the secret that the hosted application
//! hands over. Callers that share it across tasks hold it behind one lock.
use vstd::prelude::*;

verus! {

/// Failure of the secret store.
#[derive(Debug, Clone, Copy, PartialEq, Eq, Structural)]
pub enum StorageError {
    /// The lock guarding the slot was poisoned by a panicking holder.
    LockFailed,
}

/// Exactly one optional secret; the last write wins.
pub struct CredentialRelay {
    slot: Option<String>,
}

impl CredentialRelay {
    /// What the slot holds, as characters.
    pub closed spec fn secret(&self) -> Option<Seq<char>> {
        match self.slot {
            Some(s) => Some(s@),
            None => None,
        }
    }

    pub fn new() -> (r: CredentialRelay)
        ensures
            r.secret() is None,
    {
        CredentialRelay { slot: None }
    }

    /// Overwrites the slot.
    pub fn set_secret(&mut self, value: Option<String>)
        ensures
            final(self).secret() == match value {
                Some(s) => Some(s@),
                None => None::<Seq<char>>,
            },
    {
        self.slot = value;
    }

    /// Returns a copy of what the slot holds.
    pub fn get_secret(&self) -> (r: Option<String>)
        ensures
            match r {
                Some(s) => self.secret() == Some(s@),
                None => self.secret() is None,
            },
    {
        match &self.slot {
            Some(s) => Some(s.clone()),
            None => None,
        }
    }
}

/// Outcome of a write through a lock: a poisoned lock gives `LockFailed`,
/// otherwise the write succeeded.
pub fn store_outcome(lock_acquired: bool) -> (r: Result<(), StorageError>)
    ensures
        lock_acquired <==> r is Ok,
        !lock_acquired ==> r == Err::<(), StorageError>(StorageError::LockFailed),
{
    if lock_acquired {
        Ok(())
    } else {
        Err(StorageError::LockFailed)
    }
}

} // verus!
