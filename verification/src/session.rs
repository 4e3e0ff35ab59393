//! The session controller: the state machine that guarantees at most one
//! active capture session and mediates start, stop and kill requests.
//!
//! The controller decides; the host performs. Each transition returns
//! what the host must do with its threads and cancellation channel
//! (spawn a capture thread, or signal the old one and wait for it first),
//! and the host hands the finalized log back to [`SessionController::stop`]
//! once the capture thread has returned it. The controller itself never
//! touches a thread, so every decision it makes is checked here.

use vstd::prelude::*;
use crate::errors::SessionError;
use crate::recording::Recording;

verus! {

/// Where the controller stands: no session, a listening session (events
/// are decoded and delivered, nothing is kept), or a recording session
/// (listening while a log is built).
#[derive(Clone, Copy, Debug, PartialEq, Eq, Structural)]
pub enum SessionStatus {
    Idle,
    Listening,
    Recording,
}

/// Owns the session state and the named-recording store: a mapping from
/// name to finalized log where the last write for a name wins, kept for
/// the life of the process.
pub struct SessionController {
    status: SessionStatus,
    recordings: Vec<(String, Recording)>,
}

impl SessionController {
    /// The named-recording store that a sequence of entries denotes:
    /// later entries override earlier ones of the same name.
    pub closed spec fn store_of(entries: Seq<(String, Recording)>) -> Map<
        Seq<char>,
        Seq<(u64, Seq<u8>)>,
    >
        decreases entries.len(),
    {
        if entries.len() == 0 {
            Map::empty()
        } else {
            Self::store_of(entries.drop_last()).insert(
                entries.last().0@,
                entries.last().1@,
            )
        }
    }

    /// The controller's current state.
    pub closed spec fn spec_status(self) -> SessionStatus {
        self.status
    }

    /// The named-recording store, as a map from name to log contents.
    pub closed spec fn store(self) -> Map<Seq<char>, Seq<(u64, Seq<u8>)>> {
        Self::store_of(self.recordings@)
    }

    /// A fresh controller: idle, with an empty store.
    pub fn new() -> (r: Self)
        ensures
            r.spec_status() == SessionStatus::Idle,
            r.store() == Map::<Seq<char>, Seq<(u64, Seq<u8>)>>::empty(),
    {
        Self { status: SessionStatus::Idle, recordings: Vec::new() }
    }

    /// Pure query: where the controller stands. Idle before any start and
    /// immediately after any stop or kill; an active state otherwise.
    pub fn status(&self) -> (r: SessionStatus)
        ensures
            r == self.spec_status(),
    {
        self.status
    }

    /// Whether a session is currently active.
    pub fn is_active(&self) -> (r: bool)
        ensures
            r == (self.spec_status() != SessionStatus::Idle),
    {
        match self.status {
            SessionStatus::Idle => false,
            _ => true,
        }
    }

    /// Ask for a listening session. Granted only when idle: the host must
    /// then spawn the capture thread. When a session is already active,
    /// this is a no-op that reports failure — the existing session is not
    /// preempted, and nothing of the controller changes.
    pub fn start_listen(&mut self) -> (granted: bool)
        ensures
            old(self).spec_status() == SessionStatus::Idle ==> granted
                && final(self).spec_status() == SessionStatus::Listening
                && final(self).store() == old(self).store(),
            old(self).spec_status() != SessionStatus::Idle ==> !granted
                && *final(self) == *old(self),
    {
        match self.status {
            SessionStatus::Idle => {
                self.status = SessionStatus::Listening;
                true
            },
            _ => false,
        }
    }

    /// Ask for a recording session. Always granted: when a session is
    /// already active the request reports that the host must first signal
    /// it and wait for its thread to exit — the single-session rule —
    /// before spawning the new capture thread with recording enabled.
    pub fn start_record(&mut self) -> (killed_prior: bool)
        ensures
            final(self).spec_status() == SessionStatus::Recording,
            final(self).store() == old(self).store(),
            killed_prior == (old(self).spec_status() != SessionStatus::Idle),
    {
        let killed_prior = match self.status {
            SessionStatus::Idle => false,
            _ => true,
        };
        self.status = SessionStatus::Recording;
        killed_prior
    }

    /// Serve a stop request with the finalized log the capture thread
    /// handed back: store it under the given name — overwriting any prior
    /// recording of that name — and return to idle. Anywhere but in a
    /// recording session the request is refused and nothing changes.
    pub fn stop(&mut self, name: String, log: Recording) -> (r: Result<(), SessionError>)
        ensures
            old(self).spec_status() == SessionStatus::Recording ==> r == Ok::<(), SessionError>(())
                && final(self).spec_status() == SessionStatus::Idle
                && final(self).store() == old(self).store().insert(name@, log@),
            old(self).spec_status() != SessionStatus::Recording ==> r == Err::<(), SessionError>(
                SessionError::NoActiveRecording,
            ) && *final(self) == *old(self),
    {
        match self.status {
            SessionStatus::Recording => {
                let ghost entry = (name, log);
                self.recordings.push((name, log));
                self.status = SessionStatus::Idle;
                proof {
                    assert(self.recordings@.drop_last() =~= old(self).recordings@);
                    assert(self.recordings@.last() == entry);
                }
                Ok(())
            },
            _ => Err(SessionError::NoActiveRecording),
        }
    }

    /// Serve a kill request: whatever session is active, it is torn down
    /// — the host signals the thread, waits for it, and discards any
    /// partial log — and the controller returns to idle. The store is
    /// untouched. A no-op when idle.
    pub fn kill(&mut self) -> (was_active: bool)
        ensures
            final(self).spec_status() == SessionStatus::Idle,
            final(self).store() == old(self).store(),
            was_active == (old(self).spec_status() != SessionStatus::Idle),
    {
        let was_active = match self.status {
            SessionStatus::Idle => false,
            _ => true,
        };
        self.status = SessionStatus::Idle;
        was_active
    }

    /// Look a finalized recording up by name: the stored log for a name
    /// the store holds, nothing for any other name.
    pub fn lookup(&self, name: &String) -> (r: Option<&Recording>)
        ensures
            r matches Some(rec) ==> self.store().contains_key(name@) && rec@ == self.store()[
                name@
            ],
            r is None ==> !self.store().contains_key(name@),
    {
        proof {
            assert(self.recordings@.take(self.recordings@.len() as int) =~= self.recordings@);
        }
        let mut i: usize = self.recordings.len();
        while i > 0
            invariant
                i <= self.recordings@.len(),
                self.store().contains_key(name@) == Self::store_of(
                    self.recordings@.take(i as int),
                ).contains_key(name@),
                self.store().contains_key(name@) ==> self.store()[name@] == Self::store_of(
                    self.recordings@.take(i as int),
                )[name@],
            decreases i,
        {
            proof {
                assert(self.recordings@.take(i as int).drop_last() =~= self.recordings@.take(
                    i as int - 1,
                ));
                assert(self.recordings@.take(i as int).last() == self.recordings@[i as int - 1]);
            }
            let entry = &self.recordings[i - 1];
            if entry.0 == *name {
                return Some(&entry.1);
            }
            i -= 1;
        }
        proof {
            assert(self.recordings@.take(0) =~= Seq::<(String, Recording)>::empty());
        }
        None
    }
}

} // verus!
