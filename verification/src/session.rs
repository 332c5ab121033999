use vstd::prelude::*;
use std::collections::HashMap;

use crate::errors::AuthError;

verus! {

broadcast use vstd::std_specs::hash::group_hash_axioms;

/// How long a session stays usable after creation, in seconds. Kept short:
/// the login page offers no logout, so a lingering session would sign the
/// next user of a shared machine in again.
pub const SESSION_EXPIRY_IN_SECONDS: u64 = 900;

/// Per-session verification state.
///
/// The state machine runs `channel` unset -> `channel` set (awaiting the
/// join) -> `identity` bound. `identity` is only ever bound once, and
/// `notified` records that the one-time disposal notice for the channel
/// was already requested.
#[derive(Clone, Copy, Debug, PartialEq, Eq)]
pub struct Session {
    /// The verification channel created for this session, once one exists.
    pub channel: Option<u32>,
    /// The external identity bound on the first observed join.
    pub identity: Option<u32>,
    /// Whether the one-time disposal notice was already requested.
    pub notified: bool,
    /// The instant, in seconds, at which the session stops being usable.
    pub expires_at: u64,
}

impl Session {
    /// An identity is bound only after a channel exists, and a notice is
    /// only sent for a bound identity.
    pub open spec fn wf(self) -> bool {
        &&& self.identity is Some ==> self.channel is Some
        &&& self.notified ==> self.identity is Some
    }

    /// A session is expired from its expiry instant on.
    pub open spec fn spec_expired(self, now: u64) -> bool {
        now >= self.expires_at
    }

    /// The expiry instant for a session created at `now`, saturating at the
    /// end of representable time.
    pub open spec fn spec_expiry_from(now: u64) -> u64 {
        if now + SESSION_EXPIRY_IN_SECONDS <= u64::MAX {
            (now + SESSION_EXPIRY_IN_SECONDS) as u64
        } else {
            u64::MAX
        }
    }

    /// The state of a fresh, unverified session created at instant `now`.
    pub open spec fn begin_spec(now: u64) -> Session {
        Session {
            channel: None,
            identity: None,
            notified: false,
            expires_at: Session::spec_expiry_from(now),
        }
    }

    /// A fresh, unverified session created at instant `now`.
    pub fn begin(now: u64) -> (s: Session)
        ensures
            s == Session::begin_spec(now),
            s.wf(),
    {
        let expires_at: u64 = if now <= u64::MAX - SESSION_EXPIRY_IN_SECONDS {
            now + SESSION_EXPIRY_IN_SECONDS
        } else {
            u64::MAX
        };
        Session { channel: None, identity: None, notified: false, expires_at }
    }

    pub fn expired(&self, now: u64) -> (r: bool)
        ensures
            r == self.spec_expired(now),
    {
        now >= self.expires_at
    }
}

/// The process-lifetime session store: an opaque handle for each live
/// session. Handles are never reused; values do not survive a restart.
pub struct SessionStore {
    sessions: HashMap<u64, Session>,
    next_handle: u64,
}

impl View for SessionStore {
    type V = Map<u64, Session>;

    closed spec fn view(&self) -> Map<u64, Session> {
        self.sessions@
    }
}

impl SessionStore {
    /// Every live handle was handed out before `next_handle`, so a newly
    /// minted handle never collides with a live one.
    pub closed spec fn wf(self) -> bool {
        forall|h: u64| self.sessions@.contains_key(h) ==> h < self.next_handle
    }

    /// Whether a handle can still be minted; only an astronomically long
    /// run exhausts the space.
    pub closed spec fn can_create(self) -> bool {
        self.next_handle < u64::MAX
    }

    pub fn new() -> (store: SessionStore)
        ensures
            store.wf(),
            store@ == Map::<u64, Session>::empty(),
            store.can_create(),
    {
        let store = SessionStore { sessions: HashMap::new(), next_handle: 0 };
        proof {
            assert(store@ =~= Map::<u64, Session>::empty());
        }
        store
    }

    /// Creates a fresh session expiring `SESSION_EXPIRY_IN_SECONDS` after
    /// `now` and returns its handle; `None` only when the handle space is
    /// exhausted.
    pub fn create(&mut self, now: u64) -> (h: Option<u64>)
        requires
            old(self).wf(),
        ensures
            final(self).wf(),
            (h is Some) <==> old(self).can_create(),
            match h {
                Some(handle) => {
                    &&& !old(self)@.contains_key(handle)
                    &&& final(self)@ == old(self)@.insert(handle, Session::begin_spec(now))
                },
                None => final(self)@ == old(self)@,
            },
    {
        if self.next_handle == u64::MAX {
            return None;
        }
        let handle = self.next_handle;
        self.next_handle = self.next_handle + 1;
        let session = Session::begin(now);
        self.sessions.insert(handle, session);
        Some(handle)
    }

    /// Looks a session up; a missing handle reads as `NotReady`, a session
    /// past its expiry as `SessionExpired`.
    pub fn lookup(&self, handle: u64, now: u64) -> (r: Result<Session, AuthError>)
        ensures
            match r {
                Ok(s) => self@.contains_key(handle) && s == self@[handle] && !s.spec_expired(now),
                Err(e) => {
                    &&& !self@.contains_key(handle) ==> e == AuthError::NotReady
                    &&& self@.contains_key(handle) ==> e == AuthError::SessionExpired
                        && self@[handle].spec_expired(now)
                },
            },
    {
        match self.sessions.get(&handle) {
            Some(session) => {
                if session.expired(now) {
                    Err(AuthError::SessionExpired)
                } else {
                    Ok(*session)
                }
            },
            None => Err(AuthError::NotReady),
        }
    }

    /// Writes an updated state back under a live handle.
    pub fn save(&mut self, handle: u64, session: Session)
        requires
            old(self).wf(),
            old(self)@.contains_key(handle),
        ensures
            final(self).wf(),
            final(self)@ == old(self)@.insert(handle, session),
    {
        self.sessions.insert(handle, session);
    }

    /// Drops a session; afterwards the handle reads as `NotReady`.
    pub fn expire(&mut self, handle: u64)
        requires
            old(self).wf(),
        ensures
            final(self).wf(),
            final(self)@ == old(self)@.remove(handle),
    {
        self.sessions.remove(&handle);
    }
}

} // verus!
