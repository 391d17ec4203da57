use vstd::prelude::*;

verus! {

use crate::token_map::TokenMap;

/// One authenticated principal, tracked under an opaque session token.
///
/// The session is logically valid only while `expiration` lies strictly in
/// the future; every successful validation pushes `expiration` forward by
/// the registry's window (sliding expiration).
#[derive(Clone, Copy, Debug)]
pub struct Session {
    pub user_id: i32,
    pub expiration: u64,
}

/// What a validation of token `t` against registry state `m` at time `now`
/// answers: the principal behind `t`, if `t` is present and not yet expired.
pub open spec fn validate_spec(m: Map<Seq<char>, Session>, t: Seq<char>, now: u64) -> Option<
    i32,
> {
    if m.contains_key(t) && m[t].expiration > now {
        Some(m[t].user_id)
    } else {
        None
    }
}

/// The registry state restricted to the sessions still alive at `now`:
/// what a sweep at `now` leaves behind.
pub open spec fn live_sessions(m: Map<Seq<char>, Session>, now: u64) -> Map<Seq<char>, Session> {
    Map::new(|t: Seq<char>| m.contains_key(t) && m[t].expiration > now, |t: Seq<char>| m[t])
}

/// Relies on `uuid::Uuid::new_v4` and its `Display` impl: a fresh random
/// identifier, rendered in the 36-character hyphenated form. Nothing more
/// is assumed of the value; in particular not that it is unused.
#[verifier::external_body]
fn fresh_token() -> (r: String)
    ensures
        r@.len() == 36,
{
    uuid::Uuid::new_v4().to_string()
}

/// The session registry: authorizes requests by opaque token with a sliding
/// expiration window. Its view is the map from token to session.
pub struct SessionManager {
    sessions: TokenMap<Session>,
    duration: u64,
}

impl View for SessionManager {
    type V = Map<Seq<char>, Session>;

    closed spec fn view(&self) -> Map<Seq<char>, Session> {
        self.sessions@
    }
}

impl SessionManager {
    /// The sliding-expiration window, and also the sweep period.
    pub closed spec fn window(&self) -> u64 {
        self.duration
    }

    pub closed spec fn wf(&self) -> bool {
        self.sessions.wf()
    }

    /// An empty registry with the given expiration window.
    pub fn build(duration: u64) -> (r: SessionManager)
        ensures
            r.wf(),
            r@ == Map::<Seq<char>, Session>::empty(),
            r.window() == duration,
    {
        SessionManager { sessions: TokenMap::new(), duration }
    }

    /// The single authorization primitive: look the token up and, in the
    /// same step, extend its expiry to `now + window`. An absent or already
    /// expired token is refused and the registry is left unchanged.
    pub fn check_session(&mut self, session_id: &str, now: u64) -> (r: Option<i32>)
        requires
            old(self).wf(),
            now + old(self).window() <= u64::MAX,
        ensures
            final(self).wf(),
            final(self).window() == old(self).window(),
            r == validate_spec(old(self)@, session_id@, now),
            r is Some ==> final(self)@ == old(self)@.insert(
                session_id@,
                Session {
                    user_id: old(self)@[session_id@].user_id,
                    expiration: (now + old(self).window()) as u64,
                },
            ),
            r is None ==> final(self)@ == old(self)@,
    {
        let key: String = session_id.to_owned();
        match self.sessions.get(&key) {
            Some(session) => {
                let s = *session;
                if s.expiration > now {
                    self.sessions.insert(
                        key,
                        Session { user_id: s.user_id, expiration: now + self.duration },
                    );
                    Some(s.user_id)
                } else {
                    None
                }
            },
            None => None,
        }
    }

    /// Create a session for `user_id` under a fresh token, already owning a
    /// full expiration window, and hand the token back.
    pub fn new_session(&mut self, user_id: i32, now: u64) -> (token: String)
        requires
            old(self).wf(),
            now + old(self).window() <= u64::MAX,
        ensures
            final(self).wf(),
            final(self).window() == old(self).window(),
            final(self)@ == old(self)@.insert(
                token@,
                Session { user_id, expiration: (now + old(self).window()) as u64 },
            ),
            token@.len() == 36,
    {
        let token = fresh_token();
        self.sessions.insert(
            token.clone(),
            Session { user_id, expiration: now + self.duration },
        );
        token
    }

    /// Bind an externally chosen token to `user_id`, with a full window.
    pub fn update_session(&mut self, session_id: String, user_id: i32, now: u64)
        requires
            old(self).wf(),
            now + old(self).window() <= u64::MAX,
        ensures
            final(self).wf(),
            final(self).window() == old(self).window(),
            final(self)@ == old(self)@.insert(
                session_id@,
                Session { user_id, expiration: (now + old(self).window()) as u64 },
            ),
    {
        let exp = now + self.duration;
        self.sessions.insert(session_id, Session { user_id, expiration: exp });
    }

    /// Remove the session unconditionally (logout); removing an absent
    /// token is a no-op.
    pub fn delete_session(&mut self, session_id: &str)
        requires
            old(self).wf(),
        ensures
            final(self).wf(),
            final(self).window() == old(self).window(),
            final(self)@ == old(self)@.remove(session_id@),
    {
        let key: String = session_id.to_owned();
        let _ = self.sessions.remove(&key);
    }

    /// One pass of the periodic checker: drop every session whose expiry
    /// has been reached, keep every live one.
    pub fn sweep_expired(&mut self, now: u64)
        requires
            old(self).wf(),
        ensures
            final(self).wf(),
            final(self).window() == old(self).window(),
            final(self)@ == live_sessions(old(self)@, now),
    {
        let ghost m0 = self@;
        let mut i: usize = 0;
        while i < self.sessions.entry_len()
            invariant
                self.sessions.wf(),
                self.duration == old(self).duration,
                i <= self.sessions.num_entries(),
                forall|j: int|
                    0 <= j < i ==> self.sessions.spec_value_at(j).expiration > now,
                forall|t: Seq<char>|
                    #[trigger] self.sessions@.contains_key(t) ==> m0.contains_key(t)
                        && self.sessions@[t] == m0[t],
                forall|t: Seq<char>|
                    #[trigger] m0.contains_key(t) && m0[t].expiration > now
                        ==> self.sessions@.contains_key(t),
            decreases self.sessions.num_entries() - i,
        {
            let exp = self.sessions.value_at(i).expiration;
            if exp <= now {
                let ghost mcur = self.sessions@;
                let ghost tk = self.sessions.token_at(i as int);
                proof {
                    self.sessions.lemma_entry_in_view(i as int);
                }
                self.sessions.remove_at(i);
                proof {
                    assert(self.sessions@ == mcur.remove(tk));
                    assert forall|t: Seq<char>|
                        self.sessions@.contains_key(t) implies m0.contains_key(t)
                        && self.sessions@[t] == m0[t] by {
                        assert(t != tk);
                        assert(mcur.contains_key(t) && self.sessions@[t] == mcur[t]);
                        assert(m0.contains_key(t) && m0[t] == mcur[t]);
                    }
                    assert(mcur[tk].expiration <= now);
                    assert forall|t: Seq<char>|
                        m0.contains_key(t) && m0[t].expiration > now
                            implies self.sessions@.contains_key(t) by {
                        assert(mcur.contains_key(t) && mcur[t] == m0[t]);
                        assert(t != tk);
                    }
                }
            } else {
                i = i + 1;
            }
        }
        proof {
            assert forall|t: Seq<char>|
                self.sessions@.contains_key(t) implies (m0.contains_key(t) && m0[t].expiration
                    > now && self.sessions@[t] == m0[t]) by {
                self.sessions.lemma_view_to_entry(t);
                let j = choose|j: int|
                    0 <= j < self.sessions.num_entries() && self.sessions.token_at(j) == t
                        && self.sessions.spec_value_at(j) == self.sessions@[t];
                assert(self.sessions.spec_value_at(j).expiration > now);
                assert(m0.contains_key(t) && m0[t] == self.sessions@[t]);
            }
            assert(self.sessions@ =~= live_sessions(m0, now));
        }
    }

    /// The shutdown contract is "drop state": clear the whole registry.
    pub fn clear_all(&mut self)
        ensures
            final(self).wf(),
            final(self).window() == old(self).window(),
            final(self)@ == Map::<Seq<char>, Session>::empty(),
    {
        self.sessions.clear();
    }
}

/// Sliding expiration: after a create or a successful validation at time
/// `t0` stamped the session with expiry `t0 + window`, a validation within
/// the window succeeds and answers the session's principal, and one at or
/// past the window's end fails.
pub proof fn lemma_sliding_window(
    m: Map<Seq<char>, Session>,
    t: Seq<char>,
    window: u64,
    t0: u64,
    t1: u64,
)
    requires
        m.contains_key(t),
        m[t].expiration == t0 + window,
    ensures
        t1 < t0 + window ==> validate_spec(m, t, t1) == Some(m[t].user_id),
        t1 >= t0 + window ==> validate_spec(m, t, t1) is None,
{
}

/// After the registry is cleared, every validation fails, whatever token
/// and time it is tried with.
pub proof fn lemma_cleared_registry_refuses(t: Seq<char>, now: u64)
    ensures
        validate_spec(Map::<Seq<char>, Session>::empty(), t, now) is None,
{
}

} // verus!
