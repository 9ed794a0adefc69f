//! Sessions and the store that holds them.
use vstd::prelude::*;
use crate::error::Error;
use crate::keyed::KeyedList;
use crate::clock::unix_now_secs;
use dashmap::DashMap;

verus! {

/// Relies on `uuid::Uuid::new_v4`: a random version 4 UUID, as its 128-bit
/// value. Nothing is promised of it.
#[verifier::external_body]
fn random_uuid_value() -> (r: u128) {
    uuid::Uuid::new_v4().as_u128()
}

/// A lower-case hexadecimal digit.
pub open spec fn hex_digit(d: nat) -> char {
    if d < 10 {
        crate::display::digit(d)
    } else if d == 10 {
        'a'
    } else if d == 11 {
        'b'
    } else if d == 12 {
        'c'
    } else if d == 13 {
        'd'
    } else if d == 14 {
        'e'
    } else {
        'f'
    }
}

/// The last `n` hexadecimal digits of a number, most significant first.
pub open spec fn hex_digits(v: nat, n: nat) -> Seq<char>
    decreases n,
{
    if n == 0 {
        Seq::empty()
    } else {
        hex_digits(v / 16, (n - 1) as nat).push(hex_digit(v % 16))
    }
}

/// The hyphenated lower-case text of the UUID with this 128-bit value: 32
/// hexadecimal digits in groups of 8, 4, 4, 4 and 12.
pub open spec fn uuid_text(v: u128) -> Seq<char> {
    let h = hex_digits(v as nat, 32);
    h.subrange(0, 8) + seq!['-'] + h.subrange(8, 12) + seq!['-'] + h.subrange(12, 16) + seq!['-']
        + h.subrange(16, 20) + seq!['-'] + h.subrange(20, 32)
}

/// Relies on `uuid::Uuid::from_u128` and the `Display` of `uuid::Uuid`: the
/// hyphenated lower-case text of a UUID.
#[verifier::external_body]
fn uuid_to_text(v: u128) -> (r: String)
    ensures
        r@ == uuid_text(v),
{
    uuid::Uuid::from_u128(v).to_string()
}

/// Identifier of a session: the value of a UUID.
#[derive(Debug, Clone, Copy, PartialEq, Eq, Hash, Structural)]
pub struct SessionId(pub u128);

impl SessionId {
    /// A new random session id.
    pub fn new() -> (r: SessionId) {
        SessionId(random_uuid_value())
    }

    /// The session id with this UUID value.
    pub fn from_value(v: u128) -> (r: SessionId)
        ensures
            r.0 == v,
    {
        SessionId(v)
    }

    /// The UUID value of the id.
    pub fn value(self) -> (r: u128)
        ensures
            r == self.0,
    {
        self.0
    }

    /// The hyphenated text of the id.
    pub fn to_text(&self) -> (r: String)
        ensures
            r@ == uuid_text(self.0),
    {
        uuid_to_text(self.0)
    }
}

/// What a session holds.
pub struct SessionView {
    pub id: SessionId,
    pub script_hash: Seq<char>,
    pub reruns: u32,
    pub metadata: Map<Seq<char>, String>,
    pub created_at: u64,
    pub last_activity: u64,
}

/// A user session.
pub struct Session {
    /// Unique session identifier.
    pub id: SessionId,
    /// Hash of the current script.
    pub script_hash: String,
    /// Number of script reruns.
    pub reruns: u32,
    /// Session metadata.
    pub metadata: KeyedList<String>,
    /// Creation time (Unix seconds).
    pub created_at: u64,
    /// Last activity time (Unix seconds).
    pub last_activity: u64,
}

impl View for Session {
    type V = SessionView;

    open spec fn view(&self) -> SessionView {
        SessionView {
            id: self.id,
            script_hash: self.script_hash@,
            reruns: self.reruns,
            metadata: self.metadata@,
            created_at: self.created_at,
            last_activity: self.last_activity,
        }
    }
}

impl Clone for Session {
    fn clone(&self) -> (r: Self)
        ensures
            r@ == self@,
    {
        Session {
            id: self.id,
            script_hash: self.script_hash.clone(),
            reruns: self.reruns,
            metadata: self.metadata.duplicate(),
            created_at: self.created_at,
            last_activity: self.last_activity,
        }
    }
}

/// Whether a session saw no activity for more than `timeout` seconds at time `now`.
pub open spec fn stale(s: SessionView, now: u64, timeout: u64) -> bool {
    now >= s.last_activity && now - s.last_activity > timeout
}

impl Session {
    /// A new session created at `now` under the given id.
    pub fn new_at(script_hash: String, id: SessionId, now: u64) -> (r: Session)
        ensures
            r@ == (SessionView {
                id,
                script_hash: script_hash@,
                reruns: 0,
                metadata: Map::<Seq<char>, String>::empty(),
                created_at: now,
                last_activity: now,
            }),
    {
        Session {
            id,
            script_hash,
            reruns: 0,
            metadata: KeyedList::new(),
            created_at: now,
            last_activity: now,
        }
    }

    /// A new session with a random id, created now.
    pub fn new(script_hash: String) -> (r: Session)
        ensures
            r@.script_hash == script_hash@,
            r@.reruns == 0,
            r@.metadata == Map::<Seq<char>, String>::empty(),
            r@.created_at == r@.last_activity,
    {
        let id = SessionId::new();
        let now = unix_now_secs();
        Session::new_at(script_hash, id, now)
    }

    /// Count one more rerun (staying at the largest count once there) and
    /// record activity at `now`.
    pub fn increment_reruns_at(&mut self, now: u64)
        ensures
            final(self)@ == (SessionView {
                reruns: if old(self).reruns < u32::MAX {
                    (old(self).reruns + 1) as u32
                } else {
                    old(self).reruns
                },
                last_activity: now,
                ..old(self)@
            }),
    {
        if self.reruns < u32::MAX {
            self.reruns = self.reruns + 1;
        }
        self.last_activity = now;
    }

    /// Count one more rerun and record activity now.
    pub fn increment_reruns(&mut self)
        ensures
            final(self)@.reruns == if old(self).reruns < u32::MAX {
                (old(self).reruns + 1) as u32
            } else {
                old(self).reruns
            },
            final(self)@.id == old(self)@.id,
            final(self)@.script_hash == old(self)@.script_hash,
            final(self)@.metadata == old(self)@.metadata,
            final(self)@.created_at == old(self)@.created_at,
    {
        let now = unix_now_secs();
        self.increment_reruns_at(now);
    }

    /// Record activity now.
    pub fn update_activity(&mut self)
        ensures
            final(self)@.reruns == old(self)@.reruns,
            final(self)@.id == old(self)@.id,
            final(self)@.script_hash == old(self)@.script_hash,
            final(self)@.metadata == old(self)@.metadata,
            final(self)@.created_at == old(self)@.created_at,
    {
        self.last_activity = unix_now_secs();
    }

    /// Set a metadata value.
    pub fn set_metadata(&mut self, key: String, value: String)
        ensures
            final(self)@ == (SessionView {
                metadata: old(self)@.metadata.insert(key@, value),
                ..old(self)@
            }),
    {
        self.metadata.insert(key, value);
    }

    /// A metadata value, if set.
    pub fn get_metadata(&self, key: &str) -> (r: Option<&str>)
        ensures
            r.is_some() == self@.metadata.contains_key(key@),
            r.is_some() ==> r.unwrap()@ == self@.metadata[key@]@,
    {
        match self.metadata.get(key) {
            Some(v) => Some(v.as_str()),
            None => None,
        }
    }

    /// Whether the session saw no activity for more than `timeout_secs` at `now`.
    pub fn is_stale_at(&self, now: u64, timeout_secs: u64) -> (r: bool)
        ensures
            r == stale(self@, now, timeout_secs),
    {
        now >= self.last_activity && now - self.last_activity > timeout_secs
    }

    /// Whether the session saw activity within `timeout_secs` of `now`.
    pub fn is_fresh_at(&self, now: u64, timeout_secs: u64) -> (r: bool)
        ensures
            r == !stale(self@, now, timeout_secs),
    {
        !self.is_stale_at(now, timeout_secs)
    }

    /// Whether the session saw no activity for more than `timeout_secs` now.
    pub fn is_stale(&self, timeout_secs: u64) -> (r: bool) {
        let now = unix_now_secs();
        self.is_stale_at(now, timeout_secs)
    }
}

#[verifier::external_type_specification]
#[verifier::external_body]
#[verifier::reject_recursive_types(K)]
#[verifier::reject_recursive_types(V)]
#[verifier::reject_recursive_types(S)]
pub struct ExDashMap<K, V, S>(DashMap<K, V, S>);

/// A concurrent map from session id values to sessions.
pub type SessionMap = DashMap<u128, Session>;

/// The sessions a concurrent map holds, by id value.
pub uninterp spec fn session_entries(m: SessionMap) -> Map<u128, Session>;

/// The empty map of sessions.
pub open spec fn no_sessions() -> Map<u128, Session> {
    Map::empty()
}

/// Relies on `dashmap::DashMap::new`: an empty map.
#[verifier::external_body]
fn sessions_new() -> (r: SessionMap)
    ensures
        session_entries(r) == no_sessions(),
{
    DashMap::new()
}

/// Relies on `dashmap::DashMap::insert`: the key then maps to the value,
/// replacing any earlier one.
#[verifier::external_body]
fn sessions_insert(m: &mut SessionMap, k: u128, v: Session)
    ensures
        session_entries(*final(m)) == session_entries(*old(m)).insert(k, v),
{
    m.insert(k, v);
}

/// Relies on `dashmap::DashMap::remove`: the key is then absent.
#[verifier::external_body]
fn sessions_remove(m: &mut SessionMap, k: u128)
    ensures
        session_entries(*final(m)) == session_entries(*old(m)).remove(k),
{
    m.remove(&k);
}

/// Relies on `dashmap::DashMap::get`: a copy of the session under the key,
/// if present.
#[verifier::external_body]
fn sessions_get(m: &SessionMap, k: u128) -> (r: Option<Session>)
    ensures
        r.is_some() == session_entries(*m).contains_key(k),
        r.is_some() ==> r.unwrap()@ == session_entries(*m)[k]@,
{
    m.get(&k).map(|e| e.value().clone())
}

/// Relies on `dashmap::DashMap::len`: the number of entries.
#[verifier::external_body]
fn sessions_len(m: &SessionMap) -> (r: usize)
    ensures
        r == session_entries(*m).len(),
{
    m.len()
}

/// Relies on `dashmap::DashMap::iter`: a copy of every entry, each once, in
/// an order the map chooses.
#[verifier::external_body]
fn sessions_all(m: &SessionMap) -> (r: Vec<(u128, Session)>)
    ensures
        forall|i: int|
            0 <= i < r@.len() ==> session_entries(*m).contains_key((#[trigger] r@[i]).0)
                && r@[i].1@ == session_entries(*m)[r@[i].0]@,
        forall|k: u128|
            #[trigger] session_entries(*m).contains_key(k) ==> exists|i: int|
                0 <= i < r@.len() && #[trigger] r@[i].0 == k,
        forall|i: int, j: int| 0 <= i < j < r@.len() ==> (#[trigger] r@[i]).0 != (#[trigger] r@[j]).0,
{
    m.iter().map(|e| (*e.key(), e.value().clone())).collect()
}

/// Relies on `dashmap::DashMap::retain`: keeps exactly the sessions that are
/// not stale at `now`.
#[verifier::external_body]
fn sessions_retain_fresh(m: &mut SessionMap, now: u64, timeout: u64)
    ensures
        forall|k: u128|
            #[trigger] session_entries(*final(m)).contains_key(k) == (session_entries(
                *old(m),
            ).contains_key(k) && !stale(session_entries(*old(m))[k]@, now, timeout)),
        forall|k: u128|
            #[trigger] session_entries(*final(m)).contains_key(k) ==> session_entries(*final(m))[k]
                == session_entries(*old(m))[k],
{
    m.retain(|_, s| s.is_fresh_at(now, timeout));
}

/// A session after one more rerun at `now`; the count stays at its largest
/// value once there.
pub open spec fn rerun_recorded(s: SessionView, now: u64) -> SessionView {
    SessionView {
        reruns: if s.reruns < u32::MAX {
            (s.reruns + 1) as u32
        } else {
            s.reruns
        },
        last_activity: now,
        ..s
    }
}

/// `after` keeps exactly the sessions of `before` that are not stale at
/// `now`, unchanged.
pub open spec fn swept(before: Map<u128, SessionView>, after: Map<u128, SessionView>, now: u64, timeout: u64) -> bool {
    &&& forall|k: u128| #[trigger] after.contains_key(k) == (before.contains_key(k) && !stale(before[k], now, timeout))
    &&& forall|k: u128| #[trigger] after.contains_key(k) ==> after[k] == before[k]
}

/// Whether some session of the map is this one.
pub open spec fn holds(m: Map<u128, SessionView>, v: SessionView) -> bool {
    exists|k: u128| m.contains_key(k) && m[k] == v
}

/// Holds the live sessions, each under its own id.
pub struct SessionStore {
    sessions: SessionMap,
}

impl View for SessionStore {
    type V = Map<u128, SessionView>;

    closed spec fn view(&self) -> Map<u128, SessionView> {
        session_entries(self.sessions).map_values(|s: Session| s@)
    }
}

impl SessionStore {
    /// An empty store.
    pub fn new() -> (r: SessionStore)
        ensures
            r@ == Map::<u128, SessionView>::empty(),
    {
        let r = SessionStore { sessions: sessions_new() };
        assert(r@ =~= Map::<u128, SessionView>::empty());
        r
    }

    /// Store a session under its id, replacing any session stored there.
    pub fn update_session(&mut self, session: Session) -> (r: Result<(), Error>)
        ensures
            r.is_ok(),
            final(self)@ == old(self)@.insert(session.id.0, session@),
    {
        let ghost v = session@;
        let k = session.id.0;
        sessions_insert(&mut self.sessions, k, session);
        assert(final(self)@ =~= old(self)@.insert(k, v));
        Ok(())
    }

    /// Create and store a session for a script; returns its id.
    pub fn create_session(&mut self, script_hash: String) -> (r: SessionId)
        ensures
            final(self)@.contains_key(r.0),
            final(self)@[r.0].id == r,
            final(self)@[r.0].script_hash == script_hash@,
            final(self)@[r.0].reruns == 0,
            final(self)@ == old(self)@.insert(r.0, final(self)@[r.0]),
    {
        let session = Session::new(script_hash);
        let id = session.id;
        let _ = self.update_session(session);
        id
    }

    /// A copy of the session with this id.
    pub fn get_session(&self, session_id: SessionId) -> (r: Result<Session, Error>)
        ensures
            r.is_ok() == self@.contains_key(session_id.0),
            r.is_ok() ==> r.unwrap()@ == self@[session_id.0],
            !r.is_ok() ==> (r matches Err(Error::SessionNotFound(m)) && m@ == uuid_text(session_id.0)),
    {
        match sessions_get(&self.sessions, session_id.0) {
            Some(s) => Ok(s),
            None => Err(Error::SessionNotFound(session_id.to_text())),
        }
    }

    /// Count one more rerun of the session with this id and record activity
    /// at `now`; an unknown id is refused and nothing changes.
    pub fn record_rerun_at(&mut self, session_id: SessionId, now: u64) -> (r: Result<(), Error>)
        ensures
            r.is_ok() == old(self)@.contains_key(session_id.0),
            r.is_ok() ==> final(self)@ == old(self)@.insert(
                session_id.0,
                rerun_recorded(old(self)@[session_id.0], now),
            ),
            !r.is_ok() ==> final(self)@ == old(self)@,
    {
        match sessions_get(&self.sessions, session_id.0) {
            Some(mut s) => {
                s.increment_reruns_at(now);
                let ghost v = s@;
                sessions_insert(&mut self.sessions, session_id.0, s);
                assert(final(self)@ =~= old(self)@.insert(session_id.0, v));
                Ok(())
            },
            None => Err(Error::SessionNotFound(session_id.to_text())),
        }
    }

    /// Count one more rerun of the session with this id and record activity
    /// now; an unknown id is refused and nothing changes.
    pub fn record_rerun(&mut self, session_id: SessionId) -> (r: Result<(), Error>)
        ensures
            r.is_ok() == old(self)@.contains_key(session_id.0),
            r.is_ok() ==> exists|now: u64| final(self)@ == old(self)@.insert(
                session_id.0,
                #[trigger] rerun_recorded(old(self)@[session_id.0], now),
            ),
            !r.is_ok() ==> final(self)@ == old(self)@,
    {
        let now = unix_now_secs();
        self.record_rerun_at(session_id, now)
    }

    /// Remove the session with this id, if present.
    pub fn remove_session(&mut self, session_id: SessionId) -> (r: Result<(), Error>)
        ensures
            r.is_ok(),
            final(self)@ == old(self)@.remove(session_id.0),
    {
        sessions_remove(&mut self.sessions, session_id.0);
        assert(final(self)@ =~= old(self)@.remove(session_id.0));
        Ok(())
    }

    /// A copy of every session, each once.
    pub fn all_sessions(&self) -> (r: Vec<Session>)
        ensures
            forall|i: int| 0 <= i < r@.len() ==> holds(self@, #[trigger] r@[i]@),
            forall|k: u128|
                #[trigger] self@.contains_key(k) ==> exists|i: int|
                    0 <= i < r@.len() && #[trigger] r@[i]@ == self@[k],
    {
        let all = sessions_all(&self.sessions);
        let mut r: Vec<Session> = Vec::new();
        let mut i: usize = 0;
        while i < all.len()
            invariant
                i <= all@.len(),
                r@.len() == i,
                forall|j: int| 0 <= j < i ==> (#[trigger] r@[j])@ == all@[j].1@,
            decreases all@.len() - i,
        {
            r.push(all[i].1.clone());
            i = i + 1;
        }
        assert forall|i: int| 0 <= i < r@.len() implies holds(self@, #[trigger] r@[i]@) by {
            assert(self@.contains_key(all@[i].0) && self@[all@[i].0] == r@[i]@);
        }
        assert forall|k: u128| #[trigger] self@.contains_key(k) implies exists|i: int|
            0 <= i < r@.len() && #[trigger] r@[i]@ == self@[k] by {
            assert(session_entries(self.sessions).contains_key(k));
            let i = choose|i: int| 0 <= i < all@.len() && #[trigger] all@[i].0 == k;
            assert(r@[i]@ == self@[k]);
        }
        r
    }

    /// Remove every session that saw no activity for more than
    /// `timeout_secs` at time `now`.
    pub fn cleanup_stale_sessions_at(&mut self, now: u64, timeout_secs: u64)
        ensures
            forall|k: u128|
                #[trigger] final(self)@.contains_key(k) == (old(self)@.contains_key(k) && !stale(
                    old(self)@[k],
                    now,
                    timeout_secs,
                )),
            forall|k: u128| #[trigger] final(self)@.contains_key(k) ==> final(self)@[k] == old(self)@[k],
    {
        sessions_retain_fresh(&mut self.sessions, now, timeout_secs);
    }

    /// Remove every session that saw no activity for more than
    /// `timeout_secs` now.
    pub fn cleanup_stale_sessions(&mut self, timeout_secs: u64)
        ensures
            exists|now: u64| #[trigger] swept(old(self)@, final(self)@, now, timeout_secs),
            forall|k: u128| #[trigger] final(self)@.contains_key(k) ==> old(self)@.contains_key(k)
                && final(self)@[k] == old(self)@[k],
    {
        let now = unix_now_secs();
        self.cleanup_stale_sessions_at(now, timeout_secs);
        assert(swept(old(self)@, final(self)@, now, timeout_secs));
    }

    /// The number of sessions.
    pub fn session_count(&self) -> (r: usize)
        ensures
            r == self@.len(),
    {
        assert(self@.dom() =~= session_entries(self.sessions).dom());
        sessions_len(&self.sessions)
    }
}

impl Default for SessionStore {
    fn default() -> (r: SessionStore)
        ensures
            r@ == Map::<u128, SessionView>::empty(),
    {
        SessionStore::new()
    }
}

} // verus!
