use vstd::prelude::*;

verus! {

/// Why a command could not reach a session.
#[derive(Clone, Copy, Debug, PartialEq, Eq, Structural)]
pub enum RegistryError {
    /// No live session is registered under the key.
    NotFound,
    /// A live session is already registered under the key.
    Conflict,
}

/// The key of a forwarding session: the call it taps and the name of the
/// fork, which tells apart several forwards of one call.
pub struct SessionKey {
    pub session: String,
    pub fork: String,
}

/// A session key as a pair of texts.
pub type KeyView = (Seq<char>, Seq<char>);

impl View for SessionKey {
    type V = KeyView;

    open spec fn view(&self) -> KeyView {
        (self.session@, self.fork@)
    }
}

impl SessionKey {
    pub fn new(session: String, fork: String) -> (r: SessionKey)
        ensures
            r@ == (session@, fork@),
    {
        SessionKey { session, fork }
    }

    /// Whether two keys name the same session.
    pub fn same(&self, other: &SessionKey) -> (r: bool)
        ensures
            r == (self@ == other@),
    {
        self.session == other.session && self.fork == other.fork
    }
}

/// A live session: its key and its shared handle.
pub struct LiveEntry<S> {
    pub key: SessionKey,
    pub handle: S,
}

/// A session whose key was removed at `since_ms`, kept until its grace window
/// has passed so that a lookup made just before the removal can finish.
pub struct Retired<S> {
    pub handle: S,
    pub since_ms: u64,
}

/// The map from key to handle that a sequence of entries stands for; a later
/// entry wins.
pub open spec fn to_map<S>(s: Seq<(KeyView, S)>) -> Map<KeyView, S>
    decreases s.len(),
{
    if s.len() == 0 {
        Map::empty()
    } else {
        to_map(s.drop_last()).insert(s.last().0, s.last().1)
    }
}

pub open spec fn unique_keys<S>(s: Seq<(KeyView, S)>) -> bool {
    forall|i: int, j: int| 0 <= i < j < s.len() ==> (#[trigger] s[i]).0 != (#[trigger] s[j]).0
}

/// Whether a handle retired at `since` has outlived a grace window of `grace`
/// milliseconds at time `now`.
pub open spec fn expired(since: u64, now: u64, grace: u64) -> bool {
    now >= since && now - since >= grace
}

/// The retired entries that are still within their grace window, in order.
pub open spec fn still_retired<S>(s: Seq<Retired<S>>, now: u64, grace: u64) -> Seq<Retired<S>>
    decreases s.len(),
{
    if s.len() == 0 {
        s
    } else if expired(s.last().since_ms, now, grace) {
        still_retired(s.drop_last(), now, grace)
    } else {
        still_retired(s.drop_last(), now, grace).push(s.last())
    }
}

/// The retired entries whose grace window has passed, in order.
pub open spec fn now_expired<S>(s: Seq<Retired<S>>, now: u64, grace: u64) -> Seq<Retired<S>>
    decreases s.len(),
{
    if s.len() == 0 {
        s
    } else if expired(s.last().since_ms, now, grace) {
        now_expired(s.drop_last(), now, grace).push(s.last())
    } else {
        now_expired(s.drop_last(), now, grace)
    }
}

/// The abstract state of a registry.
pub struct RegistryView<S> {
    pub sessions: Map<KeyView, S>,
    pub retired: Seq<Retired<S>>,
    pub grace: u64,
}

/// What a command under `key` resolves to.
pub open spec fn lookup_of<S>(v: RegistryView<S>, key: KeyView) -> Result<S, RegistryError> {
    if v.sessions.contains_key(key) {
        Ok(v.sessions[key])
    } else {
        Err(RegistryError::NotFound)
    }
}

/// The registry after the session under `key` is retired at `now`.
pub open spec fn after_retire<S>(v: RegistryView<S>, key: KeyView, now: u64) -> RegistryView<S> {
    RegistryView {
        sessions: v.sessions.remove(key),
        retired: if v.sessions.contains_key(key) {
            v.retired.push(Retired { handle: v.sessions[key], since_ms: now })
        } else {
            v.retired
        },
        grace: v.grace,
    }
}

/// The registry after the handles expired at `now` are handed back.
pub open spec fn after_reclaim<S>(v: RegistryView<S>, now: u64) -> RegistryView<S> {
    RegistryView { sessions: v.sessions, retired: still_retired(v.retired, now, v.grace), grace: v.grace }
}

/// An entry that is within its grace window stays retired across a reclaim.
proof fn lemma_young_stays<S>(s: Seq<Retired<S>>, i: int, now: u64, grace: u64)
    requires
        0 <= i < s.len(),
        !expired(s[i].since_ms, now, grace),
    ensures
        still_retired(s, now, grace).contains(s[i]),
    decreases s.len(),
{
    let t = s.drop_last();
    if i == s.len() - 1 {
        assert(still_retired(s, now, grace).last() == s[i]);
    } else {
        assert(t[i] == s[i]);
        lemma_young_stays(t, i, now, grace);
        let j = choose|j: int| 0 <= j < still_retired(t, now, grace).len() && still_retired(t, now, grace)[j] == s[i];
        if !expired(s.last().since_ms, now, grace) {
            assert(still_retired(s, now, grace)[j] == s[i]);
        }
    }
}

/// After a session is retired, a command under its key finds nothing, however
/// many reclaims follow. Its handle is not handed back for freeing while the
/// grace window has not passed, so a command that resolved the key just before
/// can still use it.
pub proof fn lemma_retired_session_not_found<S>(v: RegistryView<S>, key: KeyView, t1: u64, t2: u64)
    ensures
        lookup_of(after_retire(v, key, t1), key) == Err::<S, RegistryError>(RegistryError::NotFound),
        lookup_of(after_reclaim(after_retire(v, key, t1), t2), key) == Err::<S, RegistryError>(
            RegistryError::NotFound,
        ),
        v.sessions.contains_key(key) && !expired(t1, t2, v.grace) ==> after_reclaim(
            after_retire(v, key, t1),
            t2,
        ).retired.contains(Retired { handle: v.sessions[key], since_ms: t1 }),
{
    if v.sessions.contains_key(key) && !expired(t1, t2, v.grace) {
        let r = after_retire(v, key, t1).retired;
        assert(r[r.len() - 1] == Retired { handle: v.sessions[key], since_ms: t1 });
        lemma_young_stays(r, r.len() - 1, t2, v.grace);
    }
}

proof fn lemma_to_map_key<S>(s: Seq<(KeyView, S)>, k: KeyView)
    requires
        unique_keys(s),
    ensures
        to_map(s).contains_key(k) <==> exists|i: int| 0 <= i < s.len() && (#[trigger] s[i]).0 == k,
        forall|i: int| 0 <= i < s.len() && (#[trigger] s[i]).0 == k ==> to_map(s)[k] == s[i].1,
    decreases s.len(),
{
    if s.len() > 0 {
        let t = s.drop_last();
        assert(unique_keys(t)) by {
            assert forall|i: int, j: int| 0 <= i < j < t.len() implies (#[trigger] t[i]).0 != (
            #[trigger] t[j]).0 by {
                assert(t[i] == s[i] && t[j] == s[j]);
            }
        }
        lemma_to_map_key(t, k);
        let e = s.last();
        if k == e.0 {
            assert(s[s.len() - 1].0 == k);
            assert forall|i: int| 0 <= i < s.len() && (#[trigger] s[i]).0 == k implies to_map(s)[k]
                == s[i].1 by {
                if i < s.len() - 1 {
                    assert(s[i].0 != s[s.len() - 1].0);
                }
            }
        } else {
            if to_map(s).contains_key(k) {
                let i = choose|i: int| 0 <= i < t.len() && (#[trigger] t[i]).0 == k;
                assert(s[i] == t[i]);
            }
            if exists|i: int| 0 <= i < s.len() && (#[trigger] s[i]).0 == k {
                let i = choose|i: int| 0 <= i < s.len() && (#[trigger] s[i]).0 == k;
                assert(t[i] == s[i]);
            }
            assert forall|i: int| 0 <= i < s.len() && (#[trigger] s[i]).0 == k implies to_map(s)[k]
                == s[i].1 by {
                assert(t[i] == s[i]);
            }
        }
    }
}

proof fn lemma_to_map_remove<S>(s: Seq<(KeyView, S)>, i: int)
    requires
        unique_keys(s),
        0 <= i < s.len(),
    ensures
        unique_keys(s.remove(i)),
        to_map(s.remove(i)) =~= to_map(s).remove(s[i].0),
    decreases s.len(),
{
    let r = s.remove(i);
    assert forall|a: int, b: int| 0 <= a < b < r.len() implies (#[trigger] r[a]).0 != (
    #[trigger] r[b]).0 by {
        let a2 = if a < i { a } else { a + 1 };
        let b2 = if b < i { b } else { b + 1 };
        assert(r[a] == s[a2] && r[b] == s[b2]);
    }
    let t = s.drop_last();
    let e = s.last();
    assert(unique_keys(t)) by {
        assert forall|a: int, b: int| 0 <= a < b < t.len() implies (#[trigger] t[a]).0 != (
        #[trigger] t[b]).0 by {
            assert(t[a] == s[a] && t[b] == s[b]);
        }
    }
    lemma_to_map_key(t, e.0);
    if exists|a: int| 0 <= a < t.len() && (#[trigger] t[a]).0 == e.0 {
        let a = choose|a: int| 0 <= a < t.len() && (#[trigger] t[a]).0 == e.0;
        assert(s[a] == t[a]);
        assert(s[a].0 != s[s.len() - 1].0);
    }
    if i == s.len() - 1 {
        assert(r =~= t);
        assert(!to_map(t).contains_key(e.0));
    } else {
        assert(r =~= t.remove(i).push(e));
        assert(r.drop_last() =~= t.remove(i));
        lemma_to_map_remove(t, i);
        assert(t[i] == s[i]);
        assert(s[i].0 != s[s.len() - 1].0);
    }
}

/// The table of live forwarding sessions, keyed by an opaque per-call key, and
/// of the sessions retired from it that still wait out their grace window.
///
/// Commands resolve a key here and act on the handle they get; the realtime
/// side retires a key when the engine detaches the tap. A retired handle is
/// handed back for freeing only once the grace window has passed.
pub struct Registry<S> {
    live: Vec<LiveEntry<S>>,
    retired: Vec<Retired<S>>,
    grace_ms: u64,
}

impl<S> View for Registry<S> {
    type V = RegistryView<S>;

    open spec fn view(&self) -> RegistryView<S> {
        RegistryView { sessions: self.sessions(), retired: self.retired(), grace: self.grace() }
    }
}

impl<S> Registry<S> {
    /// The live entries as (key, handle) pairs, oldest first.
    pub closed spec fn entries(&self) -> Seq<(KeyView, S)> {
        self.live@.map_values(|e: LiveEntry<S>| (e.key@, e.handle))
    }

    /// The live sessions by key.
    pub open spec fn sessions(&self) -> Map<KeyView, S> {
        to_map(self.entries())
    }

    /// The retired sessions not yet handed back, oldest first.
    pub closed spec fn retired(&self) -> Seq<Retired<S>> {
        self.retired@
    }

    pub closed spec fn grace(&self) -> u64 {
        self.grace_ms
    }

    pub closed spec fn wf(&self) -> bool {
        unique_keys(self.entries())
    }

    /// An empty registry whose retired sessions wait `grace_ms` milliseconds.
    pub fn new(grace_ms: u64) -> (r: Registry<S>)
        ensures
            r.wf(),
            r.sessions() == Map::<KeyView, S>::empty(),
            r.retired() == Seq::<Retired<S>>::empty(),
            r.grace() == grace_ms,
    {
        let r = Registry { live: Vec::new(), retired: Vec::new(), grace_ms };
        assert(r.entries() =~= Seq::<(KeyView, S)>::empty());
        r
    }

    /// Length of the grace window, in milliseconds.
    pub fn grace_ms(&self) -> (r: u64)
        ensures
            r == self.grace(),
    {
        self.grace_ms
    }

    /// Number of live sessions.
    pub fn len(&self) -> (r: usize)
        requires
            self.wf(),
        ensures
            r == self.sessions().len(),
    {
        proof {
            self.lemma_sessions_len();
        }
        self.live.len()
    }

    proof fn lemma_sessions_len(&self)
        requires
            self.wf(),
        ensures
            self.sessions().len() == self.live@.len(),
    {
        lemma_to_map_len(self.entries());
    }

    fn find(&self, key: &SessionKey) -> (r: Option<usize>)
        requires
            self.wf(),
        ensures
            r is None ==> !self.sessions().contains_key(key@),
            r matches Some(i) ==> i < self.live@.len() && self.entries()[i as int].0 == key@
                && self.sessions().contains_key(key@) && self.sessions()[key@] == self.live@[i as int].handle,
    {
        let mut i: usize = 0;
        while i < self.live.len()
            invariant
                i <= self.live@.len(),
                self.wf(),
                forall|j: int| 0 <= j < i ==> (#[trigger] self.entries()[j]).0 != key@,
            decreases self.live@.len() - i,
        {
            if self.live[i].key.same(key) {
                proof {
                    assert(self.entries()[i as int] == (self.live@[i as int].key@, self.live@[i as int].handle));
                    lemma_to_map_key(self.entries(), key@);
                }
                return Some(i);
            }
            assert(self.entries()[i as int] == (self.live@[i as int].key@, self.live@[i as int].handle));
            i = i + 1;
        }
        proof {
            lemma_to_map_key(self.entries(), key@);
        }
        None
    }

    /// Whether a live session is registered under `key`.
    pub fn contains(&self, key: &SessionKey) -> (r: bool)
        requires
            self.wf(),
        ensures
            r == self.sessions().contains_key(key@),
    {
        self.find(key).is_some()
    }

    /// Resolves `key` to its live session.
    pub fn lookup(&self, key: &SessionKey) -> (r: Result<&S, RegistryError>)
        requires
            self.wf(),
        ensures
            self.sessions().contains_key(key@) ==> r == Ok::<&S, RegistryError>(&self.sessions()[key@]),
            !self.sessions().contains_key(key@) ==> r == Err::<&S, RegistryError>(RegistryError::NotFound),
            r matches Ok(h) ==> lookup_of(self@, key@) == Ok::<S, RegistryError>(*h),
            r is Err ==> lookup_of(self@, key@) == Err::<S, RegistryError>(RegistryError::NotFound),
    {
        match self.find(key) {
            Some(i) => Ok(&self.live[i].handle),
            None => Err(RegistryError::NotFound),
        }
    }

    /// Publishes `handle` under `key`. A key that is already live is refused
    /// and the handle given back.
    pub fn start(&mut self, key: SessionKey, handle: S) -> (r: Result<(), (RegistryError, S)>)
        requires
            old(self).wf(),
        ensures
            final(self).wf(),
            final(self).retired() == old(self).retired(),
            final(self).grace() == old(self).grace(),
            old(self).sessions().contains_key(key@) ==> r == Err::<(), (RegistryError, S)>(
                (RegistryError::Conflict, handle),
            ) && final(self).sessions() == old(self).sessions(),
            !old(self).sessions().contains_key(key@) ==> r is Ok && final(self).sessions()
                == old(self).sessions().insert(key@, handle),
    {
        if self.contains(&key) {
            return Err((RegistryError::Conflict, handle));
        }
        let ghost k = key@;
        let ghost before = self.entries();
        self.live.push(LiveEntry { key, handle });
        proof {
            assert(self.entries() =~= before.push((k, handle)));
            assert(self.entries().drop_last() =~= before);
            lemma_to_map_key(before, k);
            assert forall|a: int, b: int| 0 <= a < b < self.entries().len() implies (
            #[trigger] self.entries()[a]).0 != (#[trigger] self.entries()[b]).0 by {
                if b == before.len() {
                    assert(self.entries()[a] == before[a]);
                } else {
                    assert(self.entries()[a] == before[a] && self.entries()[b] == before[b]);
                }
            }
        }
        Ok(())
    }

    /// Retires the session under `key` at time `now_ms`: commands no longer find
    /// it, and its handle waits out the grace window. Returns whether a live
    /// session was there.
    pub fn retire(&mut self, key: &SessionKey, now_ms: u64) -> (r: bool)
        requires
            old(self).wf(),
        ensures
            final(self).wf(),
            final(self).grace() == old(self).grace(),
            r == old(self).sessions().contains_key(key@),
            final(self).sessions() == old(self).sessions().remove(key@),
            r ==> final(self).retired() == old(self).retired().push(
                Retired { handle: old(self).sessions()[key@], since_ms: now_ms },
            ),
            !r ==> final(self).retired() == old(self).retired(),
            final(self)@ == after_retire(old(self)@, key@, now_ms),
    {
        match self.find(key) {
            None => {
                proof {
                    assert(self.sessions().remove(key@) =~= self.sessions());
                }
                false
            },
            Some(i) => {
                let ghost before = self.entries();
                let entry = self.live.remove(i);
                proof {
                    assert(self.entries() =~= before.remove(i as int));
                    lemma_to_map_remove(before, i as int);
                }
                self.retired.push(Retired { handle: entry.handle, since_ms: now_ms });
                true
            },
        }
    }

    /// Hands back, oldest first, the retired handles whose grace window has
    /// passed at `now_ms`, for the caller to free; the others stay.
    pub fn reclaim(&mut self, now_ms: u64) -> (r: Vec<Retired<S>>)
        requires
            old(self).wf(),
        ensures
            final(self).wf(),
            final(self).grace() == old(self).grace(),
            final(self).sessions() == old(self).sessions(),
            r@ == now_expired(old(self).retired(), now_ms, old(self).grace()),
            final(self).retired() == still_retired(old(self).retired(), now_ms, old(self).grace()),
            final(self)@ == after_reclaim(old(self)@, now_ms),
    {
        let mut pending: Vec<Retired<S>> = Vec::new();
        std::mem::swap(&mut pending, &mut self.retired);
        let ghost all = pending@;
        let grace = self.grace_ms;
        let mut keep: Vec<Retired<S>> = Vec::new();
        let mut done: Vec<Retired<S>> = Vec::new();
        let mut rest: Vec<Retired<S>> = Vec::new();
        // Walk from the back so that each entry can be moved out with `pop`.
        while pending.len() > 0
            invariant
                pending@ == all.take(pending@.len() as int),
                pending@.len() <= all.len(),
                rest@.len() == all.len() - pending@.len(),
                forall|j: int| 0 <= j < rest@.len() ==> #[trigger] rest@[j] == all[all.len() - 1 - j],
            decreases pending@.len(),
        {
            let e = pending.pop().unwrap();
            rest.push(e);
            proof {
                assert(pending@ =~= all.take(pending@.len() as int));
            }
        }
        assert(rest@.len() == all.len());
        let mut k: usize = rest.len();
        while k > 0
            invariant
                k == rest@.len(),
                k <= all.len(),
                forall|j: int| 0 <= j < k ==> #[trigger] rest@[j] == all[all.len() - 1 - j],
                keep@ == still_retired(all.take(all.len() - k), now_ms, grace),
                done@ == now_expired(all.take(all.len() - k), now_ms, grace),
            decreases k,
        {
            let e = rest.pop().unwrap();
            k = k - 1;
            let ghost n = all.len() - k;
            proof {
                assert(e == all[n - 1]);
                assert(all.take(n).drop_last() =~= all.take(n - 1));
                assert(all.take(n).last() == all[n - 1]);
            }
            if now_ms >= e.since_ms && now_ms - e.since_ms >= grace {
                done.push(e);
            } else {
                keep.push(e);
            }
        }
        proof {
            assert(all.take(all.len() as int) =~= all);
        }
        self.retired = keep;
        done
    }
}

proof fn lemma_to_map_len<S>(s: Seq<(KeyView, S)>)
    requires
        unique_keys(s),
    ensures
        to_map(s).len() == s.len(),
        to_map(s).dom().finite(),
    decreases s.len(),
{
    if s.len() > 0 {
        let t = s.drop_last();
        assert(unique_keys(t)) by {
            assert forall|a: int, b: int| 0 <= a < b < t.len() implies (#[trigger] t[a]).0 != (
            #[trigger] t[b]).0 by {
                assert(t[a] == s[a] && t[b] == s[b]);
            }
        }
        lemma_to_map_len(t);
        lemma_to_map_key(t, s.last().0);
        if exists|a: int| 0 <= a < t.len() && (#[trigger] t[a]).0 == s.last().0 {
            let a = choose|a: int| 0 <= a < t.len() && (#[trigger] t[a]).0 == s.last().0;
            assert(s[a] == t[a]);
            assert(s[a].0 != s[s.len() - 1].0);
        }
    }
}

} // verus!
