//! Sessions: a conversation's history, its plan and its environment
//! variables, kept by id.  The history's messages are whatever type the
//! model client uses; this module only stores them.

use vstd::prelude::*;
use crate::core_plan::Plan;
use crate::selftest::now_ts_ms;
use crate::strmap::StrMap;

verus! {

/// A conversation with the agent.
#[derive(Debug, Clone)]
pub struct Session<M> {
    pub id: String,
    pub history: Vec<M>,
    pub plan: Option<Plan>,
    /// Session-scoped environment variables.
    pub env_vars: StrMap<String>,
    /// Seconds since the Unix epoch.
    pub created_at: u64,
    pub last_updated_at: u64,
}

/// Whole seconds of a millisecond clock reading, never below zero.
pub open spec fn seconds_of(ms: i64) -> u64 {
    if ms < 0 {
        0
    } else {
        (ms / 1000) as u64
    }
}

impl<M> Session<M> {
    /// A new, empty session created now.  (The clock's reading is not
    /// stated; both times are the same.)
    pub fn new(id: String) -> (s: Self)
        ensures
            s.id == id,
            s.history@.len() == 0,
            s.plan is None,
            s.env_vars.wf(),
            s.env_vars.map() == Map::<Seq<char>, String>::empty(),
            s.created_at == s.last_updated_at,
    {
        let ms = now_ts_ms();
        let now: u64 = if ms < 0 {
            0
        } else {
            (ms / 1000) as u64
        };
        Session { id, history: Vec::new(), plan: None, env_vars: StrMap::new(), created_at: now, last_updated_at: now }
    }
}

/// The sessions of an engine, by id.
pub struct SessionManager<M> {
    sessions: StrMap<Session<M>>,
}

impl<M> SessionManager<M> {
    /// The manager's invariant.
    pub closed spec fn wf(&self) -> bool {
        self.sessions.wf()
    }

    /// The sessions, by id.
    pub closed spec fn sessions(&self) -> Map<Seq<char>, Session<M>> {
        self.sessions.map()
    }

    /// A manager with no session.
    pub fn new() -> (m: Self)
        ensures
            m.wf(),
            m.sessions() == Map::<Seq<char>, Session<M>>::empty(),
    {
        SessionManager { sessions: StrMap::new() }
    }

    /// Adds sessions read from the store; a later session with the same id
    /// replaces an earlier one.
    pub fn load_all(&mut self, loaded: Vec<Session<M>>)
        requires
            old(self).wf(),
        ensures
            final(self).wf(),
            forall|k: Seq<char>|
                #![trigger final(self).sessions().dom().contains(k)]
                final(self).sessions().dom().contains(k) <==> (old(self).sessions().dom().contains(k)
                    || exists|i: int| 0 <= i < loaded@.len() && (#[trigger] loaded@[i]).id@ == k),
            forall|i: int|
                0 <= i < loaded@.len() && (forall|j: int|
                    i < j < loaded@.len() ==> (#[trigger] loaded@[j]).id@ != loaded@[i].id@)
                    ==> final(self).sessions()[(#[trigger] loaded@[i]).id@] == loaded@[i],
    {
        let mut rest = loaded;
        let ghost all = rest@;
        let ghost base = self.sessions();
        let mut i: usize = 0;
        let n = rest.len();
        while i < n
            invariant
                self.wf(),
                n == all.len(),
                i <= n,
                rest@ == all.skip(i as int),
                base == old(self).sessions(),
                forall|k: Seq<char>|
                    #![trigger self.sessions().dom().contains(k)]
                    self.sessions().dom().contains(k) <==> (base.dom().contains(k) || exists|q: int|
                        0 <= q < i && (#[trigger] all[q]).id@ == k),
                forall|q: int|
                    0 <= q < i && (forall|j: int| q < j < i ==> (#[trigger] all[j]).id@ != all[q].id@)
                        ==> self.sessions()[(#[trigger] all[q]).id@] == all[q],
            decreases n - i,
        {
            let s = rest.remove(0);
            assert(s == all[i as int]);
            assert(rest@ =~= all.skip(i + 1));
            let key = s.id.clone();
            let ghost before = self.sessions();
            self.sessions.insert(key.as_str(), s);
            proof {
                assert forall|k: Seq<char>|
                    #![trigger self.sessions().dom().contains(k)]
                    self.sessions().dom().contains(k) <==> (base.dom().contains(k) || exists|q: int|
                        0 <= q < i + 1 && (#[trigger] all[q]).id@ == k) by {
                    if k == all[i as int].id@ {
                        assert(all[i as int].id@ == k);
                    } else if self.sessions().dom().contains(k) {
                        assert(before.dom().contains(k));
                    } else if exists|q: int| 0 <= q < i + 1 && (#[trigger] all[q]).id@ == k {
                        let q = choose|q: int| 0 <= q < i + 1 && (#[trigger] all[q]).id@ == k;
                        assert(q < i);
                    }
                }
                assert forall|q: int|
                    0 <= q < i + 1 && (forall|j: int| q < j < i + 1 ==> (#[trigger] all[j]).id@ != all[q].id@)
                        implies self.sessions()[(#[trigger] all[q]).id@] == all[q] by {
                    if q < i {
                        assert(all[i as int].id@ != all[q].id@);
                    }
                }
            }
            i = i + 1;
        }
    }

    /// The session `id`, if there is one.
    pub fn get_session(&self, id: &str) -> (r: Option<&Session<M>>)
        requires
            self.wf(),
        ensures
            match r {
                Some(s) => self.sessions().dom().contains(id@) && *s == self.sessions()[id@],
                None => !self.sessions().dom().contains(id@),
            },
    {
        self.sessions.get(id)
    }

    /// Makes sure a session `id` exists: an existing one is kept as it is,
    /// otherwise a new empty one is added.  Returns whether it was created.
    pub fn create_session(&mut self, id: String) -> (created: bool)
        requires
            old(self).wf(),
        ensures
            final(self).wf(),
            created == !old(self).sessions().dom().contains(id@),
            !created ==> final(self).sessions() == old(self).sessions(),
            created ==> {
                &&& final(self).sessions().dom() == old(self).sessions().dom().insert(id@)
                &&& forall|k: Seq<char>|
                    #![trigger old(self).sessions().dom().contains(k)]
                    old(self).sessions().dom().contains(k) ==> final(self).sessions()[k]
                        == old(self).sessions()[k]
                &&& final(self).sessions()[id@].id == id
                &&& final(self).sessions()[id@].history@.len() == 0
                &&& final(self).sessions()[id@].plan is None
            },
    {
        if self.sessions.contains_key(id.as_str()) {
            return false;
        }
        let key = id.clone();
        let s = Session::new(id);
        self.sessions.insert(key.as_str(), s);
        true
    }

    /// Stores `session` under its id, replacing any session with that id.
    pub fn save_session(&mut self, session: Session<M>)
        requires
            old(self).wf(),
        ensures
            final(self).wf(),
            final(self).sessions() == old(self).sessions().insert(session.id@, session),
    {
        let key = session.id.clone();
        self.sessions.insert(key.as_str(), session);
    }
}

} // verus!
