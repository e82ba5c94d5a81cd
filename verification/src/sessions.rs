//! The shared session registry: one record per suite invocation, keyed by
//! session id, holding the session's lifecycle state. All transitions are
//! single read-modify-write operations on this registry; the embedding
//! program guards it with one exclusive lock.

use vstd::prelude::*;
use crate::ipc::{TestSession, TestStatus};

verus! {

/// Whether a session in this state has ended.
pub open spec fn is_terminal_spec(s: TestStatus) -> bool {
    s == TestStatus::Completed || s == TestStatus::Failed || s == TestStatus::Cancelled
}

/// Whether a session in this state has ended.
pub fn is_terminal(s: TestStatus) -> (r: bool)
    ensures
        r == is_terminal_spec(s),
{
    match s {
        TestStatus::Completed => true,
        TestStatus::Failed => true,
        TestStatus::Cancelled => true,
        _ => false,
    }
}

/// The status recorded under `id`: the first entry whose key reads `id`.
pub open spec fn lookup(s: Seq<(String, TestStatus)>, id: Seq<char>) -> Option<TestStatus>
    decreases s.len(),
{
    if s.len() == 0 {
        None
    } else if s[0].0@ == id {
        Some(s[0].1)
    } else {
        lookup(s.drop_first(), id)
    }
}

/// No two entries share a key.
pub open spec fn unique_keys(s: Seq<(String, TestStatus)>) -> bool {
    forall|i: int, j: int| 0 <= i < j < s.len() ==> s[i].0@ != s[j].0@
}

/// If no entry among the first `i` has key `id`, the lookup is decided by
/// the rest.
proof fn lemma_lookup_skip(s: Seq<(String, TestStatus)>, id: Seq<char>, i: int)
    requires
        0 <= i <= s.len(),
        forall|j: int| 0 <= j < i ==> s[j].0@ != id,
    ensures
        lookup(s, id) == lookup(s.skip(i), id),
    decreases i,
{
    if i > 0 {
        lemma_lookup_skip(s.drop_first(), id, i - 1);
        assert(s.skip(i) =~= s.drop_first().skip(i - 1));
    } else {
        assert(s.skip(0) =~= s);
    }
}

/// Appending an entry with a fresh key decides only that key's lookup.
proof fn lemma_lookup_push(s: Seq<(String, TestStatus)>, id: String, st: TestStatus)
    ensures
        forall|q: Seq<char>| #[trigger] lookup(s.push((id, st)), q) == (if lookup(s, q) is Some {
            lookup(s, q)
        } else if q == id@ {
            Some(st)
        } else {
            None
        }),
    decreases s.len(),
{
    let s2 = s.push((id, st));
    assert(s2[s.len() as int] == (id, st));
    if s.len() == 0 {
        assert forall|q: Seq<char>| #[trigger] lookup(s2, q) == (if lookup(s, q) is Some {
            lookup(s, q)
        } else if q == id@ {
            Some(st)
        } else {
            None
        }) by {
            assert(lookup(s, q) is None);
            assert(s2[0] == (id, st));
            if q == id@ {
                assert(s2[0].0@ == q);
                assert(lookup(s2, q) == Some(st));
            } else {
                assert(s2[0].0@ != q);
                assert(s2.drop_first() =~= Seq::<(String, TestStatus)>::empty());
                assert(lookup(s2, q) == lookup(s2.drop_first(), q));
            }
        }
    } else {
        lemma_lookup_push(s.drop_first(), id, st);
        assert(s2.drop_first() =~= s.drop_first().push((id, st)));
        assert(s2[0] == s[0]);
        assert forall|q: Seq<char>| #[trigger] lookup(s2, q) == (if lookup(s, q) is Some {
            lookup(s, q)
        } else if q == id@ {
            Some(st)
        } else {
            None
        }) by {
            if s[0].0@ == q {
                assert(lookup(s2, q) == Some(s2[0].1));
                assert(lookup(s, q) == Some(s[0].1));
            } else {
                assert(lookup(s2, q) == lookup(s2.drop_first(), q));
                assert(lookup(s, q) == lookup(s.drop_first(), q));
                assert(lookup(s2.drop_first(), q) == lookup(s.drop_first().push((id, st)), q));
            }
        }
    }
}

/// Overwriting the status at index `i` changes no other key's lookup; when
/// `i` is the key's first occurrence, its lookup becomes the new status.
proof fn lemma_lookup_update(s: Seq<(String, TestStatus)>, i: int, st: TestStatus)
    requires
        0 <= i < s.len(),
    ensures
        forall|q: Seq<char>| q != s[i].0@ ==> #[trigger] lookup(
            s.update(i, (s[i].0, st)),
            q,
        ) == lookup(s, q),
        (forall|j: int| 0 <= j < i ==> s[j].0@ != s[i].0@) ==> lookup(
            s.update(i, (s[i].0, st)),
            s[i].0@,
        ) == Some(st),
    decreases i,
{
    let s2 = s.update(i, (s[i].0, st));
    if i == 0 {
        assert(s2[0] == (s[0].0, st));
        assert(s2.drop_first() =~= s.drop_first());
        assert forall|q: Seq<char>| q != s[0].0@ implies #[trigger] lookup(s2, q) == lookup(
            s,
            q,
        ) by {
            assert(s2[0].0@ == s[0].0@);
            assert(lookup(s2, q) == lookup(s2.drop_first(), q));
            assert(lookup(s, q) == lookup(s.drop_first(), q));
        }
        assert(s2[0].0@ == s[0].0@);
        assert(lookup(s2, s[0].0@) == Some(st));
    } else {
        assert(s2[0] == s[0]);
        assert(s2.drop_first() =~= s.drop_first().update(i - 1, (s[i].0, st)));
        assert(s.drop_first()[i - 1] == s[i]);
        lemma_lookup_update(s.drop_first(), i - 1, st);
        assert forall|q: Seq<char>| q != s[i].0@ implies #[trigger] lookup(s2, q) == lookup(
            s,
            q,
        ) by {
            if s[0].0@ == q {
                assert(lookup(s2, q) == Some(s2[0].1));
                assert(lookup(s, q) == Some(s[0].1));
            } else {
                assert(lookup(s2, q) == lookup(s2.drop_first(), q));
                assert(lookup(s, q) == lookup(s.drop_first(), q));
            }
        }
        if forall|j: int| 0 <= j < i ==> s[j].0@ != s[i].0@ {
            assert(s[0].0@ != s[i].0@);
            assert(lookup(s2, s[i].0@) == lookup(s2.drop_first(), s[i].0@));
            let tail = s.drop_first();
            assert forall|j: int| 0 <= j < i - 1 implies (#[trigger] tail[j]).0@ != tail[
                i - 1].0@ by {
                assert(s.drop_first()[j] == s[j + 1]);
            }
            assert(lookup(s.drop_first().update(i - 1, (s[i].0, st)), s.drop_first()[i - 1].0@)
                == Some(st));
        }
    }
}

/// The registry: session id to lifecycle state.
pub struct SessionRegistry {
    pub entries: Vec<(String, TestStatus)>,
}

impl SessionRegistry {
    /// The registry never holds two records for one id.
    pub open spec fn wf(&self) -> bool {
        unique_keys(self.entries@)
    }

    pub fn new() -> (r: SessionRegistry)
        ensures
            r.wf(),
            r.entries@.len() == 0,
    {
        SessionRegistry { entries: Vec::new() }
    }

    /// The status recorded for `id`, if a session with that id exists.
    pub fn get_status(&self, id: &String) -> (r: Option<TestStatus>)
        ensures
            r == lookup(self.entries@, id@),
    {
        let n = self.entries.len();
        let mut i: usize = 0;
        while i < n
            invariant
                n == self.entries@.len(),
                i <= n,
                forall|j: int| 0 <= j < i ==> self.entries@[j].0@ != id@,
            decreases n - i,
        {
            if self.entries[i].0.eq(id) {
                proof {
                    lemma_lookup_skip(self.entries@, id@, i as int);
                    assert(self.entries@.skip(i as int)[0] == self.entries@[i as int]);
                }
                return Some(self.entries[i].1);
            }
            i = i + 1;
        }
        proof {
            lemma_lookup_skip(self.entries@, id@, n as int);
            assert(self.entries@.skip(n as int) =~= Seq::<(String, TestStatus)>::empty());
        }
        None
    }

    /// Records `status` for `id`, adding the session if it is new. No other
    /// session changes.
    pub fn set_status(&mut self, id: String, status: TestStatus)
        requires
            old(self).wf(),
        ensures
            final(self).wf(),
            lookup(final(self).entries@, id@) == Some(status),
            forall|q: Seq<char>| q != id@ ==> #[trigger] lookup(final(self).entries@, q)
                == lookup(old(self).entries@, q),
    {
        let n = self.entries.len();
        let mut i: usize = 0;
        while i < n
            invariant
                self.entries == old(self).entries,
                unique_keys(old(self).entries@),
                n == self.entries@.len(),
                i <= n,
                forall|j: int| 0 <= j < i ==> self.entries@[j].0@ != id@,
            decreases n - i,
        {
            if self.entries[i].0.eq(&id) {
                proof {
                    lemma_lookup_update(self.entries@, i as int, status);
                }
                let key = self.entries[i].0.clone();
                self.entries.set(i, (key, status));
                proof {
                    let s_old = old(self).entries@;
                    let s_new = self.entries@;
                    assert(s_new =~= s_old.update(i as int, (s_old[i as int].0, status)));
                    assert forall|a: int, b: int| 0 <= a < b < s_new.len() implies (#[trigger]
                    s_new[a]).0@ != (#[trigger] s_new[b]).0@ by {
                        assert(unique_keys(s_old));
                        assert(s_old[a].0@ != s_old[b].0@);
                        assert(s_new[a].0@ == s_old[a].0@);
                        assert(s_new[b].0@ == s_old[b].0@);
                    }
                    assert(unique_keys(s_new));
                }
                return ;
            }
            i = i + 1;
        }
        proof {
            lemma_lookup_skip(self.entries@, id@, n as int);
            assert(self.entries@.skip(n as int) =~= Seq::<(String, TestStatus)>::empty());
            lemma_lookup_push(self.entries@, id, status);
        }
        self.entries.push((id, status));
    }

    /// Marks the session `Cancelled` if it exists; reports whether it did.
    /// No other session changes.
    pub fn cancel_session(&mut self, id: &String) -> (r: bool)
        requires
            old(self).wf(),
        ensures
            final(self).wf(),
            r == (lookup(old(self).entries@, id@) is Some),
            r ==> lookup(final(self).entries@, id@) == Some(TestStatus::Cancelled),
            forall|q: Seq<char>| q != id@ ==> #[trigger] lookup(final(self).entries@, q)
                == lookup(old(self).entries@, q),
            !r ==> final(self).entries == old(self).entries,
    {
        let found = match self.get_status(id) {
            Some(_) => true,
            None => false,
        };
        if found {
            self.set_status(id.clone(), TestStatus::Cancelled);
        }
        found
    }

    /// Removes every ended session, keeping the running and pending ones in
    /// order; reports how many were removed.
    pub fn cleanup_completed(&mut self) -> (r: usize)
        requires
            old(self).wf(),
        ensures
            final(self).wf(),
            r == old(self).entries@.len() - final(self).entries@.len(),
            forall|q: Seq<char>| #[trigger] lookup(final(self).entries@, q) == (match lookup(
                old(self).entries@,
                q,
            ) {
                Some(st) => if is_terminal_spec(st) {
                    None
                } else {
                    Some(st)
                },
                None => None,
            }),
    {
        let n = self.entries.len();
        let mut kept: Vec<(String, TestStatus)> = Vec::new();
        let mut i: usize = 0;
        while i < n
            invariant
                n == self.entries@.len(),
                i <= n,
                unique_keys(self.entries@),
                unique_keys(kept@),
                kept@.len() <= i,
                forall|k: int| 0 <= k < kept@.len() ==> exists|j: int|
                    0 <= j < i && #[trigger] kept@[k] == #[trigger] self.entries@[j],
                forall|q: Seq<char>| #[trigger] lookup(kept@, q) == (match lookup(
                    self.entries@.take(i as int),
                    q,
                ) {
                    Some(st) => if is_terminal_spec(st) {
                        None
                    } else {
                        Some(st)
                    },
                    None => None,
                }),
            decreases n - i,
        {
            let ghost pre_kept = kept@;
            let ghost taken = self.entries@.take(i as int);
            proof {
                assert(self.entries@.take(i as int + 1) =~= taken.push(
                    self.entries@[i as int],
                ));
                lemma_lookup_push(taken, self.entries@[i as int].0, self.entries@[i as int].1);
                // The key at position i occurs nowhere earlier, so its
                // lookup in the processed prefix is still empty.
                lemma_lookup_skip(taken, self.entries@[i as int].0@, i as int);
                assert(taken.skip(i as int) =~= Seq::<(String, TestStatus)>::empty());
                assert(taken =~= taken.take(i as int));
            }
            let entry_status = self.entries[i].1;
            if !is_terminal(entry_status) {
                let key = self.entries[i].0.clone();
                proof {
                    lemma_lookup_push(pre_kept, self.entries@[i as int].0, entry_status);
                    // A fresh key keeps the kept list's keys unique.
                    assert forall|a: int, b: int|
                        0 <= a < b < pre_kept.push(self.entries@[i as int]).len() implies
                        pre_kept.push(self.entries@[i as int])[a].0@ != pre_kept.push(
                        self.entries@[i as int])[b].0@ by {
                        if b == pre_kept.len() {
                            let witness_j = choose|j: int|
                                0 <= j < i && pre_kept[a] == self.entries@[j];
                            assert(self.entries@[witness_j].0@ != self.entries@[i as int].0@);
                        }
                    }
                }
                kept.push((key, entry_status));
            }
            i = i + 1;
        }
        proof {
            assert(self.entries@.take(n as int) =~= self.entries@);
        }
        let removed = n - kept.len();
        self.entries = kept;
        removed
    }

    /// A snapshot of every session as a [`TestSession`] record: ended
    /// sessions get `now` as their end time, live ones none. The configs
    /// are not tracked by the registry.
    pub fn snapshot(&self, now: &String) -> (r: Vec<TestSession>)
        ensures
            r@.len() == self.entries@.len(),
            forall|i: int| 0 <= i < r@.len() ==> {
                &&& (#[trigger] r@[i]).session_id@ == self.entries@[i].0@
                &&& r@[i].status == self.entries@[i].1
                &&& r@[i].start_time@ == now@
                &&& (r@[i].end_time is Some <==> is_terminal_spec(self.entries@[i].1))
                &&& r@[i].config is None
            },
    {
        let n = self.entries.len();
        let mut out: Vec<TestSession> = Vec::new();
        let mut i: usize = 0;
        while i < n
            invariant
                n == self.entries@.len(),
                i <= n,
                out@.len() == i,
                forall|k: int| 0 <= k < i ==> {
                    &&& (#[trigger] out@[k]).session_id@ == self.entries@[k].0@
                    &&& out@[k].status == self.entries@[k].1
                    &&& out@[k].start_time@ == now@
                    &&& (out@[k].end_time is Some <==> is_terminal_spec(self.entries@[k].1))
                    &&& out@[k].config is None
                },
            decreases n - i,
        {
            let status = self.entries[i].1;
            let end_time = if is_terminal(status) {
                Some(now.clone())
            } else {
                None
            };
            out.push(
                TestSession {
                    session_id: self.entries[i].0.clone(),
                    status,
                    start_time: now.clone(),
                    end_time,
                    config: None,
                },
            );
            i = i + 1;
        }
        out
    }
}

/// The pause decision: pausing is not offered, and the reply says why —
/// the session is unknown, not running, or pausing is simply not
/// implemented for a running one.
pub fn pause_decision(status: Option<TestStatus>) -> (r: Result<(), String>)
    ensures
        r is Err,
        status is None ==> (r matches Err(m) && m@ == "测试会话不存在"@),
        status == Some(TestStatus::Running) ==> (r matches Err(m) && m@
            == "暂停功能尚未完全实现"@),
        (status is Some && status != Some(TestStatus::Running)) ==> (r matches Err(m) && m@
            == "只能暂停正在运行的测试"@),
{
    match status {
        None => Err("测试会话不存在".to_string()),
        Some(TestStatus::Running) => Err("暂停功能尚未完全实现".to_string()),
        Some(_) => Err("只能暂停正在运行的测试".to_string()),
    }
}

/// The resume decision: resuming is not offered either.
pub fn resume_decision(session_exists: bool) -> (r: Result<(), String>)
    ensures
        r is Err,
        session_exists ==> (r matches Err(m) && m@ == "恢复功能尚未完全实现"@),
        !session_exists ==> (r matches Err(m) && m@ == "测试会话不存在"@),
{
    if session_exists {
        Err("恢复功能尚未完全实现".to_string())
    } else {
        Err("测试会话不存在".to_string())
    }
}

} // verus!
