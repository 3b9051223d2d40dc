//! Per-connection health state and the connection table.
//!
//! Each connection carries an error budget and a recovery budget: errors
//! accumulate until the error threshold asks for a recovery attempt,
//! recovery attempts are bounded by the table's maximum, and a connection
//! whose recovery is exhausted is evicted, with a notice broadcast to every
//! other connection. Staleness is judged by the time of last activity.
//!
//! Time is carried as milliseconds on a monotonic clock owned by the caller.

use vstd::prelude::*;
use std::collections::HashMap;
use crate::error::UnixSocketError;

verus! {

/// Errors on a connection before a recovery attempt is made.
pub const ERROR_THRESHOLD: u32 = 3;

/// Milliseconds without activity after which a connection is stale.
pub const STALE_AFTER_MS: u64 = 60000;

/// Health counters of one connection.
#[derive(Debug, Clone, Copy, PartialEq, Eq, Structural)]
pub struct ConnectionStats {
    /// When the connection was accepted, in clock milliseconds.
    pub connected_at: u64,
    /// When the connection last showed life, in clock milliseconds.
    pub last_activity: u64,
    /// Errors seen since the last successful recovery.
    pub error_count: u32,
    /// Recovery attempts made so far.
    pub recovery_attempts: u32,
}

impl ConnectionStats {
    pub fn new(connected_at: u64, last_activity: u64, error_count: u32, recovery_attempts: u32) -> (
        s: Self)
        ensures
            s == (ConnectionStats { connected_at, last_activity, error_count, recovery_attempts }),
    {
        Self { connected_at, last_activity, error_count, recovery_attempts }
    }

    /// Clears the error budget after a successful recovery.
    pub fn error_rest(&mut self)
        ensures
            *final(self) == (ConnectionStats { error_count: 0, ..*old(self) }),
    {
        self.error_count = 0;
    }

    /// Counts one more error; the count stops at the representable top
    /// rather than wrapping.
    pub fn add_error(&mut self)
        ensures
            *final(self) == (ConnectionStats {
                error_count: if old(self).error_count == u32::MAX {
                    u32::MAX
                } else {
                    (old(self).error_count + 1) as u32
                },
                ..*old(self)
            }),
    {
        if self.error_count < u32::MAX {
            self.error_count = self.error_count + 1;
        }
    }

    pub fn last_activity(&self) -> (r: u64)
        ensures
            r == self.last_activity,
    {
        self.last_activity
    }

    pub fn errors(&self) -> (r: u32)
        ensures
            r == self.error_count,
    {
        self.error_count
    }

    /// Counts one more recovery attempt; stops at the representable top.
    pub fn recovery_attempts_increase(&mut self)
        ensures
            *final(self) == (ConnectionStats {
                recovery_attempts: if old(self).recovery_attempts == u32::MAX {
                    u32::MAX
                } else {
                    (old(self).recovery_attempts + 1) as u32
                },
                ..*old(self)
            }),
    {
        if self.recovery_attempts < u32::MAX {
            self.recovery_attempts = self.recovery_attempts + 1;
        }
    }

    pub fn recovery_attempts(&self) -> (r: u32)
        ensures
            r == self.recovery_attempts,
    {
        self.recovery_attempts
    }
}

/// The counters a connection starts with.
pub open spec fn spec_fresh_stats(now: u64) -> ConnectionStats {
    ConnectionStats { connected_at: now, last_activity: now, error_count: 0, recovery_attempts: 0 }
}

/// Whether a connection is stale at time `now`: its last activity lies more
/// than the stale threshold in the past.
pub open spec fn spec_stale(st: ConnectionStats, now: u64) -> bool {
    now > st.last_activity + STALE_AFTER_MS
}

/// The connection table: health counters per window identifier. The caller
/// owns the streams themselves and performs all I/O; the table owns every
/// decision about error budgets, recovery and eviction.
pub struct ConnectionTable {
    /// Counters by window identifier.
    pub conns: HashMap<u64, ConnectionStats>,
    /// The identifiers currently in the table, each exactly once.
    pub ids: Vec<u64>,
    /// Cap on recovery attempts per connection.
    pub max_recovery_attempts: u32,
}

impl ConnectionTable {
    /// Table well-formedness: the identifier list carries exactly the
    /// table's keys, once each, and no connection has outrun the recovery
    /// cap.
    pub open spec fn wf(self) -> bool {
        &&& self.ids@.no_duplicates()
        &&& forall|i: int|
            0 <= i < self.ids@.len() ==> self.conns@.contains_key(#[trigger] self.ids@[i])
        &&& forall|id: u64| self.conns@.contains_key(id) ==> #[trigger] self.ids@.contains(id)
        &&& forall|id: u64| #[trigger]
            self.conns@.contains_key(id) ==> self.conns@[id].recovery_attempts
                <= self.max_recovery_attempts
    }

    pub fn new(max_recovery_attempts: u32) -> (t: Self)
        ensures
            t.conns@ == Map::<u64, ConnectionStats>::empty(),
            t.max_recovery_attempts == max_recovery_attempts,
            t.wf(),
    {
        let t = Self { conns: HashMap::new(), ids: Vec::new(), max_recovery_attempts };
        proof {
            assert(t.ids@.no_duplicates());
        }
        t
    }

    pub fn contains(&self, id: u64) -> (r: bool)
        ensures
            r == self.conns@.contains_key(id),
    {
        self.conns.contains_key(&id)
    }

    pub fn len(&self) -> (r: usize)
        ensures
            r == self.conns@.len(),
    {
        self.conns.len()
    }

    pub fn get_stats(&self, id: u64) -> (r: Option<ConnectionStats>)
        ensures
            match r {
                Some(st) => self.conns@.contains_key(id) && st == self.conns@[id],
                None => !self.conns@.contains_key(id),
            },
    {
        match self.conns.get(&id) {
            Some(st) => Some(*st),
            None => None,
        }
    }

    /// Registers a connection under a fresh identifier with fresh counters;
    /// an identifier already in the table is rejected, so the caller draws
    /// another.
    pub fn try_register(&mut self, id: u64, now: u64) -> (added: bool)
        requires
            old(self).wf(),
        ensures
            final(self).wf(),
            final(self).max_recovery_attempts == old(self).max_recovery_attempts,
            old(self).conns@.contains_key(id) ==> !added && final(self).conns@ == old(self).conns@
                && final(self).ids@ == old(self).ids@,
            !old(self).conns@.contains_key(id) ==> added && final(self).conns@ == old(
                self,
            ).conns@.insert(id, spec_fresh_stats(now)) && final(self).ids@ == old(
                self,
            ).ids@.push(id),
    {
        if self.conns.contains_key(&id) {
            return false;
        }
        self.conns.insert(id, ConnectionStats::new(now, now, 0, 0));
        self.ids.push(id);
        proof {
            let pre = *old(self);
            assert forall|i: int, j: int|
                0 <= i < self.ids@.len() && 0 <= j < self.ids@.len() && i != j implies self.ids@[i]
                != self.ids@[j] by {
                if i < pre.ids@.len() && j < pre.ids@.len() {
                } else if i == pre.ids@.len() {
                    assert(pre.conns@.contains_key(pre.ids@[j]));
                    assert(pre.ids@[j] != id);
                } else {
                    assert(pre.conns@.contains_key(pre.ids@[i]));
                    assert(pre.ids@[i] != id);
                }
            }
            assert forall|id2: u64| self.conns@.contains_key(id2) implies #[trigger] self.ids@.contains(
                id2,
            ) by {
                if id2 == id {
                    assert(self.ids@[self.ids@.len() - 1] == id);
                } else {
                    assert(pre.ids@.contains(id2));
                    let k = choose|k: int| 0 <= k < pre.ids@.len() && pre.ids@[k] == id2;
                    assert(self.ids@[k] == id2);
                }
            }
        }
        true
    }

    /// Notes life on a connection, refreshing its last-activity time.
    /// Unknown identifiers are ignored.
    pub fn record_activity(&mut self, id: u64, now: u64)
        requires
            old(self).wf(),
        ensures
            final(self).wf(),
            final(self).ids@ == old(self).ids@,
            final(self).max_recovery_attempts == old(self).max_recovery_attempts,
            old(self).conns@.contains_key(id) ==> final(self).conns@ == old(self).conns@.insert(
                id,
                ConnectionStats { last_activity: now, ..old(self).conns@[id] },
            ),
            !old(self).conns@.contains_key(id) ==> final(self).conns@ == old(self).conns@,
    {
        let st = match self.conns.get(&id) {
            Some(st) => *st,
            None => {
                return ;
            },
        };
        let updated = ConnectionStats { last_activity: now, ..st };
        self.conns.insert(id, updated);
    }

    /// Counts one error against a connection and says whether the error
    /// budget now asks for a recovery attempt. Unknown identifiers yield
    /// nothing.
    pub fn note_error(&mut self, id: u64) -> (r: Option<bool>)
        requires
            old(self).wf(),
        ensures
            final(self).wf(),
            final(self).ids@ == old(self).ids@,
            final(self).max_recovery_attempts == old(self).max_recovery_attempts,
            match r {
                Some(needs_recovery) => {
                    let bumped = if old(self).conns@[id].error_count == u32::MAX {
                        u32::MAX
                    } else {
                        (old(self).conns@[id].error_count + 1) as u32
                    };
                    &&& old(self).conns@.contains_key(id)
                    &&& final(self).conns@ == old(self).conns@.insert(
                        id,
                        ConnectionStats { error_count: bumped, ..old(self).conns@[id] },
                    )
                    &&& needs_recovery == (bumped >= ERROR_THRESHOLD)
                },
                None => !old(self).conns@.contains_key(id) && final(self).conns@ == old(
                    self,
                ).conns@,
            },
    {
        let st = match self.conns.get(&id) {
            Some(st) => *st,
            None => {
                return None;
            },
        };
        let mut updated = st;
        updated.add_error();
        self.conns.insert(id, updated);
        Some(updated.errors() >= ERROR_THRESHOLD)
    }

    /// Decides whether a recovery attempt may be made: within the cap the
    /// attempt is counted and granted, at the cap it is refused, and an
    /// unknown identifier is an error. The caller performs the probe and
    /// reports its outcome through [`ConnectionTable::recovery_succeeded`]
    /// or eviction.
    pub fn begin_recovery(&mut self, id: u64) -> (r: Result<bool, UnixSocketError>)
        requires
            old(self).wf(),
        ensures
            final(self).wf(),
            final(self).ids@ == old(self).ids@,
            final(self).max_recovery_attempts == old(self).max_recovery_attempts,
            match r {
                Ok(granted) => {
                    &&& old(self).conns@.contains_key(id)
                    &&& granted == (old(self).conns@[id].recovery_attempts < old(
                        self,
                    ).max_recovery_attempts)
                    &&& if granted {
                        final(self).conns@ == old(self).conns@.insert(
                            id,
                            ConnectionStats {
                                recovery_attempts: (old(self).conns@[id].recovery_attempts
                                    + 1) as u32,
                                ..old(self).conns@[id]
                            },
                        )
                    } else {
                        final(self).conns@ == old(self).conns@
                    }
                },
                Err(e) => {
                    &&& e == UnixSocketError::ConnectionNotFound(id)
                    &&& !old(self).conns@.contains_key(id)
                    &&& final(self).conns@ == old(self).conns@
                },
            },
    {
        let st = match self.conns.get(&id) {
            Some(st) => *st,
            None => {
                return Err(UnixSocketError::ConnectionNotFound(id));
            },
        };
        if st.recovery_attempts() >= self.max_recovery_attempts {
            return Ok(false);
        }
        let mut updated = st;
        updated.recovery_attempts_increase();
        self.conns.insert(id, updated);
        Ok(true)
    }

    /// Clears a connection's error budget after a successful recovery
    /// probe. Unknown identifiers are ignored.
    pub fn recovery_succeeded(&mut self, id: u64)
        requires
            old(self).wf(),
        ensures
            final(self).wf(),
            final(self).ids@ == old(self).ids@,
            final(self).max_recovery_attempts == old(self).max_recovery_attempts,
            old(self).conns@.contains_key(id) ==> final(self).conns@ == old(self).conns@.insert(
                id,
                ConnectionStats { error_count: 0, ..old(self).conns@[id] },
            ),
            !old(self).conns@.contains_key(id) ==> final(self).conns@ == old(self).conns@,
    {
        let st = match self.conns.get(&id) {
            Some(st) => *st,
            None => {
                return ;
            },
        };
        let mut updated = st;
        updated.error_rest();
        self.conns.insert(id, updated);
    }

    /// The connections that are stale at time `now`: each returned
    /// identifier is a stale table entry, and every stale table entry is
    /// returned.
    pub fn stale_ids(&self, now: u64) -> (r: Vec<u64>)
        requires
            self.wf(),
        ensures
            forall|k: int|
                0 <= k < r@.len() ==> self.conns@.contains_key(#[trigger] r@[k]) && spec_stale(
                    self.conns@[r@[k]],
                    now,
                ),
            forall|id: u64|
                self.conns@.contains_key(id) && spec_stale(#[trigger] self.conns@[id], now)
                    ==> r@.contains(id),
    {
        let mut r: Vec<u64> = Vec::new();
        let mut i: usize = 0;
        while i < self.ids.len()
            invariant
                self.wf(),
                0 <= i <= self.ids@.len(),
                forall|k: int|
                    0 <= k < r@.len() ==> self.conns@.contains_key(#[trigger] r@[k]) && spec_stale(
                        self.conns@[r@[k]],
                        now,
                    ),
                forall|j: int|
                    0 <= j < i && self.conns@.contains_key(#[trigger] self.ids@[j]) && spec_stale(
                        self.conns@[self.ids@[j]],
                        now,
                    ) ==> r@.contains(self.ids@[j]),
            decreases self.ids@.len() - i,
        {
            let ghost r_before = r@;
            let id = self.ids[i];
            match self.conns.get(&id) {
                Some(st) => {
                    if now > st.last_activity && now - st.last_activity > STALE_AFTER_MS {
                        r.push(id);
                    }
                },
                None => {},
            }
            proof {
                assert forall|j: int|
                    0 <= j < i + 1 && self.conns@.contains_key(#[trigger] self.ids@[j])
                        && spec_stale(self.conns@[self.ids@[j]], now) implies r@.contains(
                    self.ids@[j],
                ) by {
                    if j < i {
                        assert(r_before.contains(self.ids@[j]));
                        let k = choose|k: int|
                            0 <= k < r_before.len() && r_before[k] == self.ids@[j];
                        assert(r@[k] == self.ids@[j]);
                    } else {
                        assert(r@[r@.len() - 1] == self.ids@[j]);
                    }
                }
            }
            i = i + 1;
        }
        proof {
            assert forall|id: u64|
                self.conns@.contains_key(id) && spec_stale(
                    #[trigger] self.conns@[id],
                    now,
                ) implies r@.contains(id) by {
                assert(self.ids@.contains(id));
                let j = choose|j: int| 0 <= j < self.ids@.len() && self.ids@[j] == id;
                assert(self.conns@.contains_key(self.ids@[j]));
            }
        }
        r
    }

    /// The identifiers every connection other than `sender` holds: the
    /// broadcast list for an eviction notice.
    pub fn broadcast_targets(&self, sender: u64) -> (r: Vec<u64>)
        requires
            self.wf(),
        ensures
            forall|k: int|
                0 <= k < r@.len() ==> self.conns@.contains_key(#[trigger] r@[k]) && r@[k] != sender,
            forall|id: u64| #[trigger]
                self.conns@.contains_key(id) && id != sender ==> r@.contains(id),
    {
        let mut r: Vec<u64> = Vec::new();
        let mut i: usize = 0;
        while i < self.ids.len()
            invariant
                self.wf(),
                0 <= i <= self.ids@.len(),
                forall|k: int|
                    0 <= k < r@.len() ==> self.conns@.contains_key(#[trigger] r@[k]) && r@[k]
                        != sender,
                forall|j: int|
                    0 <= j < i && self.ids@[j] != sender ==> r@.contains(#[trigger] self.ids@[j]),
            decreases self.ids@.len() - i,
        {
            let ghost r_before = r@;
            let id = self.ids[i];
            if id != sender {
                r.push(id);
            }
            proof {
                assert forall|j: int|
                    0 <= j < i + 1 && self.ids@[j] != sender implies r@.contains(
                    #[trigger] self.ids@[j],
                ) by {
                    if j < i {
                        assert(r_before.contains(self.ids@[j]));
                        let k = choose|k: int|
                            0 <= k < r_before.len() && r_before[k] == self.ids@[j];
                        assert(r@[k] == self.ids@[j]);
                    } else {
                        assert(r@[r@.len() - 1] == self.ids@[j]);
                    }
                }
            }
            i = i + 1;
        }
        proof {
            assert forall|id: u64| #[trigger]
                self.conns@.contains_key(id) && id != sender implies r@.contains(id) by {
                assert(self.ids@.contains(id));
                let j = choose|j: int| 0 <= j < self.ids@.len() && self.ids@[j] == id;
            }
        }
        r
    }

    /// Drops a connection from the table. Removing an unknown identifier
    /// is a no-op.
    pub fn remove_connection(&mut self, id: u64)
        requires
            old(self).wf(),
        ensures
            final(self).wf(),
            final(self).conns@ == old(self).conns@.remove(id),
            final(self).max_recovery_attempts == old(self).max_recovery_attempts,
    {
        self.conns.remove(&id);
        let mut i: usize = 0;
        while i < self.ids.len()
            invariant
                old(self).wf(),
                self.conns@ == old(self).conns@.remove(id),
                self.ids@ == old(self).ids@,
                self.max_recovery_attempts == old(self).max_recovery_attempts,
                0 <= i <= self.ids@.len(),
                forall|j: int| 0 <= j < i ==> #[trigger] self.ids@[j] != id,
            decreases self.ids@.len() - i,
        {
            if self.ids[i] == id {
                let ghost pre_ids = self.ids@;
                self.ids.remove(i);
                proof {
                    let pre = *old(self);
                    let now_ids = self.ids@;
                    assert(now_ids == pre_ids.subrange(0, i as int) + pre_ids.subrange(
                        i as int + 1,
                        pre_ids.len() as int,
                    ));
                    assert forall|a: int| 0 <= a < now_ids.len() implies now_ids[a] == (if a
                        < i as int {
                        pre_ids[a]
                    } else {
                        pre_ids[a + 1]
                    }) by {}
                    assert forall|a: int, b: int|
                        0 <= a < now_ids.len() && 0 <= b < now_ids.len() && a != b implies
                        now_ids[a] != now_ids[b] by {
                        let a0: int = if a < i as int {
                            a
                        } else {
                            a + 1
                        };
                        let b0: int = if b < i as int {
                            b
                        } else {
                            b + 1
                        };
                        assert(now_ids[a] == pre_ids[a0]);
                        assert(now_ids[b] == pre_ids[b0]);
                    }
                    assert forall|id2: u64| self.conns@.contains_key(id2) implies #[trigger] self.ids@.contains(
                        id2,
                    ) by {
                        assert(pre.conns@.contains_key(id2) && id2 != id);
                        assert(pre_ids.contains(id2));
                        let k = choose|k: int| 0 <= k < pre_ids.len() && pre_ids[k] == id2;
                        if k < i as int {
                            assert(now_ids[k] == id2);
                        } else {
                            assert(pre_ids[i as int] == id);
                            assert(k != i as int);
                            assert(now_ids[k - 1] == pre_ids[k]);
                        }
                    }
                }
                return ;
            }
            i = i + 1;
        }
        proof {
            assert forall|id2: u64| self.conns@.contains_key(id2) implies #[trigger] self.ids@.contains(
                id2,
            ) by {
                assert(old(self).conns@.contains_key(id2));
            }
        }
    }

    /// Evicts a failed connection: hands back the identifiers the eviction
    /// notice must be broadcast to, then removes the entry.
    pub fn handle_connection_failure(&mut self, id: u64) -> (targets: Vec<u64>)
        requires
            old(self).wf(),
        ensures
            final(self).wf(),
            final(self).conns@ == old(self).conns@.remove(id),
            final(self).max_recovery_attempts == old(self).max_recovery_attempts,
            forall|k: int|
                0 <= k < targets@.len() ==> old(self).conns@.contains_key(#[trigger] targets@[k])
                    && targets@[k] != id,
            forall|id2: u64| #[trigger]
                old(self).conns@.contains_key(id2) && id2 != id ==> targets@.contains(id2),
    {
        let targets = self.broadcast_targets(id);
        self.remove_connection(id);
        targets
    }

    /// Empties the table.
    pub fn cleanup(&mut self)
        ensures
            final(self).conns@ == Map::<u64, ConnectionStats>::empty(),
            final(self).max_recovery_attempts == old(self).max_recovery_attempts,
            final(self).wf(),
    {
        self.conns.clear();
        self.ids.clear();
    }
}

} // verus!
