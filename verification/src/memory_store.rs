//! In-memory session store.
//!
//! This store keeps sessions in memory, without any persistence. It is
//! intended to be used for debugging and testing. The sessions live in a
//! table whose invariant is that no two entries share a current id, which
//! makes the table a faithful implementation of the connector contract's
//! map model.

use crate::error::Error;
use crate::session::{Session, SessionExpiry, SessionState};
use crate::session_id::SessionId;
use crate::store_connector::{SessionStoreConnector, StoredSession, WriteSessionResult};
use crate::time::Timestamp;
use vstd::prelude::*;

verus! {

/// One stored session: its current id, expiry and data.
#[derive(Debug)]
struct MemoryEntry<SessionData> {
    current_id: SessionId,
    expiry: SessionExpiry,
    data: SessionData,
}

/// The stored expiry and data of an entry.
spec fn entry_stored<SessionData>(e: MemoryEntry<SessionData>) -> StoredSession<SessionData> {
    StoredSession { expiry: e.expiry, data: e.data }
}

/// The map from current id to stored session that a sequence of entries
/// represents. A later entry with the same id would shadow an earlier one,
/// but the table's invariant rules that out.
spec fn entries_map<SessionData>(s: Seq<MemoryEntry<SessionData>>) -> Map<
    Seq<u8>,
    StoredSession<SessionData>,
>
    decreases s.len(),
{
    if s.len() == 0 {
        Map::empty()
    } else {
        entries_map(s.drop_last()).insert(s.last().current_id@, entry_stored(s.last()))
    }
}

/// Whether no two entries share a current id.
spec fn ids_distinct<SessionData>(s: Seq<MemoryEntry<SessionData>>) -> bool {
    forall|i: int, j: int|
        0 <= i < j < s.len() ==> #[trigger] s[i].current_id@ != #[trigger] s[j].current_id@
}

proof fn lemma_entries_map_absent<SessionData>(s: Seq<MemoryEntry<SessionData>>, k: Seq<u8>)
    requires
        forall|i: int| 0 <= i < s.len() ==> #[trigger] s[i].current_id@ != k,
    ensures
        !entries_map(s).dom().contains(k),
    decreases s.len(),
{
    if s.len() > 0 {
        lemma_entries_map_absent(s.drop_last(), k);
    }
}

proof fn lemma_entries_map_present<SessionData>(s: Seq<MemoryEntry<SessionData>>, k: Seq<u8>)
    requires
        entries_map(s).dom().contains(k),
    ensures
        exists|i: int| 0 <= i < s.len() && #[trigger] s[i].current_id@ == k,
    decreases s.len(),
{
    if s.len() > 0 {
        if s.last().current_id@ == k {
            assert(s[s.len() - 1].current_id@ == k);
        } else {
            lemma_entries_map_present(s.drop_last(), k);
            let i = choose|i: int|
                0 <= i < s.drop_last().len() && #[trigger] s.drop_last()[i].current_id@ == k;
            assert(s[i].current_id@ == k);
        }
    }
}

proof fn lemma_entries_map_index<SessionData>(s: Seq<MemoryEntry<SessionData>>, i: int)
    requires
        ids_distinct(s),
        0 <= i < s.len(),
    ensures
        entries_map(s).dom().contains(s[i].current_id@),
        entries_map(s)[s[i].current_id@] == entry_stored(s[i]),
    decreases s.len(),
{
    if i == s.len() - 1 {
    } else {
        assert(ids_distinct(s.drop_last()));
        lemma_entries_map_index(s.drop_last(), i);
        assert(s.drop_last()[i] == s[i]);
        assert(s[i].current_id@ != s.last().current_id@);
    }
}

proof fn lemma_entries_map_finite<SessionData>(s: Seq<MemoryEntry<SessionData>>)
    ensures
        entries_map(s).dom().finite(),
    decreases s.len(),
{
    if s.len() > 0 {
        lemma_entries_map_finite(s.drop_last());
    }
}

proof fn lemma_entries_map_len<SessionData>(s: Seq<MemoryEntry<SessionData>>)
    requires
        ids_distinct(s),
    ensures
        entries_map(s).dom().finite(),
        entries_map(s).dom().len() == s.len(),
    decreases s.len(),
{
    lemma_entries_map_finite(s);
    if s.len() > 0 {
        assert(ids_distinct(s.drop_last()));
        lemma_entries_map_len(s.drop_last());
        assert forall|i: int|
            0 <= i < s.drop_last().len() implies #[trigger] s.drop_last()[i].current_id@
            != s.last().current_id@ by {
            assert(s[i].current_id@ != s[s.len() - 1].current_id@);
        }
        lemma_entries_map_absent(s.drop_last(), s.last().current_id@);
    }
}

proof fn lemma_ids_distinct_remove<SessionData>(s: Seq<MemoryEntry<SessionData>>, i: int)
    requires
        ids_distinct(s),
        0 <= i < s.len(),
    ensures
        ids_distinct(s.remove(i)),
{
    let t = s.remove(i);
    assert forall|a: int, b: int|
        0 <= a < b < t.len() implies #[trigger] t[a].current_id@ != #[trigger] t[b].current_id@ by {
        let a0 = if a < i {
            a
        } else {
            a + 1
        };
        let b0 = if b < i {
            b
        } else {
            b + 1
        };
        assert(t[a] == s[a0]);
        assert(t[b] == s[b0]);
        assert(s[a0].current_id@ != s[b0].current_id@);
    }
}

proof fn lemma_entries_map_remove<SessionData>(s: Seq<MemoryEntry<SessionData>>, i: int)
    requires
        ids_distinct(s),
        0 <= i < s.len(),
    ensures
        entries_map(s.remove(i)) == entries_map(s).remove(s[i].current_id@),
    decreases s.len(),
{
    let k = s[i].current_id@;
    if i == s.len() - 1 {
        assert(s.remove(i) =~= s.drop_last());
        assert forall|j: int|
            0 <= j < s.drop_last().len() implies #[trigger] s.drop_last()[j].current_id@ != k by {
            assert(s[j].current_id@ != s[s.len() - 1].current_id@);
        }
        lemma_entries_map_absent(s.drop_last(), k);
        assert(entries_map(s.remove(i)) =~= entries_map(s).remove(k));
    } else {
        let dl = s.drop_last();
        assert(ids_distinct(dl));
        lemma_entries_map_remove(dl, i);
        assert(s.remove(i).drop_last() =~= dl.remove(i));
        assert(s.remove(i).last() == s.last());
        assert(s.remove(i).len() == s.len() - 1);
        assert(entries_map(s.remove(i)) == entries_map(dl.remove(i)).insert(
            s.last().current_id@,
            entry_stored(s.last()),
        ));
        assert(dl[i] == s[i]);
        assert(k != s.last().current_id@) by {
            assert(s[i].current_id@ != s[s.len() - 1].current_id@);
        }
        assert(entries_map(dl).remove(k).insert(s.last().current_id@, entry_stored(s.last()))
            =~= entries_map(dl).insert(s.last().current_id@, entry_stored(s.last())).remove(k));
    }
}

/// Whether the cleanup keeps an entry with this expiry at `now`: sessions
/// are kept while their expiry lies strictly after `now`, or never comes.
pub open spec fn cleanup_keeps(expiry: SessionExpiry, now: Timestamp) -> bool {
    match expiry {
        SessionExpiry::DateTime(t) => t.millis > now.millis,
        SessionExpiry::Never => true,
    }
}

/// What the expiry cleanup guarantees: afterwards the store holds exactly
/// the sessions it held before whose expiry lies strictly after `now` or
/// never comes, unchanged.
pub open spec fn cleanup_post<SessionData>(
    pre: Map<Seq<u8>, StoredSession<SessionData>>,
    post: Map<Seq<u8>, StoredSession<SessionData>>,
    now: Timestamp,
) -> bool {
    (forall|k: Seq<u8>|
        #[trigger] post.dom().contains(k) <==> pre.dom().contains(k) && cleanup_keeps(
            pre[k].expiry,
            now,
        )) && (forall|k: Seq<u8>| #[trigger] post.dom().contains(k) ==> post[k] == pre[k])
}

/// The table of stored sessions. Its invariant: no two entries share a
/// current id, so the table is exactly the map `entries_map` of its entries.
#[derive(Debug)]
struct SessionTable<SessionData> {
    entries: Vec<MemoryEntry<SessionData>>,
}

impl<SessionData> View for SessionTable<SessionData> {
    type V = Map<Seq<u8>, StoredSession<SessionData>>;

    closed spec fn view(&self) -> Map<Seq<u8>, StoredSession<SessionData>> {
        entries_map(self.entries@)
    }
}

impl<SessionData> SessionTable<SessionData> {
    #[verifier::type_invariant]
    spec fn wf(self) -> bool {
        ids_distinct(self.entries@)
    }

    fn new() -> (r: SessionTable<SessionData>)
        ensures
            r@ == Map::<Seq<u8>, StoredSession<SessionData>>::empty(),
    {
        SessionTable { entries: Vec::new() }
    }

    /// The index of the entry bound to `id`, if one exists.
    #[verifier::loop_isolation(false)]
    fn find_index(&self, id: &SessionId) -> (r: Option<usize>)
        ensures
            match r {
                Some(i) => i < self.entries@.len() && self.entries@[i as int].current_id@ == id@
                    && self@.dom().contains(id@) && self@[id@] == entry_stored(
                    self.entries@[i as int],
                ),
                None => !self@.dom().contains(id@),
            },
    {
        proof {
            use_type_invariant(&*self);
        }
        let n = self.entries.len();
        let mut i: usize = 0;
        while i < n
            invariant
                i <= n,
                forall|j: int| 0 <= j < i ==> #[trigger] self.entries@[j].current_id@ != id@,
            decreases n - i,
        {
            if self.entries[i].current_id.equals(id) {
                proof {
                    lemma_entries_map_index(self.entries@, i as int);
                }
                return Some(i);
            }
            i += 1;
        }
        proof {
            lemma_entries_map_absent(self.entries@, id@);
        }
        None
    }

    /// Whether some entry is bound to `id`.
    fn contains_id(&self, id: &SessionId) -> (r: bool)
        ensures
            r == self@.dom().contains(id@),
    {
        self.find_index(id).is_some()
    }

    /// A reference to the entry bound to `id`, if one exists.
    fn get(&self, id: &SessionId) -> (r: Option<&MemoryEntry<SessionData>>)
        ensures
            match r {
                Some(e) => self@.dom().contains(id@) && e.current_id@ == id@ && self@[id@]
                    == entry_stored(*e),
                None => !self@.dom().contains(id@),
            },
    {
        match self.find_index(id) {
            Some(i) => Some(&self.entries[i]),
            None => None,
        }
    }

    /// Add an entry whose id is not yet bound.
    fn push_fresh(&mut self, entry: MemoryEntry<SessionData>)
        requires
            !old(self)@.dom().contains(entry.current_id@),
        ensures
            final(self)@ == old(self)@.insert(entry.current_id@, entry_stored(entry)),
    {
        proof {
            use_type_invariant(&*self);
        }
        let ghost old_entries = self.entries@;
        let mut entries: Vec<MemoryEntry<SessionData>> = Vec::new();
        core::mem::swap(&mut self.entries, &mut entries);
        entries.push(entry);
        proof {
            assert forall|i: int|
                0 <= i < old_entries.len() implies #[trigger] old_entries[i].current_id@
                != entry.current_id@ by {
                lemma_entries_map_index(old_entries, i);
            }
            assert(ids_distinct(entries@)) by {
                assert forall|i: int, j: int|
                    0 <= i < j < entries@.len() implies #[trigger] entries@[i].current_id@
                    != #[trigger] entries@[j].current_id@ by {
                    if j < old_entries.len() {
                        assert(old_entries[i].current_id@ != old_entries[j].current_id@);
                    } else {
                        assert(entries@[i] == old_entries[i]);
                    }
                }
            }
        }
        self.entries = entries;
        proof {
            assert(self.entries@.drop_last() =~= old_entries);
            assert(self@ == entries_map(old_entries).insert(
                entry.current_id@,
                entry_stored(entry),
            ));
        }
    }

    /// Remove the entry bound to `id`, if one exists.
    fn remove_id(&mut self, id: &SessionId)
        ensures
            final(self)@ == old(self)@.remove(id@),
    {
        proof {
            use_type_invariant(&*self);
        }
        let ghost old_entries = self.entries@;
        match self.find_index(id) {
            Some(i) => {
                let mut entries: Vec<MemoryEntry<SessionData>> = Vec::new();
                core::mem::swap(&mut self.entries, &mut entries);
                entries.remove(i);
                proof {
                    lemma_ids_distinct_remove(old_entries, i as int);
                }
                self.entries = entries;
                proof {
                    lemma_entries_map_remove(old_entries, i as int);
                }
            },
            None => {
                proof {
                    assert(old(self)@.remove(id@) =~= old(self)@);
                }
            },
        }
    }

    /// Remove all entries.
    fn clear(&mut self)
        ensures
            final(self)@ == Map::<Seq<u8>, StoredSession<SessionData>>::empty(),
    {
        let mut entries: Vec<MemoryEntry<SessionData>> = Vec::new();
        core::mem::swap(&mut self.entries, &mut entries);
    }

    /// The number of stored sessions.
    fn len(&self) -> (r: usize)
        ensures
            r == self@.dom().len(),
            self@.dom().finite(),
    {
        proof {
            use_type_invariant(&*self);
            lemma_entries_map_len(self.entries@);
        }
        self.entries.len()
    }
}

impl<SessionData: Copy> SessionTable<SessionData> {
    /// Remove every entry whose expiry is at or before `now`.
    #[verifier::loop_isolation(false)]
    fn retain_unexpired(&mut self, now: Timestamp)
        ensures
            cleanup_post(old(self)@, final(self)@, now),
    {
        proof {
            use_type_invariant(&*self);
        }
        let ghost old_entries = self.entries@;
        let mut entries: Vec<MemoryEntry<SessionData>> = Vec::new();
        core::mem::swap(&mut self.entries, &mut entries);
        let mut kept: Vec<MemoryEntry<SessionData>> = Vec::new();
        let ghost mut src: Seq<int> = Seq::empty();
        let n = entries.len();
        let mut i: usize = 0;
        while i < n
            invariant
                i <= n,
                src.len() == kept@.len(),
                forall|j: int|
                    0 <= j < src.len() ==> 0 <= #[trigger] src[j] < i && kept@[j].current_id@
                        == old_entries[src[j]].current_id@ && entry_stored(kept@[j])
                        == entry_stored(old_entries[src[j]]) && cleanup_keeps(
                        old_entries[src[j]].expiry,
                        now,
                    ),
                forall|j1: int, j2: int| 0 <= j1 < j2 < src.len() ==> src[j1] < src[j2],
                forall|t: int|
                    0 <= t < i && cleanup_keeps(#[trigger] old_entries[t].expiry, now) ==> exists|
                        j: int,
                    | 0 <= j < src.len() && src[j] == t,
            decreases n - i,
        {
            let ghost src0 = src;
            let keep = match entries[i].expiry {
                SessionExpiry::DateTime(t) => t.millis > now.millis,
                SessionExpiry::Never => true,
            };
            if keep {
                kept.push(
                    MemoryEntry {
                        current_id: entries[i].current_id.duplicate(),
                        expiry: entries[i].expiry,
                        data: entries[i].data,
                    },
                );
                proof {
                    src = src.push(i as int);
                }
            }
            proof {
                assert forall|t: int|
                    0 <= t < i + 1 && cleanup_keeps(
                        #[trigger] old_entries[t].expiry,
                        now,
                    ) implies exists|j: int| 0 <= j < src.len() && src[j] == t by {
                    if t == i {
                        assert(src[src.len() - 1] == t);
                    } else {
                        let j0 = choose|j: int| 0 <= j < src0.len() && #[trigger] src0[j] == t;
                        assert(src[j0] == t);
                    }
                }
            }
            i += 1;
        }
        proof {
            assert(ids_distinct(kept@)) by {
                assert forall|j1: int, j2: int|
                    0 <= j1 < j2 < kept@.len() implies #[trigger] kept@[j1].current_id@
                    != #[trigger] kept@[j2].current_id@ by {
                    assert(kept@[j1].current_id@ == old_entries[src[j1]].current_id@);
                    assert(kept@[j2].current_id@ == old_entries[src[j2]].current_id@);
                    assert(old_entries[src[j1]].current_id@ != old_entries[src[j2]].current_id@);
                }
            }
        }
        self.entries = kept;
        proof {
            let pre = entries_map(old_entries);
            let post = entries_map(self.entries@);
            assert forall|k: Seq<u8>| #[trigger] post.dom().contains(k) implies pre.dom().contains(
                k,
            ) && cleanup_keeps(pre[k].expiry, now) && post[k] == pre[k] by {
                lemma_entries_map_present(self.entries@, k);
                let j = choose|j: int|
                    0 <= j < self.entries@.len() && #[trigger] self.entries@[j].current_id@ == k;
                lemma_entries_map_index(self.entries@, j);
                let t = src[j];
                assert(entry_stored(self.entries@[j]) == entry_stored(old_entries[t]));
                lemma_entries_map_index(old_entries, t);
            }
            assert forall|k: Seq<u8>|
                pre.dom().contains(k) && cleanup_keeps(
                    pre[k].expiry,
                    now,
                ) implies #[trigger] post.dom().contains(k) by {
                lemma_entries_map_present(old_entries, k);
                let t = choose|t: int|
                    0 <= t < old_entries.len() && #[trigger] old_entries[t].current_id@ == k;
                lemma_entries_map_index(old_entries, t);
                assert(cleanup_keeps(old_entries[t].expiry, now));
                let j = choose|j: int| 0 <= j < src.len() && #[trigger] src[j] == t;
                assert(self.entries@[j].current_id@ == old_entries[t].current_id@);
                lemma_entries_map_index(self.entries@, j);
            }
        }
    }
}

/// Whether `post` is `pre` with one `CreateSession` record for the given
/// arguments appended.
pub open spec fn record_create_appended<SessionData>(
    pre: Seq<Operation<SessionData>>,
    post: Seq<Operation<SessionData>>,
    id: Seq<u8>,
    expiry: SessionExpiry,
    data: SessionData,
) -> bool {
    &&& post.len() == pre.len() + 1
    &&& post.drop_last() == pre
    &&& post.last() matches Operation::CreateSession { id: rid, expiry: rexpiry, data: rdata }
        && rid@ == id && rexpiry == expiry && rdata == data
}

/// Whether `post` is `pre` with one `ReadSession` record appended.
pub open spec fn record_read_appended<SessionData>(
    pre: Seq<Operation<SessionData>>,
    post: Seq<Operation<SessionData>>,
    id: Seq<u8>,
) -> bool {
    &&& post.len() == pre.len() + 1
    &&& post.drop_last() == pre
    &&& post.last() matches Operation::ReadSession { id: rid } && rid@ == id
}

/// Whether `post` is `pre` with one `UpdateSession` record for the given
/// arguments appended.
pub open spec fn record_update_appended<SessionData>(
    pre: Seq<Operation<SessionData>>,
    post: Seq<Operation<SessionData>>,
    current_id: Seq<u8>,
    previous_id: Seq<u8>,
    expiry: SessionExpiry,
    data: SessionData,
) -> bool {
    &&& post.len() == pre.len() + 1
    &&& post.drop_last() == pre
    &&& post.last() matches Operation::UpdateSession {
        current_id: rcur,
        previous_id: rprev,
        expiry: rexpiry,
        data: rdata,
    } && rcur@ == current_id && rprev@ == previous_id && rexpiry == expiry && rdata == data
}

/// Whether `post` is `pre` with one `DeleteSession` record appended.
pub open spec fn record_delete_appended<SessionData>(
    pre: Seq<Operation<SessionData>>,
    post: Seq<Operation<SessionData>>,
    id: Seq<u8>,
) -> bool {
    &&& post.len() == pre.len() + 1
    &&& post.drop_last() == pre
    &&& post.last() matches Operation::DeleteSession { current_id: rid } && rid@ == id
}

/// Whether `post` is `pre` with one `Clear` record appended.
pub open spec fn record_clear_appended<SessionData>(
    pre: Seq<Operation<SessionData>>,
    post: Seq<Operation<SessionData>>,
) -> bool {
    &&& post.len() == pre.len() + 1
    &&& post.drop_last() == pre
    &&& post.last() == Operation::<SessionData>::Clear
}

/// A logger for operations conducted by the memory store. This is intended
/// to be used for debug purposes.
///
/// A logger either keeps records or discards everything, and says which
/// through `spec_keeps_records`. A record-keeping logger appends exactly one
/// record per call, in call order, with the call's arguments.
pub trait MemoryStoreOperationLogger<SessionData>: Sized {
    /// Whether this logger keeps records at all.
    spec fn spec_keeps_records() -> bool;

    /// The operations recorded so far, oldest first. Empty forever on a
    /// logger that keeps no records.
    spec fn spec_records(&self) -> Seq<Operation<SessionData>>;

    /// Log a create session operation.
    fn log_create_session(&mut self, id: &SessionId, expiry: &SessionExpiry, data: &SessionData)
        ensures
            Self::spec_keeps_records() ==> record_create_appended(
                old(self).spec_records(),
                final(self).spec_records(),
                id@,
                *expiry,
                *data,
            ),
            !Self::spec_keeps_records() ==> final(self).spec_records() == old(self).spec_records(),
    ;

    /// Log a read session operation.
    fn log_read_session(&mut self, id: &SessionId)
        ensures
            Self::spec_keeps_records() ==> record_read_appended(
                old(self).spec_records(),
                final(self).spec_records(),
                id@,
            ),
            !Self::spec_keeps_records() ==> final(self).spec_records() == old(self).spec_records(),
    ;

    /// Log an update session operation.
    fn log_update_session(
        &mut self,
        current_id: &SessionId,
        previous_id: &SessionId,
        expiry: &SessionExpiry,
        data: &SessionData,
    )
        ensures
            Self::spec_keeps_records() ==> record_update_appended(
                old(self).spec_records(),
                final(self).spec_records(),
                current_id@,
                previous_id@,
                *expiry,
                *data,
            ),
            !Self::spec_keeps_records() ==> final(self).spec_records() == old(self).spec_records(),
    ;

    /// Log a delete session operation.
    fn log_delete_session(&mut self, current_id: &SessionId)
        ensures
            Self::spec_keeps_records() ==> record_delete_appended(
                old(self).spec_records(),
                final(self).spec_records(),
                current_id@,
            ),
            !Self::spec_keeps_records() ==> final(self).spec_records() == old(self).spec_records(),
    ;

    /// Log a clear operation.
    fn log_clear(&mut self)
        ensures
            Self::spec_keeps_records() ==> record_clear_appended(
                old(self).spec_records(),
                final(self).spec_records(),
            ),
            !Self::spec_keeps_records() ==> final(self).spec_records() == old(self).spec_records(),
    ;
}

/// A logger that ignores all logging operations.
#[derive(Debug, Clone, Copy)]
pub struct NoLogger;

impl<SessionData> MemoryStoreOperationLogger<SessionData> for NoLogger {
    open spec fn spec_keeps_records() -> bool {
        false
    }

    open spec fn spec_records(&self) -> Seq<Operation<SessionData>> {
        Seq::empty()
    }

    fn log_create_session(&mut self, id: &SessionId, expiry: &SessionExpiry, data: &SessionData) {
    }

    fn log_read_session(&mut self, id: &SessionId) {
    }

    fn log_update_session(
        &mut self,
        current_id: &SessionId,
        previous_id: &SessionId,
        expiry: &SessionExpiry,
        data: &SessionData,
    ) {
    }

    fn log_delete_session(&mut self, current_id: &SessionId) {
    }

    fn log_clear(&mut self) {
    }
}

/// An operation of the memory store, as recorded by `DefaultLogger`.
#[derive(Debug, PartialEq, Eq)]
#[allow(missing_docs)]
pub enum Operation<SessionData> {
    CreateSession { id: SessionId, expiry: SessionExpiry, data: SessionData },
    ReadSession { id: SessionId },
    UpdateSession {
        current_id: SessionId,
        previous_id: SessionId,
        expiry: SessionExpiry,
        data: SessionData,
    },
    DeleteSession { current_id: SessionId },
    Clear,
}

/// A logger that records all operations in a vector.
#[derive(Debug)]
pub struct DefaultLogger<SessionData> {
    log: Vec<Operation<SessionData>>,
}

impl<SessionData: Copy> DefaultLogger<SessionData> {
    /// Consume the logger and return the vector of logged operations.
    pub fn into_inner(self) -> (r: Vec<Operation<SessionData>>)
        ensures
            r@ == self.spec_records(),
    {
        self.log
    }
}

impl<SessionData: Copy> Default for DefaultLogger<SessionData> {
    fn default() -> (r: DefaultLogger<SessionData>)
        ensures
            r.spec_records() == Seq::<Operation<SessionData>>::empty(),
    {
        DefaultLogger { log: Vec::new() }
    }
}

impl<SessionData: Copy> MemoryStoreOperationLogger<SessionData> for DefaultLogger<SessionData> {
    open spec fn spec_keeps_records() -> bool {
        true
    }

    closed spec fn spec_records(&self) -> Seq<Operation<SessionData>> {
        self.log@
    }

    fn log_create_session(&mut self, id: &SessionId, expiry: &SessionExpiry, data: &SessionData) {
        self.log.push(
            Operation::CreateSession { id: id.duplicate(), expiry: *expiry, data: *data },
        );
        proof {
            assert(self.log@.drop_last() =~= old(self).log@);
        }
    }

    fn log_read_session(&mut self, id: &SessionId) {
        self.log.push(Operation::ReadSession { id: id.duplicate() });
        proof {
            assert(self.log@.drop_last() =~= old(self).log@);
        }
    }

    fn log_update_session(
        &mut self,
        current_id: &SessionId,
        previous_id: &SessionId,
        expiry: &SessionExpiry,
        data: &SessionData,
    ) {
        self.log.push(
            Operation::UpdateSession {
                current_id: current_id.duplicate(),
                previous_id: previous_id.duplicate(),
                expiry: *expiry,
                data: *data,
            },
        );
        proof {
            assert(self.log@.drop_last() =~= old(self).log@);
        }
    }

    fn log_delete_session(&mut self, current_id: &SessionId) {
        self.log.push(Operation::DeleteSession { current_id: current_id.duplicate() });
        proof {
            assert(self.log@.drop_last() =~= old(self).log@);
        }
    }

    fn log_clear(&mut self) {
        self.log.push(Operation::Clear);
        proof {
            assert(self.log@.drop_last() =~= old(self).log@);
        }
    }
}

/// Whether a session state is `Unchanged` and carries `id` as its current
/// id.
pub open spec fn unchanged_with_id<SessionData>(
    state: SessionState<SessionData>,
    id: Seq<u8>,
) -> bool {
    state matches SessionState::Unchanged { current_id, .. } && current_id@ == id
}

/// An in-memory session store for debugging and testing.
///
/// Its session data type must be `Copy`, which the plain payloads used in
/// tests are; persistent connectors are free to accept any data they can
/// serialise.
#[derive(Debug)]
pub struct MemoryStore<SessionData, OperationLogger> {
    table: SessionTable<SessionData>,
    operation_logger: OperationLogger,
    maximum_retries_on_id_collision: Option<u32>,
}

impl<SessionData: Copy> MemoryStore<SessionData, NoLogger> {
    /// Create a new empty memory store.
    pub fn new() -> (r: MemoryStore<SessionData, NoLogger>)
        ensures
            r.contents() == Map::<Seq<u8>, StoredSession<SessionData>>::empty(),
            r.spec_max_retries() is None,
    {
        MemoryStore {
            table: SessionTable::new(),
            operation_logger: NoLogger,
            maximum_retries_on_id_collision: None,
        }
    }
}

impl<SessionData: Copy> MemoryStore<SessionData, DefaultLogger<SessionData>> {
    /// Create a new empty memory store with a logger recording all store
    /// operations.
    pub fn new_with_logger() -> (r: MemoryStore<SessionData, DefaultLogger<SessionData>>)
        ensures
            r.contents() == Map::<Seq<u8>, StoredSession<SessionData>>::empty(),
            r.spec_max_retries() is None,
            r.spec_logger().spec_records() == Seq::<Operation<SessionData>>::empty(),
    {
        MemoryStore {
            table: SessionTable::new(),
            operation_logger: Default::default(),
            maximum_retries_on_id_collision: None,
        }
    }
}

impl<
    SessionData: Copy,
    OperationLogger: Default + MemoryStoreOperationLogger<SessionData>,
> Default for MemoryStore<SessionData, OperationLogger> {
    fn default() -> (r: MemoryStore<SessionData, OperationLogger>)
        ensures
            r.contents() == Map::<Seq<u8>, StoredSession<SessionData>>::empty(),
            r.spec_max_retries() is None,
    {
        MemoryStore {
            table: SessionTable::new(),
            operation_logger: Default::default(),
            maximum_retries_on_id_collision: None,
        }
    }
}

impl<SessionData, OperationLogger> MemoryStore<SessionData, OperationLogger> {
    /// The logger of this store.
    pub closed spec fn spec_logger(&self) -> OperationLogger {
        self.operation_logger
    }

    /// Consumes the store and returns its logger.
    pub fn into_logger(self) -> (r: OperationLogger)
        ensures
            r == self.spec_logger(),
    {
        self.operation_logger
    }
}

impl<
    SessionData: Copy,
    OperationLogger: MemoryStoreOperationLogger<SessionData>,
> MemoryStore<SessionData, OperationLogger> {
    /// Sets the maximum retries on id collision; see
    /// `SessionStoreConnector::maximum_retries_on_id_collision` for details.
    pub fn set_maximum_retries_on_id_collision(
        &mut self,
        maximum_retries_on_id_collision: Option<u32>,
    )
        ensures
            final(self).spec_max_retries() == maximum_retries_on_id_collision,
            final(self).contents() == old(self).contents(),
            final(self).spec_logger() == old(self).spec_logger(),
    {
        self.maximum_retries_on_id_collision = maximum_retries_on_id_collision;
    }

    /// Returns the number of sessions in the memory store.
    pub fn len(&self) -> (r: usize)
        ensures
            r == self.contents().dom().len(),
            self.contents().dom().finite(),
    {
        self.table.len()
    }

    /// Returns true if the memory store holds no session.
    pub fn is_empty(&self) -> (r: bool)
        ensures
            r == (self.contents().dom().len() == 0),
            self.contents().dom().finite(),
    {
        self.len() == 0
    }

    /// Deletes all sessions whose expiry is at or before `now`.
    pub fn delete_expired_sessions_at(&mut self, now: Timestamp)
        ensures
            final(self).spec_max_retries() == old(self).spec_max_retries(),
            final(self).spec_logger() == old(self).spec_logger(),
            cleanup_post(old(self).contents(), final(self).contents(), now),
    {
        self.table.retain_unexpired(now);
    }

    /// Deletes all sessions that are expired at the current instant.
    pub fn delete_expired_sessions(&mut self)
        ensures
            final(self).spec_max_retries() == old(self).spec_max_retries(),
            final(self).spec_logger() == old(self).spec_logger(),
            exists|now: Timestamp|
                #[trigger] cleanup_post(old(self).contents(), final(self).contents(), now),
    {
        let now = crate::time::now_timestamp();
        self.delete_expired_sessions_at(now);
    }

    /// All sessions in the store, each in the `Unchanged` state, in no
    /// particular order.
    #[verifier::loop_isolation(false)]
    pub fn sessions(&self) -> (r: Vec<Session<SessionData>>)
        ensures
            self.contents().dom().finite(),
            r@.len() == self.contents().dom().len(),
            forall|j: int|
                0 <= j < r@.len() ==> (#[trigger] r@[j]@ matches SessionState::Unchanged {
                    current_id,
                    expiry,
                    data,
                } && self.contents().dom().contains(current_id@) && self.contents()[current_id@]
                    == (StoredSession { expiry, data })),
            forall|k: Seq<u8>|
                #[trigger] self.contents().dom().contains(k) ==> exists|j: int|
                    0 <= j < r@.len() && unchanged_with_id(#[trigger] r@[j]@, k),
    {
        proof {
            use_type_invariant(&self.table);
            lemma_entries_map_len(self.table.entries@);
        }
        let n = self.table.entries.len();
        let mut sessions: Vec<Session<SessionData>> = Vec::new();
        let mut i: usize = 0;
        while i < n
            invariant
                i <= n,
                sessions@.len() == i,
                forall|j: int|
                    0 <= j < i ==> (#[trigger] sessions@[j]@ matches SessionState::Unchanged {
                        current_id,
                        expiry,
                        data,
                    } && current_id@ == self.table.entries@[j].current_id@
                        && self.contents().dom().contains(current_id@) && self.contents()[
                        current_id@
                    ] == (StoredSession { expiry, data })),
            decreases n - i,
        {
            let entry = &self.table.entries[i];
            proof {
                lemma_entries_map_index(self.table.entries@, i as int);
            }
            sessions.push(
                Session::new_from_session_store(entry.current_id.duplicate(), entry.expiry, entry.data),
            );
            i += 1;
        }
        proof {
            assert forall|k: Seq<u8>|
                #[trigger] self.contents().dom().contains(k) implies exists|j: int|
                0 <= j < sessions@.len() && unchanged_with_id(#[trigger] sessions@[j]@, k) by {
                lemma_entries_map_present(self.table.entries@, k);
                let j = choose|j: int|
                    0 <= j < self.table.entries@.len() && #[trigger] self.table.entries@[
                        j
                    ].current_id@ == k;
                assert(unchanged_with_id(sessions@[j]@, k));
            }
        }
        sessions
    }
}

impl<
    SessionData: Copy,
    OperationLogger: MemoryStoreOperationLogger<SessionData>,
> MemoryStore<SessionData, OperationLogger> {
    /// A convenience over `sessions`: calls `f` once for each session that
    /// `sessions` returns, each in the `Unchanged` state, in no particular
    /// order. The store itself is not modified.
    #[verifier::loop_isolation(false)]
    pub fn for_each<F: FnMut(Session<SessionData>)>(&self, f: F)
        requires
            forall|g: F, s: Session<SessionData>| #[trigger] call_requires(g, (s,)),
    {
        let mut f = f;
        let mut remaining = self.sessions();
        while remaining.len() > 0
            decreases remaining.len(),
        {
            let session = remaining.pop().unwrap();
            f(session);
        }
    }
}

impl<
    SessionData: Copy,
    OperationLogger: MemoryStoreOperationLogger<SessionData>,
> SessionStoreConnector<SessionData> for MemoryStore<SessionData, OperationLogger> {
    type Error = ();

    closed spec fn contents(&self) -> Map<Seq<u8>, StoredSession<SessionData>> {
        self.table@
    }

    closed spec fn spec_max_retries(&self) -> Option<u32> {
        self.maximum_retries_on_id_collision
    }

    fn maximum_retries_on_id_collision(&self) -> (r: Option<u32>) {
        self.maximum_retries_on_id_collision
    }

    fn create_session(
        &mut self,
        current_id: &SessionId,
        expiry: &SessionExpiry,
        data: &SessionData,
    ) -> (r: Result<WriteSessionResult, Error<()>>)
        ensures
            r is Ok,
            r matches Ok(w) ==> (w is Written <==> crate::store_connector::create_applies(
                old(self).contents(),
                current_id@,
            )),
            OperationLogger::spec_keeps_records() ==> record_create_appended(
                old(self).spec_logger().spec_records(),
                final(self).spec_logger().spec_records(),
                current_id@,
                *expiry,
                *data,
            ),
            !OperationLogger::spec_keeps_records() ==> final(self).spec_logger().spec_records()
                == old(self).spec_logger().spec_records(),
    {
        self.operation_logger.log_create_session(current_id, expiry, data);
        if self.table.contains_id(current_id) {
            Ok(WriteSessionResult::SessionIdExists)
        } else {
            self.table.push_fresh(
                MemoryEntry { current_id: current_id.duplicate(), expiry: *expiry, data: *data },
            );
            Ok(WriteSessionResult::Written(()))
        }
    }

    fn read_session(&mut self, id: SessionId) -> (r: Result<
        Option<Session<SessionData>>,
        Error<()>,
    >)
        ensures
            r is Ok,
            OperationLogger::spec_keeps_records() ==> record_read_appended(
                old(self).spec_logger().spec_records(),
                final(self).spec_logger().spec_records(),
                id@,
            ),
            !OperationLogger::spec_keeps_records() ==> final(self).spec_logger().spec_records()
                == old(self).spec_logger().spec_records(),
    {
        self.operation_logger.log_read_session(&id);
        match self.table.get(&id) {
            Some(entry) => Ok(
                Some(
                    Session::new_from_session_store(
                        entry.current_id.duplicate(),
                        entry.expiry,
                        entry.data,
                    ),
                ),
            ),
            None => Ok(None),
        }
    }

    fn update_session(
        &mut self,
        current_id: &SessionId,
        previous_id: &SessionId,
        expiry: &SessionExpiry,
        data: &SessionData,
    ) -> (r: Result<WriteSessionResult, Error<()>>)
        ensures
            old(self).contents().dom().contains(current_id@) ==> r matches Ok(
                WriteSessionResult::SessionIdExists,
            ),
            crate::store_connector::update_applies(
                old(self).contents(),
                current_id@,
                previous_id@,
            ) ==> r matches Ok(WriteSessionResult::Written(())),
            !old(self).contents().dom().contains(current_id@) && !old(
                self,
            ).contents().dom().contains(previous_id@) ==> r matches Err(
                Error::UpdatedSessionDoesNotExist,
            ),
            OperationLogger::spec_keeps_records() ==> record_update_appended(
                old(self).spec_logger().spec_records(),
                final(self).spec_logger().spec_records(),
                current_id@,
                previous_id@,
                *expiry,
                *data,
            ),
            !OperationLogger::spec_keeps_records() ==> final(self).spec_logger().spec_records()
                == old(self).spec_logger().spec_records(),
    {
        self.operation_logger.log_update_session(current_id, previous_id, expiry, data);
        if self.table.contains_id(current_id) {
            Ok(WriteSessionResult::SessionIdExists)
        } else if self.table.contains_id(previous_id) {
            self.table.remove_id(previous_id);
            self.table.push_fresh(
                MemoryEntry { current_id: current_id.duplicate(), expiry: *expiry, data: *data },
            );
            Ok(WriteSessionResult::Written(()))
        } else {
            Err(Error::UpdatedSessionDoesNotExist)
        }
    }

    fn delete_session(&mut self, id: &SessionId) -> (r: Result<(), Error<()>>)
        ensures
            r is Ok,
            OperationLogger::spec_keeps_records() ==> record_delete_appended(
                old(self).spec_logger().spec_records(),
                final(self).spec_logger().spec_records(),
                id@,
            ),
            !OperationLogger::spec_keeps_records() ==> final(self).spec_logger().spec_records()
                == old(self).spec_logger().spec_records(),
    {
        self.operation_logger.log_delete_session(id);
        self.table.remove_id(id);
        Ok(())
    }

    fn clear(&mut self) -> (r: Result<(), Error<()>>)
        ensures
            r is Ok,
            OperationLogger::spec_keeps_records() ==> record_clear_appended(
                old(self).spec_logger().spec_records(),
                final(self).spec_logger().spec_records(),
            ),
            !OperationLogger::spec_keeps_records() ==> final(self).spec_logger().spec_records()
                == old(self).spec_logger().spec_records(),
    {
        self.operation_logger.log_clear();
        self.table.clear();
        Ok(())
    }
}

} // verus!
