//! Reconciliation of the running workers with the connections that the
//! client has declared, for one protocol family.

use crate::text::texts;
use vstd::prelude::*;

verus! {

/// The bookkeeping entry of one live worker.
pub struct WorkerRecord {
    pub connection_id: String,
    /// The termination signal: once set, the worker ends at its next tick.
    pub killed: bool,
}

/// What a record holds, as plain values.
pub struct WorkerEntry {
    pub id: Seq<char>,
    pub killed: bool,
}

impl View for WorkerRecord {
    type V = WorkerEntry;

    open spec fn view(&self) -> WorkerEntry {
        WorkerEntry { id: self.connection_id@, killed: self.killed }
    }
}

/// The ids of a list of entries, in order.
pub open spec fn entry_ids(entries: Seq<WorkerEntry>) -> Seq<Seq<char>> {
    entries.map_values(|e: WorkerEntry| e.id)
}

/// Whether the worker `id` has a record without the termination signal.
pub open spec fn is_live(entries: Seq<WorkerEntry>, id: Seq<char>) -> bool {
    exists|i: int| 0 <= i < entries.len() && (#[trigger] entries[i]).id == id && !entries[i].killed
}

/// The ids of the workers that are to go on running.
pub open spec fn live_ids(entries: Seq<WorkerEntry>) -> Set<Seq<char>> {
    Set::new(|id: Seq<char>| is_live(entries, id))
}

/// The entries after every worker whose id is not desired got its
/// termination signal.
pub open spec fn signalled(entries: Seq<WorkerEntry>, desired: Seq<Seq<char>>) -> Seq<WorkerEntry> {
    entries.map_values(
        |e: WorkerEntry| WorkerEntry { id: e.id, killed: e.killed || !desired.contains(e.id) },
    )
}

/// The desired ids that have no worker yet: each once, in the order in which
/// `desired` first names them.
pub open spec fn missing_ids(desired: Seq<Seq<char>>, known: Seq<Seq<char>>) -> Seq<Seq<char>>
    decreases desired.len(),
{
    if desired.len() == 0 {
        Seq::empty()
    } else {
        let earlier = missing_ids(desired.drop_last(), known);
        let id = desired.last();
        if known.contains(id) || earlier.contains(id) {
            earlier
        } else {
            earlier.push(id)
        }
    }
}

/// Entries of new workers for the given ids.
pub open spec fn fresh_entries(ids: Seq<Seq<char>>) -> Seq<WorkerEntry> {
    ids.map_values(|id: Seq<char>| WorkerEntry { id, killed: false })
}

/// The entries after one reconciliation tick.
pub open spec fn reconciled(entries: Seq<WorkerEntry>, desired: Seq<Seq<char>>) -> Seq<WorkerEntry> {
    signalled(entries, desired) + fresh_entries(missing_ids(desired, entry_ids(entries)))
}

/// The entries without the one of the worker `id`, if that worker has its
/// termination signal.
pub open spec fn retired(entries: Seq<WorkerEntry>, id: Seq<char>) -> Seq<WorkerEntry> {
    entries.filter(|e: WorkerEntry| !(e.id == id && e.killed))
}

/// What a list of records holds, in order.
pub open spec fn entries_of(records: Seq<WorkerRecord>) -> Seq<WorkerEntry> {
    records.map_values(|r: WorkerRecord| r@)
}

/// The position of the first record with the given id.
fn find_record(records: &Vec<WorkerRecord>, id: &str) -> (found: Option<usize>)
    ensures
        match found {
            Some(i) => i < records@.len() && entries_of(records@)[i as int].id == id@ && forall|j: int|
                0 <= j < i ==> entries_of(records@)[j].id != id@,
            None => !entry_ids(entries_of(records@)).contains(id@),
        },
{
    let ghost entries = entries_of(records@);
    let mut i: usize = 0;
    while i < records.len()
        invariant
            i <= records.len(),
            entries == entries_of(records@),
            forall|j: int| 0 <= j < i ==> entries[j].id != id@,
        decreases records.len() - i,
    {
        if crate::text::same_text(records[i].connection_id.as_str(), id) {
            return Some(i);
        }
        i += 1;
    }
    assert forall|j: int| 0 <= j < entry_ids(entries).len() implies entry_ids(entries)[j] != id@ by {
        assert(entry_ids(entries)[j] == entries[j].id);
    }
    None
}

/// The entries that are left once every worker with a termination signal
/// has ended.
pub open spec fn swept(entries: Seq<WorkerEntry>) -> Seq<WorkerEntry> {
    entries.filter(|e: WorkerEntry| !e.killed)
}

/// The records of the live workers of one protocol family. At most one
/// record exists for a connection id.
pub struct WorkerTable {
    records: Vec<WorkerRecord>,
}

impl View for WorkerTable {
    type V = Seq<WorkerEntry>;

    closed spec fn view(&self) -> Seq<WorkerEntry> {
        entries_of(self.records@)
    }
}

impl WorkerTable {
    /// No two records share a connection id. This holds of every table
    /// at all times.
    #[verifier::type_invariant]
    pub open spec fn unique_ids(&self) -> bool {
        entry_ids(self@).no_duplicates()
    }

    /// A table without workers.
    pub fn new() -> (table: WorkerTable)
        ensures
            table@.len() == 0,
            table.unique_ids(),
    {
        WorkerTable { records: Vec::new() }
    }

    /// The number of records.
    pub fn len(&self) -> (n: usize)
        ensures
            n == self@.len(),
    {
        self.records.len()
    }

    /// A copy of the records, in the table's order.
    pub fn records(&self) -> (copy: Vec<WorkerRecord>)
        ensures
            entries_of(copy@) == self@,
    {
        let mut copy: Vec<WorkerRecord> = Vec::new();
        let mut i: usize = 0;
        while i < self.records.len()
            invariant
                i <= self.records.len(),
                entries_of(copy@) == self@.take(i as int),
            decreases self.records.len() - i,
        {
            let ghost prior = copy@;
            let record = WorkerRecord {
                connection_id: self.records[i].connection_id.clone(),
                killed: self.records[i].killed,
            };
            copy.push(record);
            assert(entries_of(copy@) =~= entries_of(prior).push(self@[i as int]));
            i += 1;
            assert(entries_of(copy@) =~= self@.take(i as int));
        }
        assert(self@.take(i as int) =~= self@);
        copy
    }

    /// The position of the record of worker `id`.
    pub fn position(&self, id: &str) -> (found: Option<usize>)
        ensures
            match found {
                Some(i) => i < self@.len() && self@[i as int].id == id@ && forall|j: int|
                    0 <= j < i ==> self@[j].id != id@,
                None => !entry_ids(self@).contains(id@),
            },
    {
        find_record(&self.records, id)
    }

    /// Whether the worker `id` has to end: its record carries the
    /// termination signal, or it has no record at all.
    pub fn must_exit(&self, id: &str) -> (exit: bool)
        ensures
            exit == !is_live(self@, id@),
    {
        let mut i: usize = 0;
        while i < self.records.len()
            invariant
                i <= self.records.len(),
                forall|j: int| 0 <= j < i ==> !((#[trigger] self@[j]).id == id@ && !self@[j].killed),
            decreases self.records.len() - i,
        {
            if !self.records[i].killed && crate::text::same_text(
                self.records[i].connection_id.as_str(),
                id,
            ) {
                assert(self@[i as int].id == id@ && !self@[i as int].killed);
                return false;
            }
            i += 1;
        }
        true
    }

    /// One reconciliation tick against the ids that the client desires.
    /// Every worker whose id is no longer desired gets its termination
    /// signal; every desired id without a record gets a record, and is
    /// returned so that the caller starts its worker.
    pub fn reconcile(&mut self, desired: &Vec<String>) -> (spawned: Vec<String>)
        ensures
            final(self).unique_ids(),
            final(self)@ == reconciled(old(self)@, texts(desired@)),
            texts(spawned@) == missing_ids(texts(desired@), entry_ids(old(self)@)),
    {
        proof {
            use_type_invariant(&*self);
        }
        let ghost before = self@;
        let ghost wanted = texts(desired@);
        let mut records: Vec<WorkerRecord> = Vec::new();
        core::mem::swap(&mut self.records, &mut records);
        let n: usize = records.len();
        let mut i: usize = 0;
        while i < n
            invariant
                n == records.len(),
                n == before.len(),
                i <= n,
                wanted == texts(desired@),
                forall|k: int| 0 <= k < i ==> entries_of(records@)[k] == signalled(before, wanted)[k],
                forall|k: int| i <= k < n ==> entries_of(records@)[k] == before[k],
            decreases n - i,
        {
            if !holds(desired, records[i].connection_id.as_str()) {
                records[i].killed = true;
            }
            i += 1;
        }
        assert(entries_of(records@) =~= signalled(before, wanted));
        let mut spawned: Vec<String> = Vec::new();
        let mut j: usize = 0;
        proof {
            assert(wanted.take(0) =~= Seq::empty());
            assert(texts(spawned@) =~= Seq::empty());
            assert(entries_of(records@) =~= signalled(before, wanted) + fresh_entries(Seq::empty()));
            lemma_reconciled_ids(before, wanted, Seq::empty());
        }
        while j < desired.len()
            invariant
                j <= desired.len(),
                wanted == texts(desired@),
                entry_ids(before).no_duplicates(),
                texts(spawned@) == missing_ids(wanted.take(j as int), entry_ids(before)),
                entries_of(records@) == signalled(before, wanted) + fresh_entries(texts(spawned@)),
                entry_ids(entries_of(records@)) == entry_ids(before) + texts(spawned@),
                entry_ids(entries_of(records@)).no_duplicates(),
            decreases desired.len() - j,
        {
            let id = &desired[j];
            proof {
                assert(wanted.take(j + 1).drop_last() =~= wanted.take(j as int));
                assert(wanted.take(j + 1).last() == id@);
                lemma_concat_contains(entry_ids(before), texts(spawned@), id@);
                let known = entry_ids(before);
                let earlier = missing_ids(wanted.take(j as int), known);
                assert(missing_ids(wanted.take(j + 1), known) == if known.contains(id@)
                    || earlier.contains(id@) {
                    earlier
                } else {
                    earlier.push(id@)
                });
            }
            let found = find_record(&records, id.as_str());
            proof {
                if let Some(at) = found {
                    assert(entry_ids(entries_of(records@))[at as int] == id@);
                }
            }
            if found.is_none() {
                let ghost earlier = texts(spawned@);
                let ghost entries = entries_of(records@);
                records.push(WorkerRecord { connection_id: id.clone(), killed: false });
                spawned.push(id.clone());
                proof {
                    assert(texts(spawned@) =~= earlier.push(id@));
                    assert(entries_of(records@) =~= entries.push(WorkerEntry { id: id@, killed: false }));
                    assert(fresh_entries(earlier.push(id@)) =~= fresh_entries(earlier).push(
                        WorkerEntry { id: id@, killed: false },
                    ));
                    assert(entries_of(records@) =~= signalled(before, wanted) + fresh_entries(
                        texts(spawned@),
                    ));
                    lemma_reconciled_ids(before, wanted, texts(spawned@));
                    assert(entry_ids(entries_of(records@)) =~= entry_ids(entries).push(id@));
                    lemma_push_keeps_distinct(entry_ids(entries), id@);
                }
            }
            j += 1;
        }
        assert(wanted.take(j as int) =~= wanted);
        self.records = records;
        spawned
    }

    /// The worker `id` has observed its termination signal and ends: its
    /// record leaves the table. A worker without the signal keeps its
    /// record.
    pub fn retire(&mut self, id: &str) -> (removed: bool)
        ensures
            final(self).unique_ids(),
            final(self)@ == retired(old(self)@, id@),
            removed == (final(self)@.len() < old(self)@.len()),
            removed == exists|i: int|
                0 <= i < old(self)@.len() && (#[trigger] old(self)@[i]).id == id@ && old(self)@[i].killed,
    {
        proof {
            use_type_invariant(&*self);
        }
        let ghost before = self@;
        match self.position(id) {
            Some(i) => {
                proof {
                    lemma_distinct_position(before, i as int);
                }
                if self.records[i].killed {
                    let mut records: Vec<WorkerRecord> = Vec::new();
                    core::mem::swap(&mut self.records, &mut records);
                    records.remove(i);
                    proof {
                        assert(entries_of(records@) =~= before.remove(i as int));
                        lemma_retired_one(before, i as int);
                        lemma_remove_keeps_distinct(entry_ids(before), i as int);
                        assert(entry_ids(entries_of(records@)) =~= entry_ids(before).remove(i as int));
                    }
                    self.records = records;
                    true
                } else {
                    proof {
                        lemma_retired_none(before, id@);
                    }
                    false
                }
            },
            None => {
                proof {
                    assert forall|k: int| 0 <= k < before.len() implies (#[trigger] before[k]).id
                        != id@ by {
                        assert(entry_ids(before)[k] == before[k].id);
                    }
                    lemma_retired_none(before, id@);
                }
                false
            },
        }
    }
}

/// Looks for `id` in a list of ids.
pub fn holds(list: &Vec<String>, id: &str) -> (found: bool)
    ensures
        found == texts(list@).contains(id@),
{
    let mut i: usize = 0;
    while i < list.len()
        invariant
            i <= list.len(),
            forall|k: int| 0 <= k < i ==> texts(list@)[k] != id@,
        decreases list.len() - i,
    {
        if crate::text::same_text(list[i].as_str(), id) {
            assert(texts(list@)[i as int] == id@);
            return true;
        }
        i += 1;
    }
    false
}

/// An id is in a concatenation if it is in one of its parts.
proof fn lemma_concat_contains(a: Seq<Seq<char>>, b: Seq<Seq<char>>, id: Seq<char>)
    ensures
        (a + b).contains(id) == (a.contains(id) || b.contains(id)),
{
    if a.contains(id) {
        let i = choose|i: int| 0 <= i < a.len() && a[i] == id;
        assert((a + b)[i] == id);
    }
    if b.contains(id) {
        let i = choose|i: int| 0 <= i < b.len() && b[i] == id;
        assert((a + b)[a.len() + i] == id);
    }
    if (a + b).contains(id) {
        let i = choose|i: int| 0 <= i < (a + b).len() && (a + b)[i] == id;
        if i < a.len() {
            assert(a[i] == id);
        } else {
            assert(b[i - a.len()] == id);
        }
    }
}

/// The ids after a tick are the ids before it, then the new ones.
proof fn lemma_reconciled_ids(before: Seq<WorkerEntry>, wanted: Seq<Seq<char>>, added: Seq<Seq<char>>)
    ensures
        entry_ids(signalled(before, wanted) + fresh_entries(added)) == entry_ids(before) + added,
{
    assert(entry_ids(signalled(before, wanted) + fresh_entries(added)) =~= entry_ids(before)
        + added);
}

/// A list without repetition stays so when an id that it lacks is added.
proof fn lemma_push_keeps_distinct(ids: Seq<Seq<char>>, id: Seq<char>)
    requires
        ids.no_duplicates(),
        !ids.contains(id),
    ensures
        ids.push(id).no_duplicates(),
{
    let grown = ids.push(id);
    assert forall|i: int, j: int| 0 <= i < grown.len() && 0 <= j < grown.len() && i != j implies grown[i]
        != grown[j] by {
        if i < ids.len() && j == ids.len() {
            assert(ids[i] != id);
        }
        if j < ids.len() && i == ids.len() {
            assert(ids[j] != id);
        }
    }
}

/// A list without repetition stays so when an entry is taken out.
proof fn lemma_remove_keeps_distinct(ids: Seq<Seq<char>>, at: int)
    requires
        ids.no_duplicates(),
        0 <= at < ids.len(),
    ensures
        ids.remove(at).no_duplicates(),
{
    let rest = ids.remove(at);
    assert forall|i: int, j: int| 0 <= i < rest.len() && 0 <= j < rest.len() && i != j implies rest[i]
        != rest[j] by {
        let a = if i < at {
            i
        } else {
            i + 1
        };
        let b = if j < at {
            j
        } else {
            j + 1
        };
        assert(rest[i] == ids[a]);
        assert(rest[j] == ids[b]);
    }
}

/// In a table without repeated ids, the entry at `at` is the only one with
/// its id.
proof fn lemma_distinct_position(entries: Seq<WorkerEntry>, at: int)
    requires
        entry_ids(entries).no_duplicates(),
        0 <= at < entries.len(),
    ensures
        forall|k: int| 0 <= k < entries.len() && k != at ==> (#[trigger] entries[k]).id != entries[at].id,
{
    assert forall|k: int| 0 <= k < entries.len() && k != at implies (#[trigger] entries[k]).id
        != entries[at].id by {
        assert(entry_ids(entries)[k] == entries[k].id);
        assert(entry_ids(entries)[at] == entries[at].id);
    }
}

/// Retiring leaves a table as it is when no entry has both the id and the
/// termination signal.
proof fn lemma_retired_none(entries: Seq<WorkerEntry>, id: Seq<char>)
    requires
        forall|k: int| 0 <= k < entries.len() ==> !((#[trigger] entries[k]).id == id && entries[k].killed),
    ensures
        retired(entries, id) == entries,
    decreases entries.len(),
{
    reveal(Seq::filter);
    if entries.len() > 0 {
        lemma_retired_none(entries.drop_last(), id);
        assert(entries.drop_last().push(entries.last()) =~= entries);
    }
}

/// Retiring takes out the one entry that has the id and the termination
/// signal.
proof fn lemma_retired_one(entries: Seq<WorkerEntry>, at: int)
    requires
        0 <= at < entries.len(),
        entries[at].killed,
        forall|k: int| 0 <= k < entries.len() && k != at ==> (#[trigger] entries[k]).id != entries[at].id,
    ensures
        retired(entries, entries[at].id) == entries.remove(at),
    decreases entries.len(),
{
    reveal(Seq::filter);
    let id = entries[at].id;
    let front = entries.drop_last();
    if at == entries.len() - 1 {
        lemma_retired_none(front, id);
        assert(entries.remove(at) =~= front);
    } else {
        lemma_retired_one(front, at);
        assert(entries.remove(at) =~= front.remove(at).push(entries.last()));
    }
}

/// The ids that a tick starts workers for are the desired ids that had no
/// record, and none of them is started twice.
pub proof fn lemma_missing_ids(desired: Seq<Seq<char>>, known: Seq<Seq<char>>)
    ensures
        missing_ids(desired, known).no_duplicates(),
        forall|id: Seq<char>| #[trigger]
            missing_ids(desired, known).contains(id) <==> desired.contains(id) && !known.contains(id),
    decreases desired.len(),
{
    let missing = missing_ids(desired, known);
    if desired.len() == 0 {
        assert forall|id: Seq<char>| #[trigger]
            missing.contains(id) <==> desired.contains(id) && !known.contains(id) by {}
    } else {
        let front = desired.drop_last();
        let earlier = missing_ids(front, known);
        let last = desired.last();
        lemma_missing_ids(front, known);
        assert(desired =~= front.push(last));
        if !(known.contains(last) || earlier.contains(last)) {
            lemma_push_keeps_distinct(earlier, last);
        }
        assert forall|id: Seq<char>| #[trigger]
            missing.contains(id) <==> desired.contains(id) && !known.contains(id) by {
            if missing.contains(id) {
                let i = choose|i: int| 0 <= i < missing.len() && missing[i] == id;
                if i < earlier.len() {
                    assert(earlier[i] == id);
                    assert(earlier.contains(id));
                    let k = choose|k: int| 0 <= k < front.len() && front[k] == id;
                    assert(desired[k] == id);
                } else {
                    assert(id == last);
                    assert(desired[desired.len() - 1] == id);
                }
            }
            if desired.contains(id) && !known.contains(id) {
                let k = choose|k: int| 0 <= k < desired.len() && desired[k] == id;
                if k < front.len() {
                    assert(front[k] == id);
                    assert(front.contains(id));
                    assert(earlier.contains(id));
                    let i = choose|i: int| 0 <= i < earlier.len() && earlier[i] == id;
                    assert(missing[i] == id);
                } else if earlier.contains(last) {
                    let i = choose|i: int| 0 <= i < earlier.len() && earlier[i] == id;
                    assert(missing[i] == id);
                } else {
                    assert(missing[missing.len() - 1] == id);
                }
            }
        }
    }
}

/// Uniqueness: a reconciliation tick never leaves two records for one
/// connection id.
pub proof fn lemma_reconciled_unique(entries: Seq<WorkerEntry>, desired: Seq<Seq<char>>)
    requires
        entry_ids(entries).no_duplicates(),
    ensures
        entry_ids(reconciled(entries, desired)).no_duplicates(),
{
    let known = entry_ids(entries);
    let missing = missing_ids(desired, known);
    lemma_missing_ids(desired, known);
    lemma_reconciled_ids(entries, desired, missing);
    let all = known + missing;
    assert forall|i: int, j: int| 0 <= i < all.len() && 0 <= j < all.len() && i != j implies all[i]
        != all[j] by {
        if i < known.len() && j >= known.len() {
            assert(missing[j - known.len()] == all[j]);
            assert(missing.contains(all[j]));
            assert(known[i] == all[i]);
        } else if j < known.len() && i >= known.len() {
            assert(missing[i - known.len()] == all[i]);
            assert(missing.contains(all[i]));
            assert(known[j] == all[j]);
        } else if i >= known.len() {
            assert(missing[i - known.len()] != missing[j - known.len()]);
        }
    }
}

/// Uniqueness: a worker that ends never leaves two records for one
/// connection id.
pub proof fn lemma_retired_unique(entries: Seq<WorkerEntry>, id: Seq<char>)
    requires
        entry_ids(entries).no_duplicates(),
    ensures
        entry_ids(retired(entries, id)).no_duplicates(),
{
    if exists|i: int| 0 <= i < entries.len() && (#[trigger] entries[i]).id == id && entries[i].killed {
        let at = choose|i: int| 0 <= i < entries.len() && (#[trigger] entries[i]).id == id && entries[i].killed;
        lemma_distinct_position(entries, at);
        lemma_retired_one(entries, at);
        lemma_remove_keeps_distinct(entry_ids(entries), at);
        assert(entry_ids(entries.remove(at)) =~= entry_ids(entries).remove(at));
    } else {
        lemma_retired_none(entries, id);
    }
}

/// Convergence: after one reconciliation tick the workers that go on
/// running are exactly those of the desired ids, provided that no worker
/// of a desired id is still on its way out (its termination signal set
/// and not yet observed).
pub proof fn lemma_convergence(entries: Seq<WorkerEntry>, desired: Seq<Seq<char>>)
    requires
        forall|i: int| 0 <= i < entries.len() && (#[trigger] entries[i]).killed ==> !desired.contains(entries[i].id),
    ensures
        live_ids(reconciled(entries, desired)) == desired.to_set(),
{
    let known = entry_ids(entries);
    let missing = missing_ids(desired, known);
    let after = reconciled(entries, desired);
    lemma_missing_ids(desired, known);
    assert forall|id: Seq<char>| is_live(after, id) <==> desired.contains(id) by {
        if is_live(after, id) {
            let i = choose|i: int| 0 <= i < after.len() && (#[trigger] after[i]).id == id && !after[i].killed;
            if i < entries.len() {
                assert(after[i] == signalled(entries, desired)[i]);
            } else {
                assert(after[i] == fresh_entries(missing)[i - entries.len()]);
                assert(missing[i - entries.len()] == id);
                assert(missing.contains(id));
            }
        }
        if desired.contains(id) {
            if known.contains(id) {
                let i = choose|i: int| 0 <= i < known.len() && known[i] == id;
                assert(entries[i].id == id);
                assert(after[i] == signalled(entries, desired)[i]);
                assert(after[i].id == id && !after[i].killed);
            } else {
                assert(missing.contains(id));
                let k = choose|k: int| 0 <= k < missing.len() && missing[k] == id;
                let i = entries.len() + k;
                assert(after[i] == fresh_entries(missing)[k]);
                assert(after[i].id == id && !after[i].killed);
            }
        }
    }
    assert(live_ids(after) =~= desired.to_set());
}

/// Convergence, second half: after a tick, every record whose id is not
/// desired carries the termination signal, so that only records of
/// desired ids are left once the signalled workers have ended.
pub proof fn lemma_signal_marks_undesired(entries: Seq<WorkerEntry>, desired: Seq<Seq<char>>, i: int)
    requires
        0 <= i < reconciled(entries, desired).len(),
        !desired.contains(reconciled(entries, desired)[i].id),
    ensures
        reconciled(entries, desired)[i].killed,
{
    let known = entry_ids(entries);
    let missing = missing_ids(desired, known);
    let after = reconciled(entries, desired);
    lemma_missing_ids(desired, known);
    if i < entries.len() {
        assert(after[i] == signalled(entries, desired)[i]);
    } else {
        assert(after[i] == fresh_entries(missing)[i - entries.len()]);
        assert(missing[i - entries.len()] == after[i].id);
        assert(missing.contains(after[i].id));
    }
}

/// What is left after the signalled workers have ended are the entries
/// without a signal.
proof fn lemma_swept_members(entries: Seq<WorkerEntry>)
    ensures
        forall|e: WorkerEntry| #[trigger] swept(entries).contains(e) <==> entries.contains(e) && !e.killed,
    decreases entries.len(),
{
    reveal(Seq::filter);
    let kept = swept(entries);
    if entries.len() == 0 {
        assert forall|e: WorkerEntry| #[trigger] kept.contains(e) <==> entries.contains(e) && !e.killed by {}
    } else {
        let front = entries.drop_last();
        let last = entries.last();
        lemma_swept_members(front);
        assert(entries =~= front.push(last));
        assert forall|e: WorkerEntry| #[trigger] kept.contains(e) <==> entries.contains(e) && !e.killed by {
            if kept.contains(e) {
                let i = choose|i: int| 0 <= i < kept.len() && kept[i] == e;
                if i < swept(front).len() {
                    assert(swept(front)[i] == e);
                    assert(swept(front).contains(e));
                    let k = choose|k: int| 0 <= k < front.len() && front[k] == e;
                    assert(entries[k] == e);
                } else {
                    assert(e == last);
                    assert(entries[entries.len() - 1] == e);
                }
            }
            if entries.contains(e) && !e.killed {
                let k = choose|k: int| 0 <= k < entries.len() && entries[k] == e;
                if k < front.len() {
                    assert(front[k] == e);
                    assert(front.contains(e));
                    assert(swept(front).contains(e));
                    let i = choose|i: int| 0 <= i < swept(front).len() && swept(front)[i] == e;
                    assert(kept[i] == e);
                } else {
                    assert(kept[kept.len() - 1] == e);
                }
            }
        }
    }
}

/// Convergence over any sequence of changes: once the workers that a tick
/// has signalled have ended, the records are exactly those of the desired
/// ids and none carries a signal, so that the next tick, whatever is
/// desired then, starts from a table on which it converges again.
pub proof fn lemma_converged_after_sweep(entries: Seq<WorkerEntry>, desired: Seq<Seq<char>>)
    requires
        forall|i: int| 0 <= i < entries.len() && (#[trigger] entries[i]).killed ==> !desired.contains(entries[i].id),
    ensures
        entry_ids(swept(reconciled(entries, desired))).to_set() == desired.to_set(),
        forall|i: int|
            0 <= i < swept(reconciled(entries, desired)).len() ==> !(#[trigger] swept(
                reconciled(entries, desired),
            )[i]).killed,
{
    let after = reconciled(entries, desired);
    let kept = swept(after);
    lemma_convergence(entries, desired);
    lemma_swept_members(after);
    assert forall|i: int| 0 <= i < kept.len() implies !(#[trigger] kept[i]).killed by {
        assert(kept.contains(kept[i]));
    }
    assert forall|id: Seq<char>| entry_ids(kept).contains(id) <==> is_live(after, id) by {
        if entry_ids(kept).contains(id) {
            let i = choose|i: int| 0 <= i < entry_ids(kept).len() && entry_ids(kept)[i] == id;
            assert(kept.contains(kept[i]));
            let k = choose|k: int| 0 <= k < after.len() && after[k] == kept[i];
            assert(after[k].id == id && !after[k].killed);
        }
        if is_live(after, id) {
            let k = choose|k: int| 0 <= k < after.len() && (#[trigger] after[k]).id == id && !after[k].killed;
            assert(after.contains(after[k]));
            assert(kept.contains(after[k]));
            let i = choose|i: int| 0 <= i < kept.len() && kept[i] == after[k];
            assert(entry_ids(kept)[i] == id);
        }
    }
    assert(entry_ids(kept).to_set() =~= live_ids(after));
}

} // verus!
