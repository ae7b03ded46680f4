//! The four tables as mathematical values, and the laws of the protocol.
//!
//! `Tables` says what the store asks of its database: the statements of one
//! transaction take effect together or not at all, and two transactions on
//! one aggregate never interleave. Each operation below is what the
//! statements of the matching method of `SqliteBackend` do to such tables,
//! with identifiers as numbers in place of their text. The laws are proved
//! of these operations. That SQLite keeps its side is taken on trust by
//! whoever relies on them: no contract in this crate claims it.

use crate::backend::model::Record;
use crate::backend::sqlite::{expected_version, version_check, Error};
use vstd::prelude::*;

verus! {

/// The contents of the store.
pub struct Tables {
    /// The event log, in the order in which the rows were written.
    pub events: Seq<Record>,
    /// The current version of each aggregate that has one.
    pub index: Map<u128, u32>,
    /// The snapshots: at most one payload for an aggregate and a version.
    pub snapshots: Map<(u128, u32), Seq<u8>>,
    /// The version of the snapshot that was saved last, for each aggregate.
    pub snapshot_index: Map<u128, u32>,
}

impl Tables {
    /// A store into which nothing has been written.
    pub open spec fn empty() -> Tables {
        Tables {
            events: Seq::empty(),
            index: Map::empty(),
            snapshots: Map::empty(),
            snapshot_index: Map::empty(),
        }
    }

    /// The current version of an aggregate: 0 where the index has no row.
    /// This is the answer to `SELECT_MAX_VERSION_STMT`.
    pub open spec fn current_version(self, id: u128) -> u32 {
        if self.index.dom().contains(id) {
            self.index[id]
        } else {
            0
        }
    }

    /// All events of an aggregate, in the order in which they were written.
    /// In a well-formed store that is the order of their versions, in which
    /// `SELECT_EVENTS_STMT` gives them.
    pub open spec fn log_of(self, id: u128) -> Seq<Record> {
        self.events.filter(|record: Record| record.id == id)
    }

    /// The events of an aggregate whose version is above `since`: the answer
    /// to `SELECT_EVENTS_SINCE_STMT`.
    pub open spec fn log_since(self, id: u128, since: u32) -> Seq<Record> {
        self.log_of(id).filter(|record: Record| record.version > since)
    }

    /// What an append of this event answers.
    pub open spec fn append_outcome(self, event: Record) -> Result<(), Error> {
        version_check(self.current_version(event.id), event.version)
    }

    /// The store after an append of this event: with the event at the end of
    /// the log (`INSERT_EVENT_STMT`) and the index moved on
    /// (`UPSERT_AGGREGATE_INDEX_STMT`) where the event is accepted, and as it
    /// was where it is refused.
    pub open spec fn append(self, event: Record) -> Tables {
        if self.append_outcome(event) is Ok {
            Tables {
                events: self.events.push(event),
                index: self.index.insert(event.id, event.version),
                ..self
            }
        } else {
            self
        }
    }

    /// The store after the events with these payloads have been appended to
    /// one aggregate, one after the other, with the versions 1, 2, 3 and so
    /// on.
    pub open spec fn append_in_order(self, id: u128, payloads: Seq<Seq<u8>>) -> Tables
        decreases payloads.len(),
    {
        if payloads.len() == 0 {
            self
        } else {
            self.append_in_order(id, payloads.drop_last()).append(
                Record { id, version: payloads.len() as u32, payload: payloads.last() },
            )
        }
    }

    /// The store after a snapshot has been saved: `UPSERT_SNAPSHOT_STMT` and
    /// `UPSERT_SNAPSHOT_INDEX_STMT`.
    pub open spec fn save_snapshot(self, snapshot: Record) -> Tables {
        Tables {
            snapshots: self.snapshots.insert((snapshot.id, snapshot.version), snapshot.payload),
            snapshot_index: self.snapshot_index.insert(snapshot.id, snapshot.version),
            ..self
        }
    }

    /// The snapshot of an aggregate at a version: one record, or none. This
    /// is the answer to `SELECT_SNAPSHOT_AT_STMT`.
    pub open spec fn snapshot_at(self, id: u128, version: u32) -> Seq<Record> {
        if self.snapshots.dom().contains((id, version)) {
            seq![Record { id, version, payload: self.snapshots[(id, version)] }]
        } else {
            Seq::empty()
        }
    }

    /// An aggregate's log and its index row agree: the log holds the versions
    /// 1, 2, 3 and so on up to the current version, in this order, and there
    /// is an index row only where there is an event.
    pub open spec fn gapless(self, id: u128) -> bool {
        let log = self.log_of(id);
        &&& log.len() == self.current_version(id)
        &&& forall|i: int| 0 <= i < log.len() ==> (#[trigger] log[i]).version == i + 1
        &&& self.index.dom().contains(id) ==> self.index[id] >= 1
    }

    /// Every aggregate's log and index row agree.
    pub open spec fn wf(self) -> bool {
        forall|id: u128| #[trigger] self.gapless(id)
    }
}

/// The empty store is well formed.
pub proof fn lemma_empty_is_wf()
    ensures
        Tables::empty().wf(),
{
    reveal(Seq::filter);
    assert forall|id: u128| #[trigger] Tables::empty().gapless(id) by {
        assert(Tables::empty().log_of(id) =~= Seq::<Record>::empty());
    }
}

/// What an accepted append does: the event becomes the last of its
/// aggregate's log, the aggregate's current version becomes the event's
/// version, and no other aggregate's log or version changes.
pub proof fn lemma_append_accepted(tables: Tables, event: Record)
    requires
        event.version == tables.current_version(event.id) + 1,
    ensures
        tables.append_outcome(event) is Ok,
        tables.append(event).log_of(event.id) == tables.log_of(event.id).push(event),
        tables.append(event).current_version(event.id) == event.version,
        forall|other: u128|
            other != event.id ==> {
                &&& #[trigger] tables.append(event).log_of(other) == tables.log_of(other)
                &&& tables.append(event).current_version(other) == tables.current_version(other)
            },
{
    let after = tables.append(event);
    tables.events.lemma_filter_push(event, |record: Record| record.id == event.id);
    assert forall|other: u128| other != event.id implies {
        &&& #[trigger] after.log_of(other) == tables.log_of(other)
        &&& after.current_version(other) == tables.current_version(other)
    } by {
        tables.events.lemma_filter_push(event, |record: Record| record.id == other);
    }
}

/// A refused append: an event whose version is not one past the aggregate's
/// current version is answered with a version conflict that names the
/// expected and the given version, and the store stays as it was.
pub proof fn lemma_append_refused(tables: Tables, event: Record)
    requires
        event.version != tables.current_version(event.id) + 1,
    ensures
        tables.append_outcome(event) == Err::<(), Error>(
            Error::VersionConflict(
                expected_version(tables.current_version(event.id)),
                event.version,
            ),
        ),
        tables.append(event) == tables,
{
}

/// An append, accepted or refused, leaves a well-formed store well formed.
pub proof fn lemma_append_keeps_wf(tables: Tables, event: Record)
    requires
        tables.wf(),
    ensures
        tables.append(event).wf(),
{
    let after = tables.append(event);
    if event.version == tables.current_version(event.id) + 1 {
        lemma_append_accepted(tables, event);
        assert forall|id: u128| #[trigger] after.gapless(id) by {
            assert(tables.gapless(id));
            if id != event.id {
                assert(after.log_of(id) == tables.log_of(id));
            }
        }
    } else {
        lemma_append_refused(tables, event);
    }
}

/// Appending in order: on a well-formed store, events with the versions 1,
/// 2, 3 and so on up to `payloads.len()` for an aggregate without events are
/// accepted one and all. Afterwards the aggregate's log holds exactly these
/// events, oldest first, its current version is their number, and the store
/// is well formed.
pub proof fn lemma_append_in_order(tables: Tables, id: u128, payloads: Seq<Seq<u8>>)
    requires
        tables.wf(),
        tables.current_version(id) == 0,
        payloads.len() <= u32::MAX,
    ensures
        forall|i: int|
            0 <= i < payloads.len() ==> (#[trigger] tables.append_in_order(
                id,
                payloads.take(i),
            )).append_outcome(Record { id, version: (i + 1) as u32, payload: payloads[i] }) is Ok,
        tables.append_in_order(id, payloads).wf(),
        tables.append_in_order(id, payloads).current_version(id) == payloads.len(),
        tables.append_in_order(id, payloads).log_of(id).len() == payloads.len(),
        forall|i: int|
            0 <= i < payloads.len() ==> #[trigger] tables.append_in_order(id, payloads).log_of(
                id,
            )[i] == (Record { id, version: (i + 1) as u32, payload: payloads[i] }),
    decreases payloads.len(),
{
    let after = tables.append_in_order(id, payloads);
    if payloads.len() == 0 {
        assert(tables.gapless(id));
    } else {
        let front = payloads.drop_last();
        let before = tables.append_in_order(id, front);
        let event = Record { id, version: payloads.len() as u32, payload: payloads.last() };
        lemma_append_in_order(tables, id, front);
        lemma_append_accepted(before, event);
        lemma_append_keeps_wf(before, event);
        assert(payloads.take(payloads.len() - 1) =~= front);
        assert forall|i: int| 0 <= i < payloads.len() implies (#[trigger] tables.append_in_order(
            id,
            payloads.take(i),
        )).append_outcome(Record { id, version: (i + 1) as u32, payload: payloads[i] }) is Ok by {
            if i < front.len() {
                assert(front.take(i) =~= payloads.take(i));
            }
        }
    }
}

/// Reading a whole log: in a well-formed store an aggregate's log has as many
/// events as the aggregate's current version says, all of them the
/// aggregate's own, with the versions 1, 2, 3 and so on in this order.
pub proof fn lemma_log_is_gapless(tables: Tables, id: u128)
    requires
        tables.wf(),
    ensures
        tables.log_of(id).len() == tables.current_version(id),
        forall|i: int|
            0 <= i < tables.log_of(id).len() ==> {
                &&& (#[trigger] tables.log_of(id)[i]).version == i + 1
                &&& tables.log_of(id)[i].id == id
            },
{
    assert(tables.gapless(id));
    broadcast use Seq::lemma_filter_pred;

}

/// An aggregate that the store has never seen has an empty log.
pub proof fn lemma_unknown_aggregate_has_no_events(tables: Tables, id: u128)
    requires
        tables.wf(),
        !tables.index.dom().contains(id),
    ensures
        tables.log_of(id) == Seq::<Record>::empty(),
{
    assert(tables.gapless(id));
    assert(tables.log_of(id) =~= Seq::<Record>::empty());
}

/// Of a log with the versions 1, 2, 3 and so on, the events above a version
/// are the log without its first `since` events.
proof fn lemma_above_is_suffix(log: Seq<Record>, since: u32)
    requires
        forall|i: int| 0 <= i < log.len() ==> (#[trigger] log[i]).version == i + 1,
    ensures
        log.filter(|record: Record| record.version > since) == if since <= log.len() {
            log.skip(since as int)
        } else {
            Seq::<Record>::empty()
        },
    decreases log.len(),
{
    let above = |record: Record| record.version > since;
    if log.len() == 0 {
        reveal(Seq::filter);
        assert(log.filter(above) =~= Seq::<Record>::empty());
        assert(log.skip(0) =~= log);
    } else {
        let front = log.drop_last();
        lemma_above_is_suffix(front, since);
        front.lemma_filter_push(log.last(), above);
        assert(front.push(log.last()) =~= log);
        if since < log.len() {
            assert(front.skip(since as int).push(log.last()) =~= log.skip(since as int));
        } else if since == log.len() {
            assert(front.filter(above) =~= log.skip(since as int));
        }
    }
}

/// Reading from a version on: in a well-formed store the events of an
/// aggregate above `since` are exactly those with a version from `since + 1`
/// to the current version, oldest first. There are `current - since` of them
/// where `since` is at most the current version, and none where it is above.
pub proof fn lemma_log_since(tables: Tables, id: u128, since: u32)
    requires
        tables.wf(),
    ensures
        tables.log_since(id, since) == if since <= tables.current_version(id) {
            tables.log_of(id).skip(since as int)
        } else {
            Seq::<Record>::empty()
        },
        since <= tables.current_version(id) ==> tables.log_since(id, since).len()
            == tables.current_version(id) - since,
        forall|i: int|
            0 <= i < tables.log_since(id, since).len() ==> (#[trigger] tables.log_since(
                id,
                since,
            )[i]).version == since + 1 + i,
{
    assert(tables.gapless(id));
    lemma_above_is_suffix(tables.log_of(id), since);
}

/// Saving and reading back: after a snapshot has been saved, the read of its
/// aggregate at its version gives exactly this snapshot, whatever was stored
/// there before. So of two snapshots saved for one aggregate and version the
/// second is the one that stays.
pub proof fn lemma_snapshot_read_back(tables: Tables, snapshot: Record)
    ensures
        tables.save_snapshot(snapshot).snapshot_at(snapshot.id, snapshot.version) == seq![snapshot],
        tables.save_snapshot(snapshot).snapshot_index[snapshot.id] == snapshot.version,
{
}

/// Of two snapshots saved for one aggregate and version, only the second can
/// be read afterwards.
pub proof fn lemma_snapshot_overwritten(tables: Tables, first: Record, second: Record)
    requires
        first.id == second.id,
        first.version == second.version,
    ensures
        tables.save_snapshot(first).save_snapshot(second).snapshot_at(second.id, second.version)
            == seq![second],
        tables.save_snapshot(first).save_snapshot(second).snapshots == tables.save_snapshot(
            second,
        ).snapshots,
{
    assert(tables.save_snapshot(first).save_snapshot(second).snapshots =~= tables.save_snapshot(
        second,
    ).snapshots);
}

/// A snapshot saved at one place leaves the snapshots at all other places as
/// they were: snapshots at several versions of one aggregate stand side by
/// side.
pub proof fn lemma_snapshot_elsewhere_kept(tables: Tables, snapshot: Record, id: u128, version: u32)
    requires
        id != snapshot.id || version != snapshot.version,
    ensures
        tables.save_snapshot(snapshot).snapshot_at(id, version) == tables.snapshot_at(id, version),
{
}

/// The log and the snapshots do not touch each other: saving a snapshot
/// changes neither the log nor the index, and an append changes neither the
/// snapshots nor their index.
pub proof fn lemma_log_and_snapshots_apart(tables: Tables, record: Record)
    ensures
        tables.save_snapshot(record).events == tables.events,
        tables.save_snapshot(record).index == tables.index,
        tables.save_snapshot(record).wf() == tables.wf(),
        tables.append(record).snapshots == tables.snapshots,
        tables.append(record).snapshot_index == tables.snapshot_index,
{
    let saved = tables.save_snapshot(record);
    if tables.wf() {
        assert forall|id: u128| #[trigger] saved.gapless(id) by {
            assert(tables.gapless(id));
        }
    }
    if saved.wf() {
        assert forall|id: u128| #[trigger] tables.gapless(id) by {
            assert(saved.gapless(id));
        }
    }
}

} // verus!
