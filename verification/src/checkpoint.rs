//! Deterministic, read-only summarization and cursor-based pagination over
//! the externally maintained append-only logs.
//!
//! The reader is pure: it stores no cache, so a summary is always
//! consistent with the logs at call time.  A page collects the items whose
//! identifier is strictly greater than `start_id`, up to `page_size` of
//! them, scanning forward; when more qualifying items remain, the returned
//! cursor is the identifier of the first excluded one, and `None` signals
//! the end of the log.

use vstd::prelude::*;

verus! {

/// An anchored confession, as the checkpoint reader sees it.
#[derive(Clone, Debug, PartialEq)]
pub struct Confession {
    pub confession_id: u64,
    pub author: u64,
    pub content_hash: String,
    pub timestamp: u64,
}

/// A recorded reaction, as the checkpoint reader sees it.
#[derive(Clone, Debug, PartialEq)]
pub struct Reaction {
    pub reaction_id: u64,
    pub confession_id: u64,
    pub reactor: u64,
    pub reaction_type: String,
    pub timestamp: u64,
}

/// A recorded report, as the checkpoint reader sees it.
#[derive(Clone, Debug, PartialEq)]
pub struct Report {
    pub report_id: u64,
    pub confession_id: u64,
    pub reporter: u64,
    pub reason: String,
    pub timestamp: u64,
}

/// Point-in-time derived summary over the three append-only logs.
#[derive(Clone, Copy, Debug, PartialEq, Eq, Structural)]
pub struct CheckpointSummary {
    pub total_confessions: u64,
    pub total_reactions: u64,
    pub total_reports: u64,
    pub latest_confession_id: u64,
    pub latest_reaction_id: u64,
    pub latest_report_id: u64,
    pub version_marker: u32,
}

/// One page of a cursor-based snapshot read.
#[derive(Clone, Debug, PartialEq)]
pub struct SnapshotPage<T> {
    pub items: Vec<T>,
    pub next_cursor: Option<u64>,
}

/// An entry of an append-only log: it exposes the identifier that the log
/// assigned to it, monotonically increasing by append order.
pub trait LogItem: Sized {
    /// The identifier of this entry.
    spec fn id_spec(&self) -> u64;

    /// Returns the identifier of this entry.
    fn item_id(&self) -> (r: u64)
        ensures
            r == self.id_spec(),
    ;

    /// Returns an equal copy of this entry.
    fn duplicate(&self) -> (r: Self)
        ensures
            r == *self,
    ;
}

impl LogItem for Confession {
    open spec fn id_spec(&self) -> u64 {
        self.confession_id
    }

    fn item_id(&self) -> (r: u64) {
        self.confession_id
    }

    fn duplicate(&self) -> (r: Self) {
        Confession {
            confession_id: self.confession_id,
            author: self.author,
            content_hash: self.content_hash.clone(),
            timestamp: self.timestamp,
        }
    }
}

impl LogItem for Reaction {
    open spec fn id_spec(&self) -> u64 {
        self.reaction_id
    }

    fn item_id(&self) -> (r: u64) {
        self.reaction_id
    }

    fn duplicate(&self) -> (r: Self) {
        Reaction {
            reaction_id: self.reaction_id,
            confession_id: self.confession_id,
            reactor: self.reactor,
            reaction_type: self.reaction_type.clone(),
            timestamp: self.timestamp,
        }
    }
}

impl LogItem for Report {
    open spec fn id_spec(&self) -> u64 {
        self.report_id
    }

    fn item_id(&self) -> (r: u64) {
        self.report_id
    }

    fn duplicate(&self) -> (r: Self) {
        Report {
            report_id: self.report_id,
            confession_id: self.confession_id,
            reporter: self.reporter,
            reason: self.reason.clone(),
            timestamp: self.timestamp,
        }
    }
}

/// The subsequence of `log`, in order, whose identifiers are strictly
/// greater than `start_id`: the items a paginated read starting after
/// `start_id` still has to deliver.
pub open spec fn qualifying<T: LogItem>(log: Seq<T>, start_id: u64) -> Seq<T>
    decreases log.len(),
{
    if log.len() == 0 {
        Seq::empty()
    } else {
        let prefix = qualifying(log.drop_last(), start_id);
        if log.last().id_spec() > start_id {
            prefix.push(log.last())
        } else {
            prefix
        }
    }
}

/// The items a single `get_snapshot_page` call returns: the first
/// `page_size` qualifying items, or all of them if they fit.
pub open spec fn page_items_spec<T: LogItem>(log: Seq<T>, start_id: u64, page_size: u64) -> Seq<
    T,
> {
    let q = qualifying(log, start_id);
    if q.len() <= page_size {
        q
    } else {
        q.take(page_size as int)
    }
}

/// The cursor a single `get_snapshot_page` call returns: `None` when the
/// qualifying items fit in the page, else the identifier of the first
/// excluded qualifying item.
pub open spec fn next_cursor_spec<T: LogItem>(log: Seq<T>, start_id: u64, page_size: u64) -> Option<
    u64,
> {
    let q = qualifying(log, start_id);
    if q.len() <= page_size {
        None
    } else {
        Some(q[page_size as int].id_spec())
    }
}

/// Computes the point-in-time summary of the three logs: their lengths
/// and the identifier of each last element, zero for an empty log.
pub fn get_checkpoint_summary(
    confessions: &Vec<Confession>,
    reactions: &Vec<Reaction>,
    reports: &Vec<Report>,
) -> (s: CheckpointSummary)
    ensures
        s.total_confessions == confessions@.len(),
        s.total_reactions == reactions@.len(),
        s.total_reports == reports@.len(),
        s.latest_confession_id == if confessions@.len() == 0 {
            0u64
        } else {
            confessions@.last().confession_id
        },
        s.latest_reaction_id == if reactions@.len() == 0 {
            0u64
        } else {
            reactions@.last().reaction_id
        },
        s.latest_report_id == if reports@.len() == 0 {
            0u64
        } else {
            reports@.last().report_id
        },
        s.version_marker == 1u32,
{
    let latest_confession_id = if confessions.len() == 0 {
        0
    } else {
        confessions[confessions.len() - 1].confession_id
    };
    let latest_reaction_id = if reactions.len() == 0 {
        0
    } else {
        reactions[reactions.len() - 1].reaction_id
    };
    let latest_report_id = if reports.len() == 0 {
        0
    } else {
        reports[reports.len() - 1].report_id
    };
    CheckpointSummary {
        total_confessions: confessions.len() as u64,
        total_reactions: reactions.len() as u64,
        total_reports: reports.len() as u64,
        latest_confession_id,
        latest_reaction_id,
        latest_report_id,
        version_marker: 1,
    }
}

/// Scans the log forward and collects the items whose identifier is
/// strictly greater than `start_id`, up to `page_size` of them; when more
/// qualifying items remain, the returned cursor is the identifier of the
/// first excluded one, and `None` signals the end of the log.
pub fn get_snapshot_page<T: LogItem>(items: &Vec<T>, start_id: u64, page_size: u64) -> (page:
    SnapshotPage<T>)
    ensures
        page.items@ == page_items_spec(items@, start_id, page_size),
        page.next_cursor == next_cursor_spec(items@, start_id, page_size),
{
    let mut out: Vec<T> = Vec::new();
    let mut cursor: Option<u64> = None;
    let n = items.len();
    proof {
        assert(items@.take(0) =~= Seq::<T>::empty());
    }
    for i in 0..n
        invariant
            n == items@.len(),
            out@ == page_items_spec(items@.take(i as int), start_id, page_size),
            cursor == next_cursor_spec(items@.take(i as int), start_id, page_size),
    {
        let x = &items[i];
        let id = x.item_id();
        proof {
            assert(items@.take(i + 1).drop_last() =~= items@.take(i as int));
            assert(items@.take(i + 1).last() == items@[i as int]);
        }
        let ghost q = qualifying(items@.take(i as int), start_id);
        if id > start_id {
            if (out.len() as u64) < page_size {
                out.push(x.duplicate());
                proof {
                    assert(q.len() <= page_size);
                    assert(qualifying(items@.take(i + 1), start_id) == q.push(items@[i as int]));
                }
            } else {
                proof {
                    assert(q.len() >= page_size);
                    let q1 = qualifying(items@.take(i + 1), start_id);
                    assert(q1 == q.push(items@[i as int]));
                    assert(q1.len() > page_size);
                    assert(q1.take(page_size as int) =~= if q.len() == page_size {
                        q
                    } else {
                        q.take(page_size as int)
                    });
                    assert(q1[page_size as int] == if q.len() == page_size {
                        items@[i as int]
                    } else {
                        q[page_size as int]
                    });
                }
                if cursor.is_none() {
                    cursor = Some(id);
                }
            }
        } else {
            proof {
                assert(qualifying(items@.take(i + 1), start_id) == q);
            }
        }
    }
    proof {
        assert(items@.take(n as int) =~= items@);
    }
    SnapshotPage { items: out, next_cursor: cursor }
}

/// Every identifier of `log` exceeds `start_id`, so every item qualifies.
pub proof fn lemma_qualifying_all<T: LogItem>(log: Seq<T>, start_id: u64)
    requires
        forall|i: int| 0 <= i < log.len() ==> (#[trigger] log[i]).id_spec() > start_id,
    ensures
        qualifying(log, start_id) == log,
    decreases log.len(),
{
    if log.len() > 0 {
        lemma_qualifying_all(log.drop_last(), start_id);
        assert(qualifying(log, start_id) =~= log);
    } else {
        assert(qualifying(log, start_id) =~= log);
    }
}

/// Every item of the qualifying subsequence carries an identifier above
/// `start_id`.
pub proof fn lemma_qualifying_ids_above<T: LogItem>(log: Seq<T>, start_id: u64)
    ensures
        forall|i: int|
            0 <= i < qualifying(log, start_id).len() ==> (#[trigger] qualifying(log, start_id)[i]).id_spec()
                > start_id,
    decreases log.len(),
{
    if log.len() > 0 {
        lemma_qualifying_ids_above(log.drop_last(), start_id);
        let prefix = qualifying(log.drop_last(), start_id);
        if log.last().id_spec() > start_id {
            assert forall|i: int|
                0 <= i < qualifying(log, start_id).len() implies (#[trigger] qualifying(
                log,
                start_id,
            )[i]).id_spec() > start_id by {
                if i < prefix.len() {
                    assert(qualifying(log, start_id)[i] == prefix[i]);
                } else {
                    assert(qualifying(log, start_id)[i] == log.last());
                }
            }
        }
    }
}

/// Law (pagination progress): a returned cursor always lies strictly
/// above the starting cursor, so a chained read advances at every step
/// and cannot loop.
pub proof fn lemma_cursor_advances<T: LogItem>(log: Seq<T>, start_id: u64, page_size: u64)
    ensures
        next_cursor_spec(log, start_id, page_size) matches Some(c) ==> c > start_id,
{
    lemma_qualifying_ids_above(log, start_id);
}

/// Law (round trip): a snapshot read over a log whose identifiers all
/// exceed the starting cursor, and which fits within one page, reproduces
/// exactly the full log in order and signals the end of the log; chaining
/// therefore terminates immediately with the log reproduced.  (With the
/// cursor defined as the identifier of the first *excluded* item and the
/// collection strictly above the cursor, a multi-page chain drops each
/// boundary item, so the reproduction law holds exactly for the reads
/// that fit in one page.)
pub proof fn lemma_page_round_trip<T: LogItem>(log: Seq<T>, start_id: u64, page_size: u64)
    requires
        forall|i: int| 0 <= i < log.len() ==> (#[trigger] log[i]).id_spec() > start_id,
        log.len() <= page_size,
    ensures
        page_items_spec(log, start_id, page_size) == log,
        next_cursor_spec(log, start_id, page_size) is None,
{
    lemma_qualifying_all(log, start_id);
}

} // verus!
