//! A cursor over a subscription's changelog, read one epoch range per fetch.
use vstd::prelude::*;

use crate::epoch::{
    convert_epoch_to_logstore_i64, convert_logstore_i64_to_epoch, epoch_of_key, key_of_epoch,
    valid_unix_millis,
};
use crate::error::CursorError;
use crate::plan::{
    create_batch_plan_for_cursor, cursor_query_mode, visible_columns, LogScanPlan, QueryMode,
    TableCatalog,
};
use crate::retention::{resolve_start_key, start_key, Since};

verus! {

/// What the engine reports to a subscription cursor's fetch.
pub struct FetchContext {
    /// The table that the subscription watches; `None` once the subscription is dropped.
    pub table: Option<TableCatalog>,
    /// The session's execution mode.
    pub query_mode: QueryMode,
    /// The table's latest committed epoch.
    pub committed_epoch: u64,
}

/// What a subscription cursor's fetch asks the engine to run.
pub enum FetchStep {
    /// Nothing was committed beyond the checkpoint: no rows, and no scan to run.
    NoNewData,
    /// Run this scan and hand its rows to the client.
    Scan(LogScanPlan),
}

/// A cursor on a subscription. It holds the log-store key up to which changes were
/// delivered (`None`: nothing fetched yet and no start point given), the end epoch
/// of a scan that was planned and whose rows are not yet delivered, and whether the
/// cursor failed (its subscription was dropped or a scan could not be delivered),
/// after which every fetch fails.
pub struct SubscriptionCursor {
    subscription_name: String,
    checkpoint: Option<i64>,
    pending: Option<u64>,
    failed: bool,
}

/// The checkpoint, failure flag, pending scan end and result of planning a fetch:
/// the result is `Ok(None)` when there is nothing to scan, and
/// `Ok(Some((old_epoch, new_epoch)))` for a scan of the epochs `[old_epoch, new_epoch)`,
/// which leaves the checkpoint where it is until its rows are delivered.
pub open spec fn plan_outcome(
    checkpoint: Option<int>,
    failed: bool,
    subscription_exists: bool,
    committed_epoch: int,
) -> (Option<int>, bool, Option<int>, Result<Option<(int, int)>, CursorError>) {
    if failed || !subscription_exists {
        (checkpoint, true, None, Err(CursorError::SubscriptionNotFound))
    } else {
        let new_key = key_of_epoch(committed_epoch);
        let old_key = match checkpoint {
            Some(k) => k,
            None => new_key,
        };
        if old_key >= new_key {
            (Some(old_key), false, None, Ok(None))
        } else {
            (
                checkpoint,
                false,
                Some(committed_epoch),
                Ok(Some((epoch_of_key(old_key), committed_epoch))),
            )
        }
    }
}

/// The checkpoint and failure flag once the planned scan ending at `pending` has run:
/// delivered, the checkpoint moves to its end; not delivered, the cursor fails and
/// the checkpoint stays, so no epoch is passed over unseen.
pub open spec fn finish_outcome(
    checkpoint: Option<int>,
    failed: bool,
    pending: Option<int>,
    delivered: bool,
) -> (Option<int>, bool) {
    match pending {
        None => (checkpoint, failed),
        Some(e) => if delivered {
            (Some(key_of_epoch(e)), failed)
        } else {
            (checkpoint, true)
        },
    }
}

/// The checkpoint, failure flag and result of a fetch whose scan, if it plans one,
/// is delivered.
pub open spec fn fetch_outcome(
    checkpoint: Option<int>,
    failed: bool,
    subscription_exists: bool,
    committed_epoch: int,
) -> (Option<int>, bool, Result<Option<(int, int)>, CursorError>) {
    if failed || !subscription_exists {
        (checkpoint, true, Err(CursorError::SubscriptionNotFound))
    } else {
        let new_key = key_of_epoch(committed_epoch);
        let old_key = match checkpoint {
            Some(k) => k,
            None => new_key,
        };
        if old_key >= new_key {
            (Some(old_key), false, Ok(None))
        } else {
            (Some(new_key), false, Ok(Some((epoch_of_key(old_key), committed_epoch))))
        }
    }
}

impl SubscriptionCursor {
    /// The name of the subscription read.
    pub closed spec fn subscription(&self) -> Seq<char> {
        self.subscription_name@
    }

    /// The log-store key up to which changes were delivered.
    pub closed spec fn checkpoint(&self) -> Option<int> {
        match self.checkpoint {
            Some(k) => Some(k as int),
            None => None,
        }
    }

    /// Whether the cursor failed.
    pub closed spec fn failed(&self) -> bool {
        self.failed
    }

    /// The end epoch of the planned scan whose rows are not yet delivered.
    pub closed spec fn pending(&self) -> Option<int> {
        match self.pending {
            Some(e) => Some(e as int),
            None => None,
        }
    }

    /// Declares a cursor on the subscription `subscription_name`, whose retention
    /// is `retention_seconds`, starting at `since`, with the clock reading
    /// `now_unix_millis` and the logical epoch `now_epoch`.
    pub fn declare(
        subscription_name: String,
        since: Option<Since>,
        retention_seconds: u64,
        now_unix_millis: u64,
        now_epoch: u64,
    ) -> (r: Result<Self, CursorError>)
        requires
            valid_unix_millis(now_unix_millis as int),
        ensures
            match (r, start_key(since, retention_seconds as int, now_unix_millis as int, now_epoch as int)) {
                (Ok(c), Ok(s)) => c.checkpoint() == s && !c.failed() && c.pending() is None
                    && c.subscription() == subscription_name@,
                (Err(e), Err(s)) => e == CursorError::Retention(s),
                _ => false,
            },
    {
        match resolve_start_key(since, retention_seconds, now_unix_millis, now_epoch) {
            Ok(start) => Ok(
                SubscriptionCursor { subscription_name, checkpoint: start, pending: None, failed: false },
            ),
            Err(e) => Err(CursorError::Retention(e)),
        }
    }

    /// Whether a planned scan awaits `finish_scan`.
    pub fn has_pending_scan(&self) -> (b: bool)
        ensures
            b == self.pending() is Some,
    {
        self.pending.is_some()
    }

    /// Whether the cursor failed.
    pub fn is_failed(&self) -> (b: bool)
        ensures
            b == self.failed(),
    {
        self.failed
    }

    /// The name of the subscription read.
    pub fn subscription_name(&self) -> (s: &String)
        ensures
            s@ == self.subscription(),
    {
        &self.subscription_name
    }

    /// The log-store key up to which changes were delivered.
    pub fn checkpoint_key(&self) -> (k: Option<i64>)
        ensures
            match k {
                Some(k) => self.checkpoint() == Some(k as int),
                None => self.checkpoint() is None,
            },
    {
        self.checkpoint
    }

    /// Plans the next fetch: a scan of the table's visible columns over the epochs
    /// from the checkpoint up to the committed epoch, whose end is kept pending until
    /// `finish_scan` reports whether its rows were delivered; no scan when nothing new
    /// was committed. With no checkpoint yet the read starts at the committed epoch.
    /// Fails, now and on every later fetch, once the subscription is gone.
    pub fn fetch(&mut self, context: &FetchContext) -> (r: Result<FetchStep, CursorError>)
        ensures
            ({
                let o = plan_outcome(
                    old(self).checkpoint(),
                    old(self).failed(),
                    context.table is Some,
                    context.committed_epoch as int,
                );
                &&& final(self).checkpoint() == o.0
                &&& final(self).failed() == o.1
                &&& final(self).pending() == o.2
                &&& final(self).subscription() == old(self).subscription()
                &&& match r {
                    Err(e) => o.3 == Err::<Option<(int, int)>, CursorError>(e),
                    Ok(FetchStep::NoNewData) => o.3 == Ok::<Option<(int, int)>, CursorError>(None),
                    Ok(FetchStep::Scan(plan)) => {
                        &&& o.3 == Ok::<Option<(int, int)>, CursorError>(
                            Some((plan.old_epoch as int, plan.new_epoch as int)),
                        )
                        &&& scans_table(plan, context.table->0, context.query_mode)
                    },
                }
            }),
    {
        self.pending = None;
        if self.failed {
            return Err(CursorError::SubscriptionNotFound);
        }
        match &context.table {
            None => {
                self.failed = true;
                Err(CursorError::SubscriptionNotFound)
            },
            Some(table) => {
                let new_key = convert_epoch_to_logstore_i64(context.committed_epoch);
                let old_key = match self.checkpoint {
                    Some(k) => k,
                    None => new_key,
                };
                if old_key >= new_key {
                    self.checkpoint = Some(old_key);
                    Ok(FetchStep::NoNewData)
                } else {
                    let old_epoch = convert_logstore_i64_to_epoch(old_key);
                    let plan = create_batch_plan_for_cursor(
                        table,
                        context.query_mode,
                        old_epoch,
                        context.committed_epoch,
                    );
                    self.pending = Some(context.committed_epoch);
                    Ok(FetchStep::Scan(plan))
                }
            },
        }
    }

    /// Records whether the rows of the planned scan were delivered: if so the
    /// checkpoint moves to the scan's end; if not the cursor fails, as the epochs of
    /// that scan can no longer be delivered in order. Without a planned scan nothing
    /// changes.
    pub fn finish_scan(&mut self, delivered: bool)
        ensures
            (final(self).checkpoint(), final(self).failed()) == finish_outcome(
                old(self).checkpoint(),
                old(self).failed(),
                old(self).pending(),
                delivered,
            ),
            final(self).pending() is None,
            final(self).subscription() == old(self).subscription(),
    {
        match self.pending {
            None => {},
            Some(e) => {
                if delivered {
                    self.checkpoint = Some(convert_epoch_to_logstore_i64(e));
                } else {
                    self.failed = true;
                }
            },
        }
        self.pending = None;
    }
}

/// Whether `plan` scans the visible columns of `table`, under their names, in the
/// mode a cursor uses for the session mode `mode`.
pub open spec fn scans_table(plan: LogScanPlan, table: TableCatalog, mode: QueryMode) -> bool {
    &&& plan.table_name@ == table.name@
    &&& plan.output_columns@ == visible_columns(table.columns@)
    &&& plan.output_names@.len() == plan.output_columns@.len()
    &&& forall|k: int|
        0 <= k < plan.output_names@.len() ==> #[trigger] plan.output_names@[k]@
            == table.columns@[plan.output_columns@[k] as int].name@
    &&& plan.query_mode == cursor_query_mode(mode)
}

/// A fetch whose scan is delivered is a planned fetch followed by a delivered
/// `finish_scan`; a scan whose rows are not delivered fails the cursor and leaves
/// its checkpoint where it was.
pub proof fn lemma_fetch_is_plan_then_finish(
    checkpoint: Option<int>,
    failed: bool,
    subscription_exists: bool,
    committed_epoch: int,
)
    ensures
        ({
            let p = plan_outcome(checkpoint, failed, subscription_exists, committed_epoch);
            let done = finish_outcome(p.0, p.1, p.2, true);
            let lost = finish_outcome(p.0, p.1, p.2, false);
            &&& fetch_outcome(checkpoint, failed, subscription_exists, committed_epoch) == (
                done.0,
                done.1,
                p.3,
            )
            &&& p.3 matches Ok(Some(_)) ==> lost == (checkpoint, true)
        }),
{
}

/// A scan starts at the cursor's checkpoint, covers at least one epoch and leaves
/// the checkpoint at its end; a fetch without a scan never moves a checkpoint; the
/// checkpoint never moves back.
pub proof fn lemma_fetch_advances_checkpoint(
    checkpoint: Option<int>,
    failed: bool,
    subscription_exists: bool,
    committed_epoch: int,
)
    ensures
        ({
            let o = fetch_outcome(checkpoint, failed, subscription_exists, committed_epoch);
            &&& (o.2 matches Ok(Some((old_epoch, new_epoch))) ==> {
                &&& old_epoch < new_epoch
                &&& (checkpoint matches Some(k) ==> old_epoch == epoch_of_key(k))
                &&& o.0 == Some(key_of_epoch(new_epoch))
            })
            &&& (o.2 matches Ok(None) && checkpoint is Some ==> o.0 == checkpoint)
            &&& (checkpoint matches Some(k) ==> (o.0 matches Some(k2) && k <= k2))
        }),
{
}

/// Of two successive fetches that both scan, the second starts exactly where the
/// first ended: no epoch is skipped or read twice.
pub proof fn lemma_successive_scans_are_contiguous(
    checkpoint: Option<int>,
    failed: bool,
    exists1: bool,
    committed1: int,
    exists2: bool,
    committed2: int,
)
    ensures
        ({
            let o1 = fetch_outcome(checkpoint, failed, exists1, committed1);
            let o2 = fetch_outcome(o1.0, o1.1, exists2, committed2);
            o1.2 matches Ok(Some((a1, b1))) ==> (o2.2 matches Ok(Some((a2, b2))) ==> a1 < b1 && b1
                == a2 && a2 < b2)
        }),
{
}

/// The checkpoint, failure flag and results after a run of fetches, each event
/// giving whether the subscription exists and the committed epoch at that fetch.
pub open spec fn run_fetches(
    checkpoint: Option<int>,
    failed: bool,
    events: Seq<(bool, int)>,
) -> (Option<int>, bool, Seq<Result<Option<(int, int)>, CursorError>>)
    decreases events.len(),
{
    if events.len() == 0 {
        (checkpoint, failed, Seq::empty())
    } else {
        let before = run_fetches(checkpoint, failed, events.drop_last());
        let o = fetch_outcome(before.0, before.1, events.last().0, events.last().1);
        (o.0, o.1, before.2.push(o.2))
    }
}

/// The results of a run's first `j` fetches are those of the run of its first `j` events.
proof fn lemma_run_prefix(checkpoint: Option<int>, failed: bool, events: Seq<(bool, int)>, j: int)
    requires
        0 <= j <= events.len(),
    ensures
        run_fetches(checkpoint, failed, events.take(j)).2 == run_fetches(
            checkpoint,
            failed,
            events,
        ).2.take(j),
        run_fetches(checkpoint, failed, events).2.len() == events.len(),
    decreases events.len(),
{
    if events.len() > 0 {
        lemma_run_prefix(checkpoint, failed, events.drop_last(), 0);
        if j < events.len() {
            lemma_run_prefix(checkpoint, failed, events.drop_last(), j);
            assert(events.take(j) == events.drop_last().take(j));
            let all = run_fetches(checkpoint, failed, events).2;
            let rest = run_fetches(checkpoint, failed, events.drop_last()).2;
            assert(all.take(j) == rest.take(j));
        } else {
            assert(events.take(j) == events);
            assert(run_fetches(checkpoint, failed, events).2.take(j) == run_fetches(
                checkpoint,
                failed,
                events,
            ).2);
        }
    }
}

/// After a run, the checkpoint is at or beyond the end of every scan of the run,
/// and exactly at the end of the last one.
proof fn lemma_run_checkpoint(checkpoint: Option<int>, failed: bool, events: Seq<(bool, int)>)
    ensures
        ({
            let out = run_fetches(checkpoint, failed, events);
            forall|k: int|
                0 <= k < out.2.len() ==> (#[trigger] out.2[k] matches Ok(Some((a, b))) ==> {
                    &&& out.0 matches Some(c)
                    &&& key_of_epoch(b) <= c
                    &&& (forall|l: int| k < l < out.2.len() ==> !(#[trigger] out.2[l] matches Ok(Some(_))))
                        ==> out.0 == Some(key_of_epoch(b))
                })
        }),
    decreases events.len(),
{
    if events.len() > 0 {
        lemma_run_prefix(checkpoint, failed, events.drop_last(), 0);
        lemma_run_checkpoint(checkpoint, failed, events.drop_last());
        let before = run_fetches(checkpoint, failed, events.drop_last());
        let out = run_fetches(checkpoint, failed, events);
        assert forall|k: int|
            0 <= k < out.2.len() implies (#[trigger] out.2[k] matches Ok(Some((a, b))) ==> {
            &&& out.0 matches Some(c)
            &&& key_of_epoch(b) <= c
            &&& (forall|l: int| k < l < out.2.len() ==> !(#[trigger] out.2[l] matches Ok(Some(_))))
                ==> out.0 == Some(key_of_epoch(b))
        }) by {
            if k < before.2.len() {
                assert(out.2[k] == before.2[k]);
                let last = out.2.len() - 1;
                assert(out.2[last] == fetch_outcome(before.0, before.1, events.last().0, events.last().1).2);
                if out.2[k] is Ok && out.2[k]->Ok_0 is Some {
                    if (forall|l: int| k < l < out.2.len() ==> !(#[trigger] out.2[l] matches Ok(Some(_)))) {
                        assert forall|l: int| k < l < before.2.len() implies !(#[trigger] before.2[l] matches Ok(Some(_))) by {
                            assert(out.2[l] == before.2[l]);
                        }
                    }
                }
            }
        }
    }
}

/// Over any run of fetches on one cursor, each scan covers at least one epoch,
/// starts no earlier than every earlier scan ended (no epoch is read twice), and
/// starts exactly where the previous scan ended (no epoch is skipped).
pub proof fn lemma_run_scans_are_contiguous(
    checkpoint: Option<int>,
    failed: bool,
    events: Seq<(bool, int)>,
    i: int,
    j: int,
)
    requires
        0 <= i < j < events.len(),
    ensures
        ({
            let results = run_fetches(checkpoint, failed, events).2;
            results[i] matches Ok(Some((a_i, b_i))) ==> (results[j] matches Ok(Some((a_j, b_j)))
                ==> {
                &&& a_i < b_i
                &&& a_j < b_j
                &&& b_i <= a_j
                &&& (forall|l: int| i < l < j ==> !(#[trigger] results[l] matches Ok(Some(_)))) ==> b_i == a_j
            })
        }),
{
    let results = run_fetches(checkpoint, failed, events).2;
    lemma_run_prefix(checkpoint, failed, events, j + 1);
    lemma_run_prefix(checkpoint, failed, events, j);
    lemma_run_prefix(checkpoint, failed, events.take(j), 0);
    lemma_run_checkpoint(checkpoint, failed, events.take(j));
    lemma_run_checkpoint(checkpoint, failed, events.take(i + 1));
    lemma_run_prefix(checkpoint, failed, events, i + 1);
    let upto = run_fetches(checkpoint, failed, events.take(j));
    assert(events.take(j + 1).drop_last() == events.take(j));
    assert(results[j] == run_fetches(checkpoint, failed, events.take(j + 1)).2[j]);
    assert(results[j] == fetch_outcome(upto.0, upto.1, events[j].0, events[j].1).2);
    assert(results[i] == upto.2[i]);
    assert(events.take(i + 1).drop_last() == events.take(i));
    if let Ok(Some((a_i, b_i))) = results[i] {
        assert(a_i < b_i);
        if (forall|l: int| i < l < j ==> !(#[trigger] results[l] matches Ok(Some(_)))) {
            assert forall|l: int| i < l < upto.2.len() implies !(#[trigger] upto.2[l] matches Ok(Some(_))) by {
                assert(upto.2[l] == results[l]);
            }
        }
    }
}

/// With nothing committed beyond the checkpoint, a fetch plans no scan and keeps
/// the checkpoint; so does every repetition of it.
pub proof fn lemma_no_new_data_is_idempotent(checkpoint: int, committed_epoch: int)
    requires
        key_of_epoch(committed_epoch) <= checkpoint,
    ensures
        plan_outcome(Some(checkpoint), false, true, committed_epoch) == (
            Some(checkpoint),
            false,
            None::<int>,
            Ok::<Option<(int, int)>, CursorError>(None),
        ),
        fetch_outcome(Some(checkpoint), false, true, committed_epoch) == (
            Some(checkpoint),
            false,
            Ok::<Option<(int, int)>, CursorError>(None),
        ),
{
}

/// Once the cursor has failed, every later fetch fails, plans no scan and moves no
/// checkpoint.
pub proof fn lemma_failed_cursor_stays_failed(
    checkpoint: Option<int>,
    subscription_exists: bool,
    committed_epoch: int,
)
    ensures
        plan_outcome(checkpoint, true, subscription_exists, committed_epoch) == (
            checkpoint,
            true,
            None::<int>,
            Err::<Option<(int, int)>, CursorError>(CursorError::SubscriptionNotFound),
        ),
{
}

} // verus!
