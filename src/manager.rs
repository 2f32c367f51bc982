//! The per-session registry of cursors, keyed by cursor name.
use vstd::prelude::*;

use crate::epoch::{
    epoch_of_unix_millis, key_of_unix_millis, lemma_unix_millis_key_monotonic, valid_unix_millis,
    EPOCH_ORIGIN_UNIX_MILLIS,
};
use crate::error::{CursorError, RetentionError};
use crate::query_cursor::{fetch_len, take_front, QueryCursor};
use crate::retention::{lemma_retention_window, start_key, Since};
use crate::subscription_cursor::{
    fetch_outcome, finish_outcome, plan_outcome, scans_table, FetchContext, FetchStep,
    SubscriptionCursor,
};

verus! {

/// A cursor of either kind.
pub enum Cursor<R> {
    Query(QueryCursor<R>),
    /// A subscription cursor, with the delivered rows that no fetch has handed out yet.
    Subscription(SubscriptionCursor, Vec<R>),
}

/// What a fetch hands back.
pub enum FetchOutcome<R> {
    /// Rows of a query cursor, and whether its rows are exhausted.
    Rows(Vec<R>, bool),
    /// What a subscription cursor asks the engine to run.
    Step(FetchStep),
}

/// Whether `new`, with the result `r`, is what a fetch of `count` rows from the query
/// cursor `before` leaves and returns.
pub open spec fn query_fetched<R>(
    before: QueryCursor<R>,
    after: QueryCursor<R>,
    count: Option<usize>,
    r: FetchOutcome<R>,
) -> bool {
    let k = fetch_len(count, before.remaining().len()) as int;
    &&& after.remaining() == before.remaining().skip(k)
    &&& after.fields() == before.fields()
    &&& r matches FetchOutcome::Rows(rows, end)
    &&& rows@ == before.remaining().take(k)
    &&& end == (after.remaining().len() == 0)
}

/// Whether `after` (with its rows `after_rows`) and the result `r` are what a fetch
/// of `count` rows in `context` makes of the subscription cursor `before` (with its
/// rows `before_rows`): rows left from the last scan are handed out first, while the
/// subscription exists and the cursor has not failed; else the next scan is planned.
pub open spec fn subscription_fetched<R>(
    before: SubscriptionCursor,
    before_rows: Seq<R>,
    after: SubscriptionCursor,
    after_rows: Seq<R>,
    count: Option<usize>,
    context: FetchContext,
    r: Result<FetchOutcome<R>, CursorError>,
) -> bool {
    if before_rows.len() > 0 && context.table is Some && !before.failed() {
        let k = fetch_len(count, before_rows.len()) as int;
        &&& after == before
        &&& after_rows == before_rows.skip(k)
        &&& r matches Ok(FetchOutcome::Rows(rows, end))
        &&& rows@ == before_rows.take(k)
        &&& !end
    } else {
        &&& after_rows == before_rows
        &&& planned_fetch(before, after, context, r)
    }
}

/// Whether `after` and `r` are what planning the next scan in `context` makes of the
/// subscription cursor `before`.
pub open spec fn planned_fetch<R>(
    before: SubscriptionCursor,
    after: SubscriptionCursor,
    context: FetchContext,
    r: Result<FetchOutcome<R>, CursorError>,
) -> bool {
    let o = plan_outcome(
        before.checkpoint(),
        before.failed(),
        context.table is Some,
        context.committed_epoch as int,
    );
    &&& after.checkpoint() == o.0
    &&& after.failed() == o.1
    &&& after.pending() == o.2
    &&& after.subscription() == before.subscription()
    &&& match r {
        Err(e) => o.3 == Err::<Option<(int, int)>, CursorError>(e),
        Ok(FetchOutcome::Step(FetchStep::NoNewData)) => o.3 == Ok::<
            Option<(int, int)>,
            CursorError,
        >(None),
        Ok(FetchOutcome::Step(FetchStep::Scan(plan))) => {
            &&& o.3 == Ok::<Option<(int, int)>, CursorError>(
                Some((plan.old_epoch as int, plan.new_epoch as int)),
            )
            &&& scans_table(plan, context.table->0, context.query_mode)
        },
        Ok(FetchOutcome::Rows(..)) => false,
    }
}

/// Whether `after` and `r` are what declaring the query cursor `name` over the rows
/// `rows`, with output columns `fields`, makes of `before`: `DuplicateCursor` and
/// no change if the name is taken, else the cursor is added last.
pub open spec fn declared_query<R>(
    before: CursorManager<R>,
    after: CursorManager<R>,
    name: Seq<char>,
    rows: Seq<R>,
    fields: Seq<String>,
    r: Result<(), CursorError>,
) -> bool {
    &&& r is Err <==> before.contains(name)
    &&& r matches Err(e) ==> e == CursorError::DuplicateCursor && after.names() == before.names()
        && after.cursors() == before.cursors()
    &&& r is Ok ==> {
        &&& after.names() == before.names().push(name)
        &&& after.cursors().drop_last() == before.cursors()
        &&& after.cursors().last() matches Cursor::Query(q)
        &&& q.remaining() == rows
        &&& q.fields() == fields
    }
}

/// Whether `after` and `r` are what declaring the subscription cursor `name` on
/// `subscription` makes of `before`: `DuplicateCursor` if the name is taken, else
/// `SubscriptionNotFound` if the subscription has no retention (it does not
/// exist), else the retention error of the start point, else the cursor is added
/// last with its resolved start. On an error nothing changes.
pub open spec fn declared_subscription<R>(
    before: CursorManager<R>,
    after: CursorManager<R>,
    name: Seq<char>,
    subscription: Seq<char>,
    retention_seconds: Option<u64>,
    since: Option<Since>,
    now_unix_millis: int,
    now_epoch: int,
    r: Result<(), CursorError>,
) -> bool {
    &&& before.contains(name) ==> r == Err::<(), CursorError>(CursorError::DuplicateCursor)
    &&& !before.contains(name) && retention_seconds is None ==> r == Err::<(), CursorError>(
        CursorError::SubscriptionNotFound,
    )
    &&& !before.contains(name) ==> (retention_seconds matches Some(ret) ==> match start_key(
        since,
        ret as int,
        now_unix_millis,
        now_epoch,
    ) {
        Err(e) => r == Err::<(), CursorError>(CursorError::Retention(e)),
        Ok(s) => {
            &&& r is Ok
            &&& after.names() == before.names().push(name)
            &&& after.cursors().drop_last() == before.cursors()
            &&& after.cursors().last() matches Cursor::Subscription(c, rows)
            &&& rows@.len() == 0
            &&& c.pending() is None
            &&& c.checkpoint() == s
            &&& !c.failed()
            &&& c.subscription() == subscription
        },
    })
    &&& r is Err ==> after.names() == before.names() && after.cursors() == before.cursors()
}

/// The cursors of one session, each under a name that no other cursor has.
pub struct CursorManager<R> {
    names: Vec<String>,
    cursors: Vec<Cursor<R>>,
}

impl<R> CursorManager<R> {
    /// The cursor names, in the order the cursors were declared.
    pub closed spec fn names(&self) -> Seq<Seq<char>> {
        Seq::new(self.names@.len(), |i: int| self.names@[i]@)
    }

    /// The cursors, in the same order as their names.
    pub closed spec fn cursors(&self) -> Seq<Cursor<R>> {
        self.cursors@
    }

    /// Each name has one cursor, and no name is used twice.
    pub closed spec fn wf(&self) -> bool {
        &&& self.names@.len() == self.cursors@.len()
        &&& self.names().no_duplicates()
    }

    /// Whether a cursor has the name `name`.
    pub open spec fn contains(&self, name: Seq<char>) -> bool {
        self.names().contains(name)
    }

    /// The position of the cursor named `name`.
    pub open spec fn index_of(&self, name: Seq<char>) -> int {
        choose|i: int| 0 <= i < self.names().len() && self.names()[i] == name
    }

    /// The name list, the cursor list and the spec view of names have one length.
    proof fn lemma_lengths(&self)
        requires
            self.wf(),
        ensures
            self.names().len() == self.cursors().len(),
            self.names().len() == self.names@.len(),
    {
    }

    /// An empty registry, as a session starts with.
    pub fn new() -> (m: Self)
        ensures
            m.wf(),
            m.names().len() == 0,
    {
        let m = CursorManager { names: Vec::new(), cursors: Vec::new() };
        assert(m.names().len() == 0);
        m
    }

    /// The number of cursors.
    pub fn len(&self) -> (n: usize)
        requires
            self.wf(),
        ensures
            n == self.names().len(),
    {
        self.names.len()
    }

    /// The position of the cursor named `name`, if there is one.
    fn find(&self, name: &String) -> (r: Option<usize>)
        requires
            self.wf(),
        ensures
            match r {
                Some(i) => i < self.names().len() && self.names()[i as int] == name@ && i
                    == self.index_of(name@),
                None => !self.contains(name@),
            },
    {
        let mut i: usize = 0;
        while i < self.names.len()
            invariant
                self.wf(),
                i <= self.names@.len(),
                forall|j: int| 0 <= j < i ==> self.names()[j] != name@,
            decreases self.names.len() - i,
        {
            if self.names[i] == *name {
                assert(self.names()[i as int] == name@);
                let ghost k = self.index_of(name@);
                assert(self.names()[k] == name@);
                assert(k == i) by {
                    if k != i as int {
                        assert(self.names().no_duplicates());
                    }
                }
                return Some(i);
            }
            i = i + 1;
        }
        assert(!self.contains(name@)) by {
            if self.contains(name@) {
                let j = choose|j: int| 0 <= j < self.names().len() && self.names()[j] == name@;
            }
        }
        None
    }

    /// Whether a cursor is named `name`.
    pub fn contains_cursor(&self, name: &String) -> (b: bool)
        requires
            self.wf(),
        ensures
            b == self.contains(name@),
    {
        self.find(name).is_some()
    }

    /// The cursor named `name`, if there is one.
    pub fn get(&self, name: &String) -> (r: Option<&Cursor<R>>)
        requires
            self.wf(),
        ensures
            match r {
                Some(c) => self.contains(name@) && *c == self.cursors()[self.index_of(name@)],
                None => !self.contains(name@),
            },
    {
        match self.find(name) {
            Some(i) => Some(&self.cursors[i]),
            None => None,
        }
    }

    /// Adds a cursor under a name that no cursor has.
    fn insert(&mut self, name: String, cursor: Cursor<R>)
        requires
            old(self).wf(),
            !old(self).contains(name@),
        ensures
            final(self).wf(),
            final(self).names() == old(self).names().push(name@),
            final(self).cursors() == old(self).cursors().push(cursor),
    {
        let ghost before = self.names();
        self.names.push(name);
        self.cursors.push(cursor);
        assert(self.names() =~= before.push(name@));
    }

    /// Declares a query cursor named `name` over the rows of a query that has
    /// started, with the names of its output columns. Fails with `DuplicateCursor`
    /// if the name is taken.
    pub fn declare_query_cursor(&mut self, name: String, rows: Vec<R>, field_names: Vec<String>) -> (r:
        Result<(), CursorError>)
        requires
            old(self).wf(),
        ensures
            final(self).wf(),
            declared_query(*old(self), *final(self), name@, rows@, field_names@, r),
    {
        if self.find(&name).is_some() {
            return Err(CursorError::DuplicateCursor);
        }
        let cursor = Cursor::Query(QueryCursor::new(rows, field_names));
        self.insert(name, cursor);
        assert(self.cursors().drop_last() =~= old(self).cursors());
        Ok(())
    }

    /// Declares a subscription cursor named `name` on the subscription
    /// `subscription_name`, starting at `since`. `retention_seconds` is the
    /// subscription's retention, `None` when no such subscription exists; the clock
    /// reads `now_unix_millis` and the logical epoch is `now_epoch`. Fails with
    /// `DuplicateCursor` if the name is taken, else with `SubscriptionNotFound`,
    /// else with the retention error of the start point.
    pub fn declare_subscription_cursor(
        &mut self,
        name: String,
        subscription_name: String,
        retention_seconds: Option<u64>,
        since: Option<Since>,
        now_unix_millis: u64,
        now_epoch: u64,
    ) -> (r: Result<(), CursorError>)
        requires
            old(self).wf(),
            valid_unix_millis(now_unix_millis as int),
        ensures
            final(self).wf(),
            declared_subscription(
                *old(self),
                *final(self),
                name@,
                subscription_name@,
                retention_seconds,
                since,
                now_unix_millis as int,
                now_epoch as int,
                r,
            ),
    {
        if self.find(&name).is_some() {
            return Err(CursorError::DuplicateCursor);
        }
        let retention = match retention_seconds {
            Some(ret) => ret,
            None => {
                return Err(CursorError::SubscriptionNotFound);
            },
        };
        match SubscriptionCursor::declare(
            subscription_name,
            since,
            retention,
            now_unix_millis,
            now_epoch,
        ) {
            Err(e) => Err(e),
            Ok(c) => {
                self.insert(name, Cursor::Subscription(c, Vec::new()));
                assert(self.cursors().drop_last() =~= old(self).cursors());
                Ok(())
            },
        }
    }

    /// Fetches from the cursor named `name`: up to `count` rows (`None`: all) of a
    /// query cursor, or the next step of a subscription cursor in `context`. Fails
    /// with `CursorNotFound` if no cursor has the name.
    pub fn fetch(&mut self, name: &String, count: Option<usize>, context: &FetchContext) -> (r:
        Result<FetchOutcome<R>, CursorError>)
        requires
            old(self).wf(),
        ensures
            final(self).wf(),
            final(self).names() == old(self).names(),
            r == Err::<FetchOutcome<R>, CursorError>(CursorError::CursorNotFound) <==> !old(
                self,
            ).contains(name@),
            !old(self).contains(name@) ==> final(self).cursors() == old(self).cursors(),
            old(self).contains(name@) ==> {
                let i = old(self).index_of(name@);
                &&& final(self).cursors().len() == old(self).cursors().len()
                &&& forall|j: int|
                    0 <= j < old(self).cursors().len() && j != i ==> final(self).cursors()[j]
                        == old(self).cursors()[j]
                &&& match old(self).cursors()[i] {
                    Cursor::Query(q0) => final(self).cursors()[i] matches Cursor::Query(q1) && r
                        matches Ok(out) && query_fetched(q0, q1, count, out),
                    Cursor::Subscription(s0, b0) => final(self).cursors()[i] matches Cursor::Subscription(
                        s1,
                        b1,
                    ) && subscription_fetched(s0, b0@, s1, b1@, count, *context, r),
                }
            },
    {
        let i = match self.find(name) {
            Some(i) => i,
            None => {
                return Err(CursorError::CursorNotFound);
            },
        };
        proof {
            self.lemma_lengths();
        }
        let ghost before = self.cursors();
        let mut cursor = self.cursors.remove(i);
        let r = match &mut cursor {
            Cursor::Query(q) => {
                let (rows, end) = q.fetch(count);
                Ok(FetchOutcome::Rows(rows, end))
            },
            Cursor::Subscription(s, buffer) => {
                if buffer.len() > 0 && context.table.is_some() && !s.is_failed() {
                    let rows = take_front(buffer, count);
                    Ok(FetchOutcome::Rows(rows, false))
                } else {
                    match s.fetch(context) {
                        Ok(step) => Ok(FetchOutcome::Step(step)),
                        Err(e) => Err(e),
                    }
                }
            },
        };
        self.cursors.insert(i, cursor);
        assert(self.cursors() =~= before.update(i as int, cursor));
        r
    }

    /// Hands the cursor named `name` the outcome of the scan that its last fetch
    /// planned: its rows when they were delivered, `None` when the scan failed (see
    /// `SubscriptionCursor::finish_scan`). The delivered rows join the cursor's
    /// rows, of which the first `count` (`None`: all) are returned. Without a
    /// planned scan, or for a query cursor, nothing changes and no rows are
    /// returned. Fails with `CursorNotFound` if no cursor has the name.
    pub fn finish_scan(&mut self, name: &String, rows: Option<Vec<R>>, count: Option<usize>) -> (r:
        Result<Vec<R>, CursorError>)
        requires
            old(self).wf(),
        ensures
            final(self).wf(),
            final(self).names() == old(self).names(),
            r is Err <==> !old(self).contains(name@),
            r matches Err(e) ==> e == CursorError::CursorNotFound && final(self).cursors() == old(
                self,
            ).cursors(),
            old(self).contains(name@) ==> {
                let i = old(self).index_of(name@);
                &&& final(self).cursors().len() == old(self).cursors().len()
                &&& forall|j: int|
                    0 <= j < old(self).cursors().len() && j != i ==> final(self).cursors()[j]
                        == old(self).cursors()[j]
                &&& r matches Ok(out)
                &&& match old(self).cursors()[i] {
                    Cursor::Query(q0) => final(self).cursors()[i] == old(self).cursors()[i]
                        && out@.len() == 0,
                    Cursor::Subscription(s0, b0) => {
                        &&& final(self).cursors()[i] matches Cursor::Subscription(s1, b1)
                        &&& (s1.checkpoint(), s1.failed()) == finish_outcome(
                            s0.checkpoint(),
                            s0.failed(),
                            s0.pending(),
                            rows is Some,
                        )
                        &&& s1.pending() is None
                        &&& s1.subscription() == s0.subscription()
                        &&& if s0.pending() is Some && rows is Some {
                            let all = b0@ + rows->0@;
                            let k = fetch_len(count, all.len()) as int;
                            out@ == all.take(k) && b1@ == all.skip(k)
                        } else {
                            out@.len() == 0 && b1@ == b0@
                        }
                    },
                }
            },
    {
        let i = match self.find(name) {
            Some(i) => i,
            None => {
                return Err(CursorError::CursorNotFound);
            },
        };
        proof {
            self.lemma_lengths();
        }
        let ghost before = self.cursors();
        let mut cursor = self.cursors.remove(i);
        let out = match &mut cursor {
            Cursor::Query(_) => Vec::new(),
            Cursor::Subscription(s, buffer) => {
                let planned = s.has_pending_scan();
                s.finish_scan(rows.is_some());
                match rows {
                    Some(mut delivered) => {
                        if planned {
                            buffer.append(&mut delivered);
                            take_front(buffer, count)
                        } else {
                            Vec::new()
                        }
                    },
                    None => Vec::new(),
                }
            },
        };
        self.cursors.insert(i, cursor);
        assert(self.cursors() =~= before.update(i as int, cursor));
        Ok(out)
    }

    /// Closes the cursor named `name` and hands it back for its resources to be
    /// released; the name is free again at once. Fails with `CursorNotFound` if no
    /// cursor has the name.
    pub fn close(&mut self, name: &String) -> (r: Result<Cursor<R>, CursorError>)
        requires
            old(self).wf(),
        ensures
            final(self).wf(),
            r is Err <==> !old(self).contains(name@),
            r matches Err(e) ==> e == CursorError::CursorNotFound && final(self).names() == old(
                self,
            ).names() && final(self).cursors() == old(self).cursors(),
            r matches Ok(c) ==> {
                let i = old(self).index_of(name@);
                &&& c == old(self).cursors()[i]
                &&& final(self).names() == old(self).names().remove(i)
                &&& final(self).cursors() == old(self).cursors().remove(i)
                &&& !final(self).contains(name@)
            },
    {
        let i = match self.find(name) {
            Some(i) => i,
            None => {
                return Err(CursorError::CursorNotFound);
            },
        };
        proof {
            self.lemma_lengths();
        }
        let ghost before = self.names();
        self.names.remove(i);
        let c = self.cursors.remove(i);
        assert(self.names() =~= before.remove(i as int));
        proof {
            lemma_removed_name_is_free(before, name@, i as int);
        }
        Ok(c)
    }

    /// Closes every cursor, as the session ends, and hands them all back for their
    /// resources to be released.
    pub fn close_all(&mut self) -> (r: Vec<Cursor<R>>)
        requires
            old(self).wf(),
        ensures
            final(self).wf(),
            final(self).names().len() == 0,
            r@ == old(self).cursors(),
    {
        self.names.clear();
        let mut closed: Vec<Cursor<R>> = Vec::new();
        std::mem::swap(&mut self.cursors, &mut closed);
        assert(self.names().len() == 0);
        closed
    }
}

/// Taking the one occurrence of a name out of a list without repeats leaves the
/// name absent and the list without repeats.
proof fn lemma_removed_name_is_free(names: Seq<Seq<char>>, name: Seq<char>, i: int)
    requires
        names.no_duplicates(),
        0 <= i < names.len(),
        names[i] == name,
    ensures
        !names.remove(i).contains(name),
        names.remove(i).no_duplicates(),
{
    let rest = names.remove(i);
    assert forall|j: int| 0 <= j < rest.len() implies rest[j] != name by {
        if j < i {
            assert(rest[j] == names[j]);
        } else {
            assert(rest[j] == names[j + 1]);
        }
    }
    assert forall|j: int, k: int| 0 <= j < rest.len() && 0 <= k < rest.len() && j != k implies rest[j]
        != rest[k] by {
        let jj = if j < i { j } else { j + 1 };
        let kk = if k < i { k } else { k + 1 };
        assert(rest[j] == names[jj] && rest[k] == names[kk]);
    }
}

/// After a cursor is closed, its name is free: declaring a cursor under it succeeds.
pub proof fn lemma_closed_name_is_reusable<R>(m: CursorManager<R>, name: Seq<char>)
    requires
        m.wf(),
        m.contains(name),
    ensures
        !m.names().remove(m.index_of(name)).contains(name),
{
    let i = m.index_of(name);
    lemma_removed_name_is_free(m.names(), name, i);
}

/// A cursor declared `SINCE BEGIN` at time `now` starts at the key of
/// `now - retention * 1000`; its first fetch with the epoch of `now` committed scans
/// from that time's epoch to the epoch of `now`, and once delivered leaves the
/// checkpoint at the key of `now`.
pub proof fn lemma_since_begin_then_first_fetch<R>(
    before: CursorManager<R>,
    after: CursorManager<R>,
    name: Seq<char>,
    subscription: Seq<char>,
    retention_seconds: u64,
    now_unix_millis: int,
    now_epoch: int,
    r: Result<(), CursorError>,
)
    requires
        !before.contains(name),
        valid_unix_millis(now_unix_millis),
        now_unix_millis - retention_seconds * 1000 >= EPOCH_ORIGIN_UNIX_MILLIS,
        retention_seconds > 0,
        declared_subscription(
            before,
            after,
            name,
            subscription,
            Some(retention_seconds),
            Some(Since::Begin),
            now_unix_millis,
            now_epoch,
            r,
        ),
    ensures
        r is Ok,
        after.cursors().last() matches Cursor::Subscription(c, _) && c.checkpoint() == Some(
            key_of_unix_millis(now_unix_millis - retention_seconds * 1000),
        ),
        ({
            let start = key_of_unix_millis(now_unix_millis - retention_seconds * 1000);
            let committed = epoch_of_unix_millis(now_unix_millis);
            fetch_outcome(Some(start), false, true, committed) == (
                Some(key_of_unix_millis(now_unix_millis)),
                false,
                Ok::<Option<(int, int)>, CursorError>(
                    Some(
                        (
                            epoch_of_unix_millis(now_unix_millis - retention_seconds * 1000),
                            committed,
                        ),
                    ),
                ),
            )
        }),
{
    let start_ms = now_unix_millis - retention_seconds * 1000;
    lemma_unix_millis_key_monotonic(start_ms, now_unix_millis);
}

/// Declaring a cursor under a free name at a timestamp after now fails as too late
/// and leaves the registry as it was.
pub proof fn lemma_future_start_is_too_late<R>(
    before: CursorManager<R>,
    after: CursorManager<R>,
    name: Seq<char>,
    subscription: Seq<char>,
    retention_seconds: u64,
    requested_unix_millis: u64,
    now_unix_millis: int,
    now_epoch: int,
    r: Result<(), CursorError>,
)
    requires
        !before.contains(name),
        requested_unix_millis > now_unix_millis,
        declared_subscription(
            before,
            after,
            name,
            subscription,
            Some(retention_seconds),
            Some(Since::TimestampMsNum(requested_unix_millis)),
            now_unix_millis,
            now_epoch,
            r,
        ),
    ensures
        r == Err::<(), CursorError>(CursorError::Retention(RetentionError::TooLate)),
        after.names() == before.names(),
        after.cursors() == before.cursors(),
{
}

/// Of two cursors declared at explicit timestamps `a < b` of one retention window,
/// the later timestamp gets the greater start key.
pub proof fn lemma_later_start_has_greater_key<R>(
    before1: CursorManager<R>,
    after1: CursorManager<R>,
    before2: CursorManager<R>,
    after2: CursorManager<R>,
    name1: Seq<char>,
    name2: Seq<char>,
    subscription: Seq<char>,
    retention_seconds: u64,
    a: u64,
    b: u64,
    now_unix_millis: int,
    now_epoch: int,
    r1: Result<(), CursorError>,
    r2: Result<(), CursorError>,
)
    requires
        !before1.contains(name1),
        !before2.contains(name2),
        valid_unix_millis(now_unix_millis),
        EPOCH_ORIGIN_UNIX_MILLIS <= a < b <= now_unix_millis,
        now_unix_millis - retention_seconds * 1000 <= a,
        declared_subscription(
            before1,
            after1,
            name1,
            subscription,
            Some(retention_seconds),
            Some(Since::TimestampMsNum(a)),
            now_unix_millis,
            now_epoch,
            r1,
        ),
        declared_subscription(
            before2,
            after2,
            name2,
            subscription,
            Some(retention_seconds),
            Some(Since::TimestampMsNum(b)),
            now_unix_millis,
            now_epoch,
            r2,
        ),
    ensures
        r1 is Ok,
        r2 is Ok,
        after1.cursors().last() matches Cursor::Subscription(c1, _) && after2.cursors().last() matches Cursor::Subscription(c2, _)
            && c1.checkpoint() matches Some(k1) && c2.checkpoint() matches Some(k2) && k1 < k2,
{
    lemma_retention_window(a as int, retention_seconds as int, now_unix_millis);
    lemma_retention_window(b as int, retention_seconds as int, now_unix_millis);
    lemma_unix_millis_key_monotonic(a as int, b as int);
}

} // verus!
