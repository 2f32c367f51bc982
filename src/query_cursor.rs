//! A cursor over the rows of one query, executed when the cursor is declared.
use vstd::prelude::*;

verus! {

/// The rows that a query produced and that no fetch has handed out yet, with the
/// names of its output columns.
pub struct QueryCursor<R> {
    rows: Vec<R>,
    field_names: Vec<String>,
}

/// The number of rows that a fetch of `count` (`None`: all) takes from `remaining` rows.
pub open spec fn fetch_len(count: Option<usize>, remaining: nat) -> nat {
    match count {
        Some(n) => if (n as nat) < remaining {
            n as nat
        } else {
            remaining
        },
        None => remaining,
    }
}

impl<R> QueryCursor<R> {
    /// The rows not yet fetched, in the order the query produced them.
    pub closed spec fn remaining(&self) -> Seq<R> {
        self.rows@
    }

    /// The names of the query's output columns.
    pub closed spec fn fields(&self) -> Seq<String> {
        self.field_names@
    }

    /// A cursor over the rows of a query that has started, in the order they come.
    pub fn new(rows: Vec<R>, field_names: Vec<String>) -> (c: Self)
        ensures
            c.remaining() == rows@,
            c.fields() == field_names@,
    {
        QueryCursor { rows, field_names }
    }

    /// The names of the query's output columns.
    pub fn field_names(&self) -> (f: &Vec<String>)
        ensures
            f@ == self.fields(),
    {
        &self.field_names
    }

    /// Whether every row has been fetched.
    pub fn is_exhausted(&self) -> (b: bool)
        ensures
            b == (self.remaining().len() == 0),
    {
        self.rows.len() == 0
    }

    /// Takes the next `count` rows (`None`: all that are left), fewer when fewer
    /// are left; `reached_end` tells whether none are left afterwards. Once the
    /// rows are exhausted, every fetch returns no rows and `reached_end`.
    pub fn fetch(&mut self, count: Option<usize>) -> (r: (Vec<R>, bool))
        ensures
            ({
                let k = fetch_len(count, old(self).remaining().len()) as int;
                &&& r.0@ == old(self).remaining().take(k)
                &&& final(self).remaining() == old(self).remaining().skip(k)
                &&& final(self).fields() == old(self).fields()
                &&& r.1 == (final(self).remaining().len() == 0)
            }),
    {
        let taken = take_front(&mut self.rows, count);
        let reached_end = self.rows.len() == 0;
        (taken, reached_end)
    }
}

/// Takes the first `count` items (`None`: all) off the front of `items`, fewer when
/// fewer are there, keeping the rest in order.
pub fn take_front<R>(items: &mut Vec<R>, count: Option<usize>) -> (taken: Vec<R>)
    ensures
        ({
            let k = fetch_len(count, old(items)@.len()) as int;
            &&& taken@ == old(items)@.take(k)
            &&& final(items)@ == old(items)@.skip(k)
        }),
{
    let len = items.len();
    let k: usize = match count {
        Some(n) => if n < len {
            n
        } else {
            len
        },
        None => len,
    };
    let mut taken = items.split_off(k);
    std::mem::swap(items, &mut taken);
    taken
}

/// Fetching from an exhausted query cursor yields no rows and reports the end.
pub proof fn lemma_exhausted_fetch_is_empty<R>(before: Seq<R>, count: Option<usize>)
    requires
        before.len() == 0,
    ensures
        before.take(fetch_len(count, before.len()) as int).len() == 0,
        before.skip(fetch_len(count, before.len()) as int).len() == 0,
{
}

/// A fetch of `n` rows yields at most `n` rows.
pub proof fn lemma_fetch_at_most_count<R>(before: Seq<R>, n: usize)
    ensures
        before.take(fetch_len(Some(n), before.len()) as int).len() <= n,
{
}

} // verus!
