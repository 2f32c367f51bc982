//! The incremental log-scan plan that a subscription cursor runs on each fetch.
use vstd::prelude::*;

verus! {

/// A column of a table, as the catalog describes it.
#[derive(Debug)]
pub struct ColumnCatalog {
    pub name: String,
    /// Hidden columns (row ids, generated keys) are never handed to a cursor.
    pub is_hidden: bool,
}

/// The parts of a table's catalog entry that a log scan reads.
#[derive(Debug)]
pub struct TableCatalog {
    pub name: String,
    pub columns: Vec<ColumnCatalog>,
}

/// How a batch plan is executed.
#[derive(Clone, Copy, Debug, PartialEq, Eq, Structural)]
pub enum QueryMode {
    /// Left to the engine; a cursor fetch resolves it to `Local`.
    Auto,
    Local,
    Distributed,
}

/// A scan of a table's change log over the epochs `[old_epoch, new_epoch)`.
#[derive(Debug)]
pub struct LogScanPlan {
    pub table_name: String,
    /// Indices into the table's columns of the columns that the scan outputs, in order.
    pub output_columns: Vec<usize>,
    /// Names of the output columns, in the same order.
    pub output_names: Vec<String>,
    pub old_epoch: u64,
    pub new_epoch: u64,
    pub query_mode: QueryMode,
}

/// The indices of the visible columns among `columns`, in order.
pub open spec fn visible_columns(columns: Seq<ColumnCatalog>) -> Seq<usize>
    decreases columns.len(),
{
    if columns.len() == 0 {
        Seq::empty()
    } else {
        let prefix = visible_columns(columns.drop_last());
        if columns.last().is_hidden {
            prefix
        } else {
            prefix.push((columns.len() - 1) as usize)
        }
    }
}

/// The execution mode that a cursor fetch uses for a session mode.
pub open spec fn cursor_query_mode(mode: QueryMode) -> QueryMode {
    match mode {
        QueryMode::Distributed => QueryMode::Distributed,
        _ => QueryMode::Local,
    }
}

/// The visible columns are listed in increasing order, each a visible column of the table.
pub proof fn lemma_visible_columns_sound(columns: Seq<ColumnCatalog>)
    requires
        columns.len() <= usize::MAX,
    ensures
        forall|k: int|
            0 <= k < visible_columns(columns).len() ==> #[trigger] visible_columns(columns)[k]
                < columns.len() && !columns[visible_columns(columns)[k] as int].is_hidden,
        forall|k: int, l: int|
            0 <= k < l < visible_columns(columns).len() ==> visible_columns(columns)[k]
                < visible_columns(columns)[l],
    decreases columns.len(),
{
    if columns.len() > 0 {
        let rest = columns.drop_last();
        let p = visible_columns(rest);
        let v = visible_columns(columns);
        lemma_visible_columns_sound(rest);
        assert forall|k: int| 0 <= k < v.len() implies #[trigger] v[k] < columns.len()
            && !columns[v[k] as int].is_hidden by {
            if k < p.len() {
                let c = p[k];
                assert(c < rest.len() && !rest[c as int].is_hidden);
                assert(rest[c as int] == columns[c as int]);
            }
        }
        assert forall|k: int, l: int| 0 <= k < l < v.len() implies v[k] < v[l] by {
            if l < p.len() {
                assert(p[k] < p[l]);
            } else {
                assert(p[k] < rest.len());
            }
        }
    }
}

/// Builds the log scan that a subscription cursor runs for `[old_epoch, new_epoch)`:
/// it outputs the table's visible columns in order and runs locally unless the
/// session asks for distributed execution.
pub fn create_batch_plan_for_cursor(
    table_catalog: &TableCatalog,
    query_mode: QueryMode,
    old_epoch: u64,
    new_epoch: u64,
) -> (plan: LogScanPlan)
    ensures
        plan.table_name@ == table_catalog.name@,
        plan.output_columns@ == visible_columns(table_catalog.columns@),
        forall|k: int|
            0 <= k < plan.output_columns@.len() ==> #[trigger] plan.output_columns@[k]
                < table_catalog.columns@.len()
                && !table_catalog.columns@[plan.output_columns@[k] as int].is_hidden,
        forall|k: int, l: int|
            0 <= k < l < plan.output_columns@.len() ==> plan.output_columns@[k]
                < plan.output_columns@[l],
        plan.output_names@.len() == plan.output_columns@.len(),
        forall|k: int|
            0 <= k < plan.output_names@.len() ==> #[trigger] plan.output_names@[k]@
                == table_catalog.columns@[plan.output_columns@[k] as int].name@,
        plan.old_epoch == old_epoch,
        plan.new_epoch == new_epoch,
        plan.query_mode == cursor_query_mode(query_mode),
{
    let columns = &table_catalog.columns;
    let mut output_columns: Vec<usize> = Vec::new();
    let mut output_names: Vec<String> = Vec::new();
    let mut i: usize = 0;
    while i < columns.len()
        invariant
            i <= columns@.len(),
            output_columns@ == visible_columns(columns@.take(i as int)),
            output_names@.len() == output_columns@.len(),
            forall|k: int|
                0 <= k < output_names@.len() ==> #[trigger] output_names@[k]@
                    == columns@[output_columns@[k] as int].name@,
            forall|k: int| 0 <= k < output_columns@.len() ==> #[trigger] output_columns@[k] < i,
        decreases columns.len() - i,
    {
        assert(columns@.take(i as int + 1).drop_last() == columns@.take(i as int));
        if !columns[i].is_hidden {
            output_columns.push(i);
            output_names.push(columns[i].name.clone());
        }
        i = i + 1;
    }
    assert(columns@.take(columns@.len() as int) == columns@);
    proof {
        lemma_visible_columns_sound(columns@);
    }
    let mode = match query_mode {
        QueryMode::Distributed => QueryMode::Distributed,
        _ => QueryMode::Local,
    };
    LogScanPlan {
        table_name: table_catalog.name.clone(),
        output_columns,
        output_names,
        old_epoch,
        new_epoch,
        query_mode: mode,
    }
}

} // verus!
