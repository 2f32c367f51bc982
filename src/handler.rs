//! The `DECLARE ... CURSOR` statement, routed to the cursor kind it names.
use vstd::prelude::*;

use crate::epoch::valid_unix_millis;
use crate::error::CursorError;
use crate::manager::{declared_query, declared_subscription, CursorManager};
use crate::retention::Since;

verus! {

/// What a `DECLARE` statement declares a cursor for.
pub enum DeclareCursor<R> {
    /// A query that has already started: its rows and the names of its output columns.
    Query(Vec<R>, Vec<String>),
    /// A subscription, by name, with an optional start point.
    Subscription(String, Option<Since>),
}

/// `DECLARE <cursor_name> CURSOR FOR ...`.
pub struct DeclareCursorStatement<R> {
    pub cursor_name: String,
    pub declare_cursor: DeclareCursor<R>,
}

/// What the session knows when a cursor is declared.
pub struct DeclareContext {
    /// The retention of the named subscription, `None` when it does not exist.
    pub retention_seconds: Option<u64>,
    /// The wall clock, in unix milliseconds.
    pub now_unix_millis: u64,
    /// The current logical epoch.
    pub now_epoch: u64,
}

/// Declares the cursor that `stmt` describes in the session's registry.
pub fn handle_declare_cursor<R>(
    manager: &mut CursorManager<R>,
    stmt: DeclareCursorStatement<R>,
    context: &DeclareContext,
) -> (r: Result<(), CursorError>)
    requires
        old(manager).wf(),
        stmt.declare_cursor is Subscription ==> valid_unix_millis(context.now_unix_millis as int),
    ensures
        final(manager).wf(),
        match stmt.declare_cursor {
            DeclareCursor::Query(rows, fields) => declared_query(
                *old(manager),
                *final(manager),
                stmt.cursor_name@,
                rows@,
                fields@,
                r,
            ),
            DeclareCursor::Subscription(subscription, since) => declared_subscription(
                *old(manager),
                *final(manager),
                stmt.cursor_name@,
                subscription@,
                context.retention_seconds,
                since,
                context.now_unix_millis as int,
                context.now_epoch as int,
                r,
            ),
        },
{
    match stmt.declare_cursor {
        DeclareCursor::Query(rows, fields) => manager.declare_query_cursor(
            stmt.cursor_name,
            rows,
            fields,
        ),
        DeclareCursor::Subscription(subscription, since) => manager.declare_subscription_cursor(
            stmt.cursor_name,
            subscription,
            context.retention_seconds,
            since,
            context.now_unix_millis,
            context.now_epoch,
        ),
    }
}

} // verus!
