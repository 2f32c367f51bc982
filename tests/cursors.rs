use sql_cursor::handler::{handle_declare_cursor, DeclareContext, DeclareCursor, DeclareCursorStatement};
use sql_cursor::epoch::{convert_unix_millis_to_logstore_i64, unix_millis_to_epoch};
use sql_cursor::error::{CursorError, RetentionError};
use sql_cursor::manager::{Cursor, CursorManager, FetchOutcome};
use sql_cursor::plan::{
    create_batch_plan_for_cursor, ColumnCatalog, QueryMode, TableCatalog,
};
use sql_cursor::query_cursor::QueryCursor;
use sql_cursor::retention::Since;
use sql_cursor::subscription_cursor::{FetchContext, FetchStep, SubscriptionCursor};

const T: u64 = 1_700_000_000_000;

fn column(name: &str, is_hidden: bool) -> ColumnCatalog {
    ColumnCatalog { name: name.to_string(), is_hidden }
}

fn table() -> TableCatalog {
    TableCatalog {
        name: "t".to_string(),
        columns: vec![column("a", false), column("_row_id", true), column("b", false)],
    }
}

fn context(committed_epoch: u64) -> FetchContext {
    FetchContext { table: Some(table()), query_mode: QueryMode::Auto, committed_epoch }
}

fn checkpoint_of(m: &CursorManager<i32>, name: &str) -> Option<i64> {
    match m.get(&name.to_string()) {
        Some(Cursor::Subscription(s, _)) => s.checkpoint_key(),
        _ => panic!("not a subscription cursor"),
    }
}

#[test]
fn plan_outputs_visible_columns_in_order() {
    let plan = create_batch_plan_for_cursor(&table(), QueryMode::Distributed, 3, 9);
    assert_eq!(plan.table_name, "t");
    assert_eq!(plan.output_columns, vec![0, 2]);
    assert_eq!(plan.output_names, vec!["a".to_string(), "b".to_string()]);
    assert_eq!((plan.old_epoch, plan.new_epoch), (3, 9));
    assert_eq!(plan.query_mode, QueryMode::Distributed);
}

#[test]
fn plan_resolves_auto_to_local() {
    assert_eq!(create_batch_plan_for_cursor(&table(), QueryMode::Auto, 1, 2).query_mode, QueryMode::Local);
    assert_eq!(create_batch_plan_for_cursor(&table(), QueryMode::Local, 1, 2).query_mode, QueryMode::Local);
}

#[test]
fn plan_of_all_hidden_table_has_no_columns() {
    let t = TableCatalog { name: "h".to_string(), columns: vec![column("x", true)] };
    assert!(create_batch_plan_for_cursor(&t, QueryMode::Local, 1, 2).output_columns.is_empty());
}

#[test]
fn scenario_since_begin_then_first_fetch() {
    let mut m: CursorManager<i32> = CursorManager::new();
    let r = m.declare_subscription_cursor(
        "c".to_string(), "sub".to_string(), Some(3600), Some(Since::Begin), T, 0);
    assert_eq!(r, Ok(()));
    let start = convert_unix_millis_to_logstore_i64(T - 3_600_000);
    assert_eq!(checkpoint_of(&m, "c"), Some(start));
    let committed = unix_millis_to_epoch(T);
    match m.fetch(&"c".to_string(), Some(10), &context(committed)) {
        Ok(FetchOutcome::Step(FetchStep::Scan(plan))) => {
            assert_eq!(plan.old_epoch, unix_millis_to_epoch(T - 3_600_000));
            assert_eq!(plan.new_epoch, committed);
            assert_eq!(plan.output_columns, vec![0, 2]);
            assert_eq!(plan.query_mode, QueryMode::Local);
            assert_eq!(plan.output_names, vec!["a".to_string(), "b".to_string()]);
        }
        _ => panic!("expected a scan"),
    }
    assert_eq!(checkpoint_of(&m, "c"), Some(start));
    assert_eq!(m.finish_scan(&"c".to_string(), Some(vec![7, 8]), Some(10)), Ok(vec![7, 8]));
    assert_eq!(checkpoint_of(&m, "c"), Some(convert_unix_millis_to_logstore_i64(T)));
}

#[test]
fn scenario_since_future_timestamp_is_too_late() {
    let mut m: CursorManager<i32> = CursorManager::new();
    let r = m.declare_subscription_cursor(
        "c".to_string(), "sub".to_string(), Some(3600), Some(Since::TimestampMsNum(T + 10)), T, 0);
    assert_eq!(r, Err(CursorError::Retention(RetentionError::TooLate)));
    assert_eq!(m.len(), 0);
}

#[test]
fn scenario_query_cursor_exhaustion() {
    let mut m: CursorManager<i32> = CursorManager::new();
    let rows: Vec<i32> = (0..13).collect();
    assert_eq!(m.declare_query_cursor("q".to_string(), rows, vec!["v".to_string()]), Ok(()));
    let ctx = context(0);
    let q = "q".to_string();
    match m.fetch(&q, Some(10), &ctx) {
        Ok(FetchOutcome::Rows(rows, end)) => {
            assert_eq!(rows, (0..10).collect::<Vec<i32>>());
            assert!(!end);
        }
        _ => panic!("expected rows"),
    }
    match m.fetch(&q, Some(10), &ctx) {
        Ok(FetchOutcome::Rows(rows, end)) => {
            assert_eq!(rows, vec![10, 11, 12]);
            assert!(end);
        }
        _ => panic!("expected rows"),
    }
    for _ in 0..2 {
        match m.fetch(&q, Some(10), &ctx) {
            Ok(FetchOutcome::Rows(rows, end)) => {
                assert!(rows.is_empty());
                assert!(end);
            }
            _ => panic!("expected rows"),
        }
    }
}

#[test]
fn query_cursor_fetch_all_and_exact_count() {
    let mut c = QueryCursor::new(vec![1, 2, 3], vec!["x".to_string()]);
    assert_eq!(c.fetch(Some(3)), (vec![1, 2, 3], true));
    assert!(c.is_exhausted());
    let mut d = QueryCursor::new(vec![4, 5], vec![]);
    assert_eq!(d.fetch(Some(0)), (vec![], false));
    assert_eq!(d.fetch(None), (vec![4, 5], true));
    assert_eq!(d.fetch(None), (vec![], true));
    assert_eq!(c.field_names(), &vec!["x".to_string()]);
}

#[test]
fn scenario_repeated_fetch_without_writes() {
    let mut m: CursorManager<i32> = CursorManager::new();
    m.declare_subscription_cursor("c".to_string(), "sub".to_string(), Some(60), Some(Since::Begin), T, 0)
        .unwrap();
    let committed = unix_millis_to_epoch(T);
    let name = "c".to_string();
    assert!(matches!(
        m.fetch(&name, None, &context(committed)),
        Ok(FetchOutcome::Step(FetchStep::Scan(_)))
    ));
    assert_eq!(m.finish_scan(&name, Some(vec![]), None), Ok(vec![]));
    let checkpoint = checkpoint_of(&m, "c");
    for _ in 0..2 {
        assert!(matches!(
            m.fetch(&name, None, &context(committed)),
            Ok(FetchOutcome::Step(FetchStep::NoNewData))
        ));
        assert_eq!(checkpoint_of(&m, "c"), checkpoint);
    }
}

#[test]
fn successive_scans_are_contiguous() {
    let mut c = SubscriptionCursor::declare("sub".to_string(), Some(Since::ProcessTime), 60, T, 100).unwrap();
    let mut ranges = Vec::new();
    for committed in [150u64, 150, 90, 400, 401] {
        match c.fetch(&context(committed)).unwrap() {
            FetchStep::Scan(p) => {
                ranges.push((p.old_epoch, p.new_epoch));
                c.finish_scan(true);
            }
            FetchStep::NoNewData => {}
        }
    }
    assert_eq!(ranges, vec![(100, 150), (150, 400), (400, 401)]);
}

#[test]
fn first_fetch_without_start_begins_at_committed_epoch() {
    let mut c = SubscriptionCursor::declare("sub".to_string(), None, 60, T, 0).unwrap();
    assert_eq!(c.checkpoint_key(), None);
    assert!(matches!(c.fetch(&context(500)), Ok(FetchStep::NoNewData)));
    match c.fetch(&context(700)) {
        Ok(FetchStep::Scan(p)) => assert_eq!((p.old_epoch, p.new_epoch), (500, 700)),
        _ => panic!("expected a scan"),
    }
}

#[test]
fn dropped_subscription_fails_every_later_fetch() {
    let mut c = SubscriptionCursor::declare("sub".to_string(), Some(Since::ProcessTime), 60, T, 100).unwrap();
    let gone = FetchContext { table: None, query_mode: QueryMode::Local, committed_epoch: 200 };
    assert!(matches!(c.fetch(&gone), Err(CursorError::SubscriptionNotFound)));
    assert!(matches!(c.fetch(&context(300)), Err(CursorError::SubscriptionNotFound)));
    assert_eq!(c.subscription_name(), "sub");
}

#[test]
fn duplicate_and_missing_names() {
    let mut m: CursorManager<i32> = CursorManager::new();
    assert_eq!(m.declare_query_cursor("a".to_string(), vec![1], vec![]), Ok(()));
    assert_eq!(m.declare_query_cursor("a".to_string(), vec![2], vec![]), Err(CursorError::DuplicateCursor));
    assert_eq!(
        m.declare_subscription_cursor("a".to_string(), "sub".to_string(), Some(60), None, T, 0),
        Err(CursorError::DuplicateCursor)
    );
    let b = "b".to_string();
    assert!(matches!(m.fetch(&b, None, &context(0)), Err(CursorError::CursorNotFound)));
    assert!(matches!(m.close(&b), Err(CursorError::CursorNotFound)));
    assert_eq!(m.len(), 1);
}

#[test]
fn unknown_subscription_is_reported() {
    let mut m: CursorManager<i32> = CursorManager::new();
    assert_eq!(
        m.declare_subscription_cursor("c".to_string(), "nope".to_string(), None, None, T, 0),
        Err(CursorError::SubscriptionNotFound)
    );
    assert!(!m.contains_cursor(&"c".to_string()));
}

#[test]
fn closed_name_is_reusable() {
    let mut m: CursorManager<i32> = CursorManager::new();
    let a = "a".to_string();
    m.declare_query_cursor(a.clone(), vec![1, 2], vec![]).unwrap();
    m.declare_query_cursor("b".to_string(), vec![3], vec![]).unwrap();
    assert!(matches!(m.close(&a), Ok(Cursor::Query(_))));
    assert!(!m.contains_cursor(&a));
    assert!(m.contains_cursor(&"b".to_string()));
    assert!(matches!(m.close(&a), Err(CursorError::CursorNotFound)));
    assert_eq!(m.declare_query_cursor(a.clone(), vec![9], vec![]), Ok(()));
    match m.fetch(&a, None, &context(0)) {
        Ok(FetchOutcome::Rows(rows, end)) => assert_eq!((rows, end), (vec![9], true)),
        _ => panic!("expected rows"),
    }
}

#[test]
fn close_all_drains_the_session() {
    let mut m: CursorManager<i32> = CursorManager::new();
    m.declare_query_cursor("a".to_string(), vec![1], vec![]).unwrap();
    m.declare_subscription_cursor("s".to_string(), "sub".to_string(), Some(60), None, T, 0).unwrap();
    let closed = m.close_all();
    assert_eq!(closed.len(), 2);
    assert_eq!(m.len(), 0);
    assert!(!m.contains_cursor(&"a".to_string()));
}

#[test]
fn declare_statement_dispatches_by_kind() {
    let mut m: CursorManager<i32> = CursorManager::new();
    let ctx = DeclareContext { retention_seconds: Some(3600), now_unix_millis: T, now_epoch: 42 };
    let q = DeclareCursorStatement {
        cursor_name: "q".to_string(),
        declare_cursor: DeclareCursor::Query(vec![1, 2], vec!["v".to_string()]),
    };
    assert_eq!(handle_declare_cursor(&mut m, q, &ctx), Ok(()));
    let s = DeclareCursorStatement {
        cursor_name: "s".to_string(),
        declare_cursor: DeclareCursor::Subscription("sub".to_string(), Some(Since::TimestampMsNum(T - 3_600_001))),
    };
    assert_eq!(
        handle_declare_cursor(&mut m, s, &ctx),
        Err(CursorError::Retention(RetentionError::TooEarly))
    );
    let s = DeclareCursorStatement {
        cursor_name: "s".to_string(),
        declare_cursor: DeclareCursor::Subscription("sub".to_string(), Some(Since::ProcessTime)),
    };
    assert_eq!(handle_declare_cursor(&mut m, s, &ctx), Ok(()));
    assert!(matches!(m.get(&"q".to_string()), Some(Cursor::Query(_))));
    assert_eq!(checkpoint_of(&m, "s"), Some(sql_cursor::epoch::convert_epoch_to_logstore_i64(42)));
    let dup = DeclareCursorStatement {
        cursor_name: "q".to_string(),
        declare_cursor: DeclareCursor::Subscription("sub".to_string(), None),
    };
    assert_eq!(handle_declare_cursor(&mut m, dup, &ctx), Err(CursorError::DuplicateCursor));
}

#[test]
fn every_error_has_its_own_message() {
    let all = [
        CursorError::DuplicateCursor,
        CursorError::CursorNotFound,
        CursorError::SubscriptionNotFound,
        CursorError::Retention(RetentionError::TooLate),
        CursorError::Retention(RetentionError::TooEarly),
    ];
    for (i, a) in all.iter().enumerate() {
        assert!(!a.message().is_empty());
        for b in all.iter().skip(i + 1) {
            assert_ne!(a.message(), b.message());
        }
    }
}

#[test]
fn undelivered_scan_keeps_checkpoint_and_fails_cursor() {
    let mut c = SubscriptionCursor::declare("sub".to_string(), Some(Since::ProcessTime), 60, T, 100).unwrap();
    let before = c.checkpoint_key();
    assert!(matches!(c.fetch(&context(200)), Ok(FetchStep::Scan(_))));
    assert_eq!(c.checkpoint_key(), before);
    c.finish_scan(false);
    assert_eq!(c.checkpoint_key(), before);
    assert!(matches!(c.fetch(&context(300)), Err(CursorError::SubscriptionNotFound)));
}

#[test]
fn replanned_scan_starts_at_undelivered_range() {
    let mut c = SubscriptionCursor::declare("sub".to_string(), Some(Since::ProcessTime), 60, T, 100).unwrap();
    assert!(matches!(c.fetch(&context(200)), Ok(FetchStep::Scan(_))));
    match c.fetch(&context(250)) {
        Ok(FetchStep::Scan(p)) => assert_eq!((p.old_epoch, p.new_epoch), (100, 250)),
        _ => panic!("expected a scan"),
    }
    c.finish_scan(true);
    c.finish_scan(true);
    match c.fetch(&context(300)) {
        Ok(FetchStep::Scan(p)) => assert_eq!((p.old_epoch, p.new_epoch), (250, 300)),
        _ => panic!("expected a scan"),
    }
}

#[test]
fn finish_scan_on_manager_reports_missing_cursor() {
    let mut m: CursorManager<i32> = CursorManager::new();
    assert_eq!(m.finish_scan(&"x".to_string(), None, None), Err(CursorError::CursorNotFound));
}

#[test]
fn subscription_fetch_hands_out_count_rows_at_a_time() {
    let mut m: CursorManager<i32> = CursorManager::new();
    m.declare_subscription_cursor("c".to_string(), "sub".to_string(), Some(60), Some(Since::ProcessTime), T, 100)
        .unwrap();
    let name = "c".to_string();
    assert!(matches!(
        m.fetch(&name, Some(2), &context(200)),
        Ok(FetchOutcome::Step(FetchStep::Scan(_)))
    ));
    assert_eq!(m.finish_scan(&name, Some(vec![1, 2, 3, 4, 5]), Some(2)), Ok(vec![1, 2]));
    match m.fetch(&name, Some(2), &context(300)) {
        Ok(FetchOutcome::Rows(rows, end)) => assert_eq!((rows, end), (vec![3, 4], false)),
        _ => panic!("expected buffered rows"),
    }
    match m.fetch(&name, Some(2), &context(300)) {
        Ok(FetchOutcome::Rows(rows, end)) => assert_eq!((rows, end), (vec![5], false)),
        _ => panic!("expected buffered rows"),
    }
    match m.fetch(&name, Some(2), &context(300)) {
        Ok(FetchOutcome::Step(FetchStep::Scan(p))) => assert_eq!((p.old_epoch, p.new_epoch), (200, 300)),
        _ => panic!("expected a scan"),
    }
}

#[test]
fn failed_scan_on_manager_fails_later_fetches() {
    let mut m: CursorManager<i32> = CursorManager::new();
    m.declare_subscription_cursor("c".to_string(), "sub".to_string(), Some(60), Some(Since::ProcessTime), T, 100)
        .unwrap();
    let name = "c".to_string();
    assert!(m.fetch(&name, None, &context(200)).is_ok());
    assert_eq!(m.finish_scan(&name, None, None), Ok(vec![]));
    assert_eq!(checkpoint_of(&m, "c"), Some(sql_cursor::epoch::convert_epoch_to_logstore_i64(100)));
    assert!(matches!(m.fetch(&name, None, &context(300)), Err(CursorError::SubscriptionNotFound)));
}
