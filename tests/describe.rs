use data_repl::describe::{
    cell, label_column, outcome_of_error, plan_stat, report_layout, report_schema, stat_of_row,
    AggOutcome, Cell, Column, ColumnKind, ReportType, Stat, STAT_COUNT,
};

fn col(name: &str, kind: ColumnKind) -> Column {
    Column { name: name.to_string(), kind }
}

/// What the engine hands back when it carries out every plan.
fn engine_outcomes(cols: &Vec<Column>) -> Vec<AggOutcome> {
    (0..STAT_COUNT)
        .map(|i| match plan_stat(stat_of_row(i), cols) {
            None => AggOutcome::Skipped,
            Some(idx) => AggOutcome::Rows {
                batches: 1,
                columns: idx.iter().map(|&j| cols[j].name.clone()).collect(),
            },
        })
        .collect()
}

const P: Cell = Cell::Placeholder;
const V: Cell = Cell::Value;

#[test]
fn labels_in_fixed_order() {
    assert_eq!(
        label_column(),
        vec!["count", "null_count", "mean", "std", "min", "max", "median"]
    );
    assert_eq!(stat_of_row(0), Stat::Count);
    assert_eq!(stat_of_row(6), Stat::Median);
    assert_eq!(Stat::NullCount.label(), "null_count");
}

#[test]
fn schema_types_follow_columns() {
    let cols = vec![col("id", ColumnKind::Numeric), col("name", ColumnKind::Other), col("ok", ColumnKind::Boolean)];
    let s = report_schema(&cols);
    assert_eq!(s.len(), 4);
    assert_eq!(s[0].name, "describe");
    assert_eq!(s[0].data_type, ReportType::Utf8);
    assert!(!s[0].nullable);
    assert_eq!(s[1].name, "id");
    assert_eq!(s[1].data_type, ReportType::Float64);
    assert_eq!(s[2].data_type, ReportType::Utf8);
    assert_eq!(s[3].data_type, ReportType::Utf8);
    assert!(s[3].nullable);
}

#[test]
fn plans_pick_supported_columns() {
    let cols = vec![col("a", ColumnKind::Numeric), col("b", ColumnKind::Binary), col("c", ColumnKind::Other)];
    assert_eq!(plan_stat(Stat::Count, &cols), Some(vec![0, 1, 2]));
    assert_eq!(plan_stat(Stat::NullCount, &cols), Some(vec![0, 1, 2]));
    assert_eq!(plan_stat(Stat::Mean, &cols), Some(vec![0]));
    assert_eq!(plan_stat(Stat::Min, &cols), Some(vec![0, 2]));
    assert_eq!(plan_stat(Stat::Max, &cols), Some(vec![0, 2]));
    assert_eq!(plan_stat(Stat::Median, &vec![col("c", ColumnKind::Other)]), None);
}

#[test]
fn mixed_table_report() {
    let cols = vec![col("a", ColumnKind::Numeric), col("b", ColumnKind::Boolean), col("c", ColumnKind::Other)];
    let t = report_layout(&cols, &engine_outcomes(&cols)).unwrap();
    assert_eq!(t.len(), 3);
    assert_eq!(t[0], vec![V, V, V, V, V, V, V]);
    assert_eq!(t[1], vec![V, V, P, P, P, P, P]);
    assert_eq!(t[2], vec![V, V, P, P, V, V, P]);
}

#[test]
fn boolean_and_binary_only_table() {
    let cols = vec![col("flag", ColumnKind::Boolean), col("blob", ColumnKind::Binary)];
    let outcomes = engine_outcomes(&cols);
    assert!(matches!(outcomes[2], AggOutcome::Skipped));
    assert!(matches!(outcomes[4], AggOutcome::Skipped));
    let t = report_layout(&cols, &outcomes).unwrap();
    for c in &t {
        assert_eq!(*c, vec![V, V, P, P, P, P, P]);
    }
    assert!(report_schema(&cols).iter().all(|f| f.data_type == ReportType::Utf8));
}

#[test]
fn table_without_columns() {
    let cols: Vec<Column> = Vec::new();
    let outcomes = engine_outcomes(&cols);
    assert!(outcomes.iter().all(|o| matches!(o, AggOutcome::Skipped)));
    assert_eq!(report_layout(&cols, &outcomes).unwrap().len(), 0);
}

#[test]
fn empty_aggregate_error_is_recovered() {
    let m = "Error during planning: Aggregate requires at least one grouping or aggregate expression";
    assert!(matches!(outcome_of_error(m.to_string()), AggOutcome::Skipped));
    match outcome_of_error("Arrow error: cast failed".to_string()) {
        AggOutcome::Failed(e) => assert_eq!(e, "Arrow error: cast failed"),
        other => panic!("{:?}", other),
    }
}

#[test]
fn other_failure_aborts_report() {
    let cols = vec![col("a", ColumnKind::Numeric)];
    let mut outcomes = engine_outcomes(&cols);
    outcomes[3] = AggOutcome::Failed("std failed".to_string());
    outcomes[5] = AggOutcome::Failed("max failed".to_string());
    assert_eq!(report_layout(&cols, &outcomes).unwrap_err(), "std failed");
}

#[test]
fn cells_need_one_batch_with_the_column() {
    let name = "a".to_string();
    let rows = |batches: usize, names: Vec<&str>| AggOutcome::Rows {
        batches,
        columns: names.into_iter().map(String::from).collect(),
    };
    assert_eq!(cell(&rows(1, vec!["b", "a"]), &name), Cell::Value);
    assert_eq!(cell(&rows(1, vec!["b"]), &name), Cell::Placeholder);
    assert_eq!(cell(&rows(2, vec!["a"]), &name), Cell::Placeholder);
    assert_eq!(cell(&rows(0, vec!["a"]), &name), Cell::Placeholder);
    assert_eq!(cell(&AggOutcome::Skipped, &name), Cell::Placeholder);
}
