//! The statistics report of a table: its schema, which columns each
//! statistic aggregates, and how the aggregation outcomes fill each column.
//!
//! The report has one label column and one column per column of the table,
//! and exactly one row per statistic, in the fixed order of `stat_at`.
use vstd::prelude::*;
use vstd::string::*;

use crate::text::{contains_seq, contains_text};

verus! {

/// Number of statistics, hence of rows, in a report.
pub const STAT_COUNT: usize = 7;

/// Name of the label column.
pub const LABEL_COLUMN: &'static str = "describe";

/// The cell written where a statistic has no value for a column.
pub const PLACEHOLDER: &'static str = "null";

/// The part of the engine's planning error for an aggregation with nothing
/// to aggregate that stays the same across its versions.
pub const EMPTY_AGGREGATE: &'static str = "requires at least one grouping or aggregate expression";

/// The class of a column's declared type that the report depends on.
#[derive(Clone, Copy, Debug, PartialEq, Eq, Structural)]
pub enum ColumnKind {
    Numeric,
    Boolean,
    Binary,
    Other,
}

/// A column of the input table.
#[derive(Clone, Debug)]
pub struct Column {
    pub name: String,
    pub kind: ColumnKind,
}

/// The declared type of a report column.
#[derive(Clone, Copy, Debug, PartialEq, Eq, Structural)]
pub enum ReportType {
    Utf8,
    Float64,
}

/// A column of the report.
#[derive(Clone, Debug)]
pub struct ReportField {
    pub name: String,
    pub data_type: ReportType,
    pub nullable: bool,
}

/// One statistic of the report.
#[derive(Clone, Copy, Debug, PartialEq, Eq, Structural)]
pub enum Stat {
    Count,
    NullCount,
    Mean,
    Std,
    Min,
    Max,
    Median,
}

/// The statistic of row `i`.
pub open spec fn stat_at(i: int) -> Stat {
    if i == 0 {
        Stat::Count
    } else if i == 1 {
        Stat::NullCount
    } else if i == 2 {
        Stat::Mean
    } else if i == 3 {
        Stat::Std
    } else if i == 4 {
        Stat::Min
    } else if i == 5 {
        Stat::Max
    } else {
        Stat::Median
    }
}

/// The label of a statistic in the report.
pub open spec fn stat_label(s: Stat) -> Seq<char> {
    match s {
        Stat::Count => "count"@,
        Stat::NullCount => "null_count"@,
        Stat::Mean => "mean"@,
        Stat::Std => "std"@,
        Stat::Min => "min"@,
        Stat::Max => "max"@,
        Stat::Median => "median"@,
    }
}

/// Whether a statistic aggregates a column of this kind: counts take every
/// column, mean, std and median the numeric ones, min and max all but
/// boolean and binary ones.
pub open spec fn applies(s: Stat, k: ColumnKind) -> bool {
    match s {
        Stat::Count | Stat::NullCount => true,
        Stat::Mean | Stat::Std | Stat::Median => k == ColumnKind::Numeric,
        Stat::Min | Stat::Max => k != ColumnKind::Boolean && k != ColumnKind::Binary,
    }
}

/// The declared type of the report column of a column of this kind.
pub open spec fn report_type_of(k: ColumnKind) -> ReportType {
    if k == ColumnKind::Numeric {
        ReportType::Float64
    } else {
        ReportType::Utf8
    }
}

/// The positions, among the first `n` columns, of those that `s` aggregates.
pub open spec fn selected(s: Stat, cols: Seq<Column>, n: int) -> Seq<usize>
    decreases n,
{
    if n <= 0 {
        Seq::empty()
    } else if applies(s, cols[n - 1].kind) {
        selected(s, cols, n - 1).push((n - 1) as usize)
    } else {
        selected(s, cols, n - 1)
    }
}

/// The statistic of row `i`.
pub fn stat_of_row(i: usize) -> (r: Stat)
    requires
        i < STAT_COUNT,
    ensures
        r == stat_at(i as int),
{
    if i == 0 {
        Stat::Count
    } else if i == 1 {
        Stat::NullCount
    } else if i == 2 {
        Stat::Mean
    } else if i == 3 {
        Stat::Std
    } else if i == 4 {
        Stat::Min
    } else if i == 5 {
        Stat::Max
    } else {
        Stat::Median
    }
}

impl Stat {
    /// The label of this statistic in the report.
    pub fn label(self) -> (r: &'static str)
        ensures
            r@ == stat_label(self),
    {
        match self {
            Stat::Count => "count",
            Stat::NullCount => "null_count",
            Stat::Mean => "mean",
            Stat::Std => "std",
            Stat::Min => "min",
            Stat::Max => "max",
            Stat::Median => "median",
        }
    }

    /// Whether this statistic aggregates a column of kind `k`.
    pub fn applies_to(self, k: ColumnKind) -> (r: bool)
        ensures
            r == applies(self, k),
    {
        match self {
            Stat::Count | Stat::NullCount => true,
            Stat::Mean | Stat::Std | Stat::Median => k == ColumnKind::Numeric,
            Stat::Min | Stat::Max => k != ColumnKind::Boolean && k != ColumnKind::Binary,
        }
    }
}

/// The label column: one label per row, in row order.
pub fn label_column() -> (r: Vec<String>)
    ensures
        r.len() == STAT_COUNT,
        forall|i: int| 0 <= i < STAT_COUNT ==> #[trigger] r[i]@ == stat_label(stat_at(i)),
{
    let mut r: Vec<String> = Vec::new();
    let mut i: usize = 0;
    while i < STAT_COUNT
        invariant
            i <= STAT_COUNT,
            r.len() == i,
            forall|j: int| 0 <= j < i ==> #[trigger] r[j]@ == stat_label(stat_at(j)),
        decreases STAT_COUNT - i,
    {
        r.push(String::from_str(stat_of_row(i).label()));
        i = i + 1;
    }
    r
}

/// The declared report type for a column of kind `k`.
pub fn report_type(k: ColumnKind) -> (r: ReportType)
    ensures
        r == report_type_of(k),
{
    if k == ColumnKind::Numeric {
        ReportType::Float64
    } else {
        ReportType::Utf8
    }
}

/// The schema of the report: the label column, then one column per column
/// of the table, in the same order, float for numeric columns and text for
/// the others.
pub fn report_schema(cols: &Vec<Column>) -> (r: Vec<ReportField>)
    ensures
        r.len() == cols.len() + 1,
        r[0].name@ == LABEL_COLUMN@,
        r[0].data_type == ReportType::Utf8,
        !r[0].nullable,
        forall|j: int|
            0 <= j < cols.len() ==> {
                &&& (#[trigger] r[j + 1]).name@ == cols[j].name@
                &&& r[j + 1].data_type == report_type_of(cols[j].kind)
                &&& r[j + 1].nullable
            },
{
    let mut r: Vec<ReportField> = Vec::new();
    r.push(
        ReportField {
            name: String::from_str(LABEL_COLUMN),
            data_type: ReportType::Utf8,
            nullable: false,
        },
    );
    let mut j: usize = 0;
    while j < cols.len()
        invariant
            j <= cols.len(),
            r.len() == j + 1,
            r[0].name@ == LABEL_COLUMN@,
            r[0].data_type == ReportType::Utf8,
            !r[0].nullable,
            forall|k: int|
                0 <= k < j ==> {
                    &&& (#[trigger] r[k + 1]).name@ == cols[k].name@
                    &&& r[k + 1].data_type == report_type_of(cols[k].kind)
                    &&& r[k + 1].nullable
                },
        decreases cols.len() - j,
    {
        let c = &cols[j];
        r.push(ReportField { name: c.name.clone(), data_type: report_type(c.kind), nullable: true });
        j = j + 1;
    }
    r
}

/// The positions of the columns that `s` aggregates, in table order; `None`
/// where there are none, so that the row is written with placeholders and
/// the engine is not asked.
pub fn plan_stat(s: Stat, cols: &Vec<Column>) -> (r: Option<Vec<usize>>)
    ensures
        match r {
            None => selected(s, cols@, cols.len() as int).len() == 0,
            Some(v) => v@ == selected(s, cols@, cols.len() as int) && v.len() > 0,
        },
{
    let mut v: Vec<usize> = Vec::new();
    let mut j: usize = 0;
    while j < cols.len()
        invariant
            j <= cols.len(),
            v@ == selected(s, cols@, j as int),
        decreases cols.len() - j,
    {
        if s.applies_to(cols[j].kind) {
            v.push(j);
        }
        j = j + 1;
    }
    if v.len() == 0 {
        None
    } else {
        Some(v)
    }
}

/// What one aggregation produced.
#[derive(Clone, Debug)]
pub enum AggOutcome {
    /// Nothing was aggregated: the row holds placeholders.
    Skipped,
    /// The aggregation failed with this message.
    Failed(String),
    /// The aggregation ran: the number of result batches, and the names of
    /// the columns of its result.
    Rows { batches: usize, columns: Vec<String> },
}

/// A cell of a report column.
#[derive(Clone, Copy, Debug, PartialEq, Eq, Structural)]
pub enum Cell {
    /// The row's statistic of this column, as computed by the engine and cast
    /// to the column's report type.
    Value,
    /// The placeholder text.
    Placeholder,
}

pub open spec fn has_name(columns: Seq<String>, name: Seq<char>) -> bool {
    exists|k: int| 0 <= k < columns.len() && #[trigger] columns[k]@ == name
}

/// The cell of the column named `name` in the row of outcome `o`: a value
/// where the aggregation gave exactly one batch holding that column.
pub open spec fn cell_of(o: AggOutcome, name: Seq<char>) -> Cell {
    match o {
        AggOutcome::Rows { batches, columns } => if batches == 1 && has_name(columns@, name) {
            Cell::Value
        } else {
            Cell::Placeholder
        },
        _ => Cell::Placeholder,
    }
}

/// The message of the first failed aggregation, in row order.
pub open spec fn first_failure(outcomes: Seq<AggOutcome>) -> Option<Seq<char>>
    decreases outcomes.len(),
{
    if outcomes.len() == 0 {
        None
    } else {
        match outcomes[0] {
            AggOutcome::Failed(m) => Some(m@),
            _ => first_failure(outcomes.drop_first()),
        }
    }
}

/// The outcome of an aggregation that the engine refused with `message`:
/// an aggregation with nothing to aggregate yields placeholders, any other
/// failure is kept.
pub fn outcome_of_error(message: String) -> (r: AggOutcome)
    ensures
        contains_seq(message@, EMPTY_AGGREGATE@) ==> r is Skipped,
        !contains_seq(message@, EMPTY_AGGREGATE@) ==> r == AggOutcome::Failed(message),
{
    if contains_text(message.as_str(), EMPTY_AGGREGATE) {
        AggOutcome::Skipped
    } else {
        AggOutcome::Failed(message)
    }
}

fn names_contain(columns: &Vec<String>, name: &String) -> (r: bool)
    ensures
        r == has_name(columns@, name@),
{
    let mut k: usize = 0;
    while k < columns.len()
        invariant
            k <= columns.len(),
            forall|i: int| 0 <= i < k ==> #[trigger] columns@[i]@ != name@,
        decreases columns.len() - k,
    {
        if columns[k] == *name {
            return true;
        }
        k = k + 1;
    }
    false
}

/// The cell of the column named `name` in the row of outcome `o`.
pub fn cell(o: &AggOutcome, name: &String) -> (r: Cell)
    ensures
        r == cell_of(*o, name@),
{
    match o {
        AggOutcome::Rows { batches, columns } => {
            if *batches == 1 && names_contain(columns, name) {
                Cell::Value
            } else {
                Cell::Placeholder
            }
        },
        _ => Cell::Placeholder,
    }
}

fn find_failure(outcomes: &Vec<AggOutcome>) -> (r: Option<String>)
    ensures
        match r {
            Some(m) => first_failure(outcomes@) == Some(m@),
            None => first_failure(outcomes@) is None,
        },
{
    let mut i: usize = 0;
    assert(outcomes@.subrange(0, outcomes.len() as int) =~= outcomes@);
    while i < outcomes.len()
        invariant
            i <= outcomes.len(),
            first_failure(outcomes@) == first_failure(outcomes@.subrange(i as int, outcomes.len() as int)),
        decreases outcomes.len() - i,
    {
        assert(outcomes@.subrange(i as int, outcomes.len() as int).drop_first() =~= outcomes@.subrange(
            i + 1,
            outcomes.len() as int,
        ));
        match &outcomes[i] {
            AggOutcome::Failed(m) => {
                return Some(m.clone());
            },
            _ => {},
        }
        i = i + 1;
    }
    None
}

/// The cells of every report column but the label column: for each column
/// of the table, in order, one cell per row. The first failed aggregation
/// aborts the report with its message.
pub fn report_layout(cols: &Vec<Column>, outcomes: &Vec<AggOutcome>) -> (r: Result<Vec<Vec<Cell>>, String>)
    requires
        outcomes.len() == STAT_COUNT,
    ensures
        match r {
            Err(m) => first_failure(outcomes@) == Some(m@),
            Ok(t) => {
                &&& first_failure(outcomes@) is None
                &&& t.len() == cols.len()
                &&& forall|j: int|
                    0 <= j < cols.len() ==> (#[trigger] t[j]).len() == STAT_COUNT
                        && forall|i: int|
                        0 <= i < STAT_COUNT ==> #[trigger] t[j][i] == cell_of(outcomes[i], cols[j].name@)
            },
        },
{
    if let Some(m) = find_failure(outcomes) {
        return Err(m);
    }
    let mut t: Vec<Vec<Cell>> = Vec::new();
    let mut j: usize = 0;
    while j < cols.len()
        invariant
            j <= cols.len(),
            outcomes.len() == STAT_COUNT,
            t.len() == j,
            forall|a: int|
                0 <= a < j ==> (#[trigger] t[a]).len() == STAT_COUNT && forall|i: int|
                    0 <= i < STAT_COUNT ==> #[trigger] t[a][i] == cell_of(outcomes[i], cols[a].name@),
        decreases cols.len() - j,
    {
        let mut cells: Vec<Cell> = Vec::new();
        let mut i: usize = 0;
        while i < STAT_COUNT
            invariant
                i <= STAT_COUNT,
                j < cols.len(),
                outcomes.len() == STAT_COUNT,
                cells.len() == i,
                forall|b: int| 0 <= b < i ==> #[trigger] cells[b] == cell_of(outcomes[b], cols[j as int].name@),
            decreases STAT_COUNT - i,
        {
            cells.push(cell(&outcomes[i], &cols[j].name));
            i = i + 1;
        }
        t.push(cells);
        j = j + 1;
    }
    Ok(t)
}

/// Whether `o` is what an engine that carries out the plan of `s` hands
/// back: no outcome where the plan is empty, else one batch whose columns
/// are exactly the planned ones.
pub open spec fn faithful_outcome(s: Stat, cols: Seq<Column>, o: AggOutcome) -> bool {
    if selected(s, cols, cols.len() as int).len() == 0 {
        o is Skipped
    } else {
        &&& o matches AggOutcome::Rows { batches, columns }
        &&& batches == 1
        &&& forall|j: int|
            0 <= j < cols.len() ==> (has_name(columns@, #[trigger] cols[j].name@) <==> applies(
                s,
                cols[j].kind,
            ))
    }
}

/// One faithful outcome per row.
pub open spec fn faithful(cols: Seq<Column>, outcomes: Seq<AggOutcome>) -> bool {
    &&& outcomes.len() == STAT_COUNT
    &&& forall|i: int| 0 <= i < STAT_COUNT ==> faithful_outcome(stat_at(i), cols, #[trigger] outcomes[i])
}

proof fn lemma_selected_empty(s: Stat, cols: Seq<Column>, n: int)
    requires
        0 <= n <= cols.len(),
    ensures
        selected(s, cols, n).len() == 0 <==> forall|j: int| 0 <= j < n ==> !applies(s, #[trigger] cols[j].kind),
    decreases n,
{
    if n > 0 {
        lemma_selected_empty(s, cols, n - 1);
        if selected(s, cols, n).len() == 0 {
            assert forall|j: int| 0 <= j < n implies !applies(s, #[trigger] cols[j].kind) by {
                if j < n - 1 {
                } else {
                }
            }
        }
    }
}

proof fn lemma_no_failure(outcomes: Seq<AggOutcome>)
    requires
        forall|i: int| 0 <= i < outcomes.len() ==> !(#[trigger] outcomes[i] is Failed),
    ensures
        first_failure(outcomes) is None,
    decreases outcomes.len(),
{
    if outcomes.len() > 0 {
        assert(!(outcomes[0] is Failed));
        assert forall|i: int| 0 <= i < outcomes.drop_first().len() implies !(
        #[trigger] outcomes.drop_first()[i] is Failed) by {
            assert(outcomes.drop_first()[i] == outcomes[i + 1]);
        }
        lemma_no_failure(outcomes.drop_first());
    }
}

/// Whatever the column types, when every planned aggregation runs the report
/// is made, and each column's cell in the row of a statistic is that
/// statistic's value exactly where the statistic applies to the column's
/// type, the placeholder elsewhere. Rows keep the fixed order of `stat_at`,
/// so counts are given for every column, also of a table without rows.
pub proof fn lemma_report_cells(cols: Seq<Column>, outcomes: Seq<AggOutcome>)
    requires
        faithful(cols, outcomes),
    ensures
        first_failure(outcomes) is None,
        forall|j: int, i: int|
            0 <= j < cols.len() && 0 <= i < STAT_COUNT ==> #[trigger] cell_of(
                outcomes[i],
                cols[j].name@,
            ) == (if applies(stat_at(i), cols[j].kind) {
                Cell::Value
            } else {
                Cell::Placeholder
            }),
{
    assert forall|i: int| 0 <= i < outcomes.len() implies !(#[trigger] outcomes[i] is Failed) by {
        assert(faithful_outcome(stat_at(i), cols, outcomes[i]));
    }
    lemma_no_failure(outcomes);
    assert forall|j: int, i: int| 0 <= j < cols.len() && 0 <= i < STAT_COUNT implies #[trigger] cell_of(
        outcomes[i],
        cols[j].name@,
    ) == (if applies(stat_at(i), cols[j].kind) {
        Cell::Value
    } else {
        Cell::Placeholder
    }) by {
        assert(faithful_outcome(stat_at(i), cols, outcomes[i]));
        lemma_selected_empty(stat_at(i), cols, cols.len() as int);
    }
}

/// A table whose columns are all boolean or binary gets text report columns
/// whose `count` and `null_count` cells are values and whose other cells are
/// all placeholders.
pub proof fn lemma_flag_columns_only(cols: Seq<Column>, outcomes: Seq<AggOutcome>)
    requires
        faithful(cols, outcomes),
        forall|j: int|
            0 <= j < cols.len() ==> (#[trigger] cols[j].kind == ColumnKind::Boolean || cols[j].kind
                == ColumnKind::Binary),
    ensures
        first_failure(outcomes) is None,
        forall|j: int| 0 <= j < cols.len() ==> report_type_of(#[trigger] cols[j].kind) == ReportType::Utf8,
        forall|j: int, i: int|
            0 <= j < cols.len() && 0 <= i < STAT_COUNT ==> #[trigger] cell_of(
                outcomes[i],
                cols[j].name@,
            ) == (if i < 2 {
                Cell::Value
            } else {
                Cell::Placeholder
            }),
{
    lemma_report_cells(cols, outcomes);
    assert forall|j: int, i: int| 0 <= j < cols.len() && 0 <= i < STAT_COUNT implies #[trigger] cell_of(
        outcomes[i],
        cols[j].name@,
    ) == (if i < 2 {
        Cell::Value
    } else {
        Cell::Placeholder
    }) by {
        assert(cols[j].kind == ColumnKind::Boolean || cols[j].kind == ColumnKind::Binary);
    }
}

} // verus!
