//! The commands a user can submit, and how each one maps to exactly one
//! operation of the query engine.
use vstd::prelude::*;
use vstd::string::*;

use crate::conn::{ConnModel, DatasetConn, FileOpts};
use crate::text::{append_decimal, decimal};

verus! {

/// Rows shown by `head` when no count is given.
pub const DEFAULT_HEAD_ROWS: usize = 5;

/// The catalog query behind `list`.
pub const LIST_QUERY: &'static str = "SELECT t.table_name, t.table_type FROM information_schema.tables t WHERE t.table_schema = 'public'";

/// The notice with which a Postgres source is turned down.
pub const POSTGRES_NOTICE: &'static str = "Postgres connection is not supported yet";

/// Registers a dataset under `name`.
#[derive(Clone, Debug)]
pub struct ConnectOpts {
    pub conn: DatasetConn,
    pub table: Option<String>,
    pub name: String,
}

/// Lists the registered datasets.
#[derive(Clone, Debug)]
pub struct ListOpts {}

/// Shows the columns of a dataset.
#[derive(Clone, Debug)]
pub struct SchemaOpts {
    pub name: String,
}

/// Shows the statistics report of a dataset.
#[derive(Clone, Debug)]
pub struct DescribeOpts {
    pub name: String,
}

/// Shows the first rows of a dataset.
#[derive(Clone, Debug)]
pub struct HeadOpts {
    pub name: String,
    pub n: Option<usize>,
}

/// Runs a SQL query as given.
#[derive(Clone, Debug)]
pub struct SqlOpts {
    pub query: String,
}

/// One command of the front end, with its arguments.
#[derive(Clone, Debug)]
pub enum ReplCommand {
    Connect(ConnectOpts),
    List(ListOpts),
    Schema(SchemaOpts),
    Describe(DescribeOpts),
    Head(HeadOpts),
    Sql(SqlOpts),
}

/// The one engine operation that a command stands for.
#[derive(Debug)]
pub enum EngineOp {
    /// Register a file source under a name.
    Register { name: String, conn: DatasetConn },
    /// A source the engine cannot read; the text says why.
    Unsupported(String),
    /// Run a query and show its result table.
    Query(String),
    /// Run a query and show the statistics report of its result.
    Describe(String),
}

/// What an `EngineOp` holds, as character sequences.
pub enum OpModel {
    Register { name: Seq<char>, conn: ConnModel },
    Unsupported(Seq<char>),
    Query(Seq<char>),
    Describe(Seq<char>),
}

impl View for EngineOp {
    type V = OpModel;

    open spec fn view(&self) -> OpModel {
        match self {
            EngineOp::Register { name, conn } => OpModel::Register { name: name@, conn: conn@ },
            EngineOp::Unsupported(m) => OpModel::Unsupported(m@),
            EngineOp::Query(q) => OpModel::Query(q@),
            EngineOp::Describe(q) => OpModel::Describe(q@),
        }
    }
}

pub open spec fn head_count(n: Option<usize>) -> nat {
    match n {
        Some(k) => k as nat,
        None => DEFAULT_HEAD_ROWS as nat,
    }
}

/// The engine operation of each command.
pub open spec fn route(cmd: ReplCommand) -> OpModel {
    match cmd {
        ReplCommand::Connect(o) => match o.conn {
            DatasetConn::Postgres(_) => OpModel::Unsupported(POSTGRES_NOTICE@),
            _ => OpModel::Register { name: o.name@, conn: o.conn@ },
        },
        ReplCommand::List(_) => OpModel::Query(LIST_QUERY@),
        ReplCommand::Schema(o) => OpModel::Query("DESCRIBE "@ + o.name@),
        ReplCommand::Describe(o) => OpModel::Describe("SELECT * FROM "@ + o.name@),
        ReplCommand::Head(o) => OpModel::Query(
            "SELECT * FROM "@ + o.name@ + " LIMIT "@ + decimal(head_count(o.n)),
        ),
        ReplCommand::Sql(o) => OpModel::Query(o.query@),
    }
}

/// The reply to a command whose engine operation produced `output`.
pub open spec fn success_text(cmd: ReplCommand, output: Seq<char>) -> Seq<char> {
    match cmd {
        ReplCommand::Connect(o) => "Connected to dataset: "@ + o.name@,
        _ => output,
    }
}

/// The reply to a command that failed with `message`.
pub open spec fn error_text(message: Seq<char>) -> Seq<char> {
    "Error: "@ + message
}

/// The number of rows that `head` shows.
pub fn head_rows(n: Option<usize>) -> (r: usize)
    ensures
        r == head_count(n),
{
    match n {
        Some(k) => k,
        None => DEFAULT_HEAD_ROWS,
    }
}

fn copy_string(s: &String) -> (r: String)
    ensures
        r@ == s@,
{
    s.clone()
}

fn copy_file_opts(f: &FileOpts) -> (r: FileOpts)
    ensures
        r.filename@ == f.filename@,
        r.ext@ == f.ext@,
        r.compression == f.compression,
{
    FileOpts { filename: copy_string(&f.filename), ext: copy_string(&f.ext), compression: f.compression }
}

/// A copy of a connection, with the same view.
pub fn copy_conn(c: &DatasetConn) -> (r: DatasetConn)
    ensures
        r@ == c@,
{
    match c {
        DatasetConn::Postgres(u) => DatasetConn::Postgres(copy_string(u)),
        DatasetConn::Csv(f) => DatasetConn::Csv(copy_file_opts(f)),
        DatasetConn::Parquet(p) => DatasetConn::Parquet(copy_string(p)),
        DatasetConn::NdJson(f) => DatasetConn::NdJson(copy_file_opts(f)),
    }
}

/// `prefix` followed by `s`.
fn joined(prefix: &str, s: &String) -> (r: String)
    ensures
        r@ == prefix@ + s@,
{
    let mut r = String::from_str(prefix);
    r.append(s.as_str());
    r
}

impl ReplCommand {
    /// The engine operation that carries out this command.
    pub fn engine_op(&self) -> (r: EngineOp)
        ensures
            r@ == route(*self),
    {
        match self {
            ReplCommand::Connect(o) => match &o.conn {
                DatasetConn::Postgres(_) => EngineOp::Unsupported(String::from_str(POSTGRES_NOTICE)),
                _ => EngineOp::Register { name: copy_string(&o.name), conn: copy_conn(&o.conn) },
            },
            ReplCommand::List(_) => EngineOp::Query(String::from_str(LIST_QUERY)),
            ReplCommand::Schema(o) => EngineOp::Query(joined("DESCRIBE ", &o.name)),
            ReplCommand::Describe(o) => EngineOp::Describe(joined("SELECT * FROM ", &o.name)),
            ReplCommand::Head(o) => {
                let mut q = joined("SELECT * FROM ", &o.name);
                q.append(" LIMIT ");
                append_decimal(&mut q, head_rows(o.n));
                EngineOp::Query(q)
            },
            ReplCommand::Sql(o) => EngineOp::Query(copy_string(&o.query)),
        }
    }

    /// The reply to this command once its engine operation produced `output`.
    pub fn success_reply(&self, output: String) -> (r: String)
        ensures
            r@ == success_text(*self, output@),
    {
        match self {
            ReplCommand::Connect(o) => joined("Connected to dataset: ", &o.name),
            _ => output,
        }
    }
}

/// The reply to a command that failed with `message`.
pub fn error_reply(message: &String) -> (r: String)
    ensures
        r@ == error_text(message@),
{
    joined("Error: ", message)
}

} // verus!
