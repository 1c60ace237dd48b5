//! Connection strings: a Postgres URI, or a file name whose trailing
//! dot-separated segments give its format and, optionally, its compression.
use vstd::prelude::*;
use vstd::string::*;

use crate::text::{chars_of, region_is};

verus! {

/// How a data file is compressed.
#[derive(Clone, Copy, Debug, PartialEq, Eq, Structural)]
pub enum Compression {
    Uncompressed,
    Gzip,
    Bzip2,
    Xz,
    Zstd,
}

/// A file source: its name, its format extension and its compression.
#[derive(Clone, Debug)]
pub struct FileOpts {
    pub filename: String,
    pub ext: String,
    pub compression: Compression,
}

/// Where a dataset is read from.
#[derive(Clone, Debug)]
pub enum DatasetConn {
    Postgres(String),
    Csv(FileOpts),
    Parquet(String),
    NdJson(FileOpts),
}

/// What a `DatasetConn` holds, as character sequences.
pub enum ConnModel {
    Postgres(Seq<char>),
    Csv { filename: Seq<char>, ext: Seq<char>, compression: Compression },
    Parquet(Seq<char>),
    NdJson { filename: Seq<char>, ext: Seq<char>, compression: Compression },
}

impl View for DatasetConn {
    type V = ConnModel;

    open spec fn view(&self) -> ConnModel {
        match self {
            DatasetConn::Postgres(u) => ConnModel::Postgres(u@),
            DatasetConn::Csv(f) => ConnModel::Csv {
                filename: f.filename@,
                ext: f.ext@,
                compression: f.compression,
            },
            DatasetConn::Parquet(p) => ConnModel::Parquet(p@),
            DatasetConn::NdJson(f) => ConnModel::NdJson {
                filename: f.filename@,
                ext: f.ext@,
                compression: f.compression,
            },
        }
    }
}

pub open spec fn starts_with(s: Seq<char>, p: Seq<char>) -> bool {
    p.len() <= s.len() && s.subrange(0, p.len() as int) == p
}

pub open spec fn ends_with(s: Seq<char>, p: Seq<char>) -> bool {
    p.len() <= s.len() && s.subrange(s.len() - p.len(), s.len() as int) == p
}

/// Position of the last '.' in `s`, or -1 where there is none.
pub open spec fn last_dot(s: Seq<char>) -> int
    decreases s.len(),
{
    if s.len() == 0 {
        -1
    } else if s.last() == '.' {
        s.len() - 1
    } else {
        last_dot(s.drop_last())
    }
}

/// The compression that a final segment names.
pub open spec fn compression_of(ext: Seq<char>) -> Option<Compression> {
    if ext == "gz"@ {
        Some(Compression::Gzip)
    } else if ext == "bz2"@ {
        Some(Compression::Bzip2)
    } else if ext == "xz"@ {
        Some(Compression::Xz)
    } else if ext == "zstd"@ {
        Some(Compression::Zstd)
    } else {
        None
    }
}

pub open spec fn is_json_ext(ext: Seq<char>) -> bool {
    ext == "json"@ || ext == "jsonl"@ || ext == "ndjson"@
}

/// The file source named by `s`, given its format segment `ext` and its
/// compression; an unknown format is an error.
pub open spec fn file_conn(s: Seq<char>, ext: Seq<char>, c: Compression) -> Result<ConnModel, Seq<char>> {
    if ext == "csv"@ {
        Ok(ConnModel::Csv { filename: s, ext, compression: c })
    } else if is_json_ext(ext) {
        Ok(ConnModel::NdJson { filename: s, ext, compression: c })
    } else {
        Err("Invalid file format: "@ + ext)
    }
}

/// What a connection string denotes.
pub open spec fn parse_conn(s: Seq<char>) -> Result<ConnModel, Seq<char>> {
    if starts_with(s, "postgres://"@) {
        Ok(ConnModel::Postgres(s))
    } else if ends_with(s, ".parquet"@) {
        Ok(ConnModel::Parquet(s))
    } else {
        let d1 = last_dot(s);
        if d1 < 0 {
            Err("Invalid connection string: "@ + s)
        } else {
            let ext1 = s.subrange(d1 + 1, s.len() as int);
            if ext1 == "csv"@ || is_json_ext(ext1) {
                file_conn(s, ext1, Compression::Uncompressed)
            } else {
                match compression_of(ext1) {
                    None => Err("Invalid compression type: "@ + ext1),
                    Some(c) => {
                        let d2 = last_dot(s.subrange(0, d1));
                        if d2 < 0 {
                            Err("Invalid connection string: "@ + s)
                        } else {
                            file_conn(s, s.subrange(d2 + 1, d1), c)
                        }
                    },
                }
            }
        }
    }
}

/// Position of the last '.' among the first `end` characters of `v`.
fn find_last_dot(v: &Vec<char>, end: usize) -> (r: Option<usize>)
    requires
        end <= v@.len(),
    ensures
        match r {
            Some(i) => i < end && last_dot(v@.subrange(0, end as int)) == i,
            None => last_dot(v@.subrange(0, end as int)) == -1,
        },
{
    let mut i: usize = end;
    while i > 0
        invariant
            i <= end <= v@.len(),
            last_dot(v@.subrange(0, end as int)) == last_dot(v@.subrange(0, i as int)),
        decreases i,
    {
        assert(v@.subrange(0, i as int).drop_last() =~= v@.subrange(0, i - 1));
        if v[i - 1] == '.' {
            return Some(i - 1);
        }
        i = i - 1;
    }
    None
}

fn compression_at(v: &Vec<char>, from: usize, to: usize) -> (r: Option<Compression>)
    requires
        from <= to <= v@.len(),
    ensures
        r == compression_of(v@.subrange(from as int, to as int)),
{
    if region_is(v, from, to, "gz") {
        Some(Compression::Gzip)
    } else if region_is(v, from, to, "bz2") {
        Some(Compression::Bzip2)
    } else if region_is(v, from, to, "xz") {
        Some(Compression::Xz)
    } else if region_is(v, from, to, "zstd") {
        Some(Compression::Zstd)
    } else {
        None
    }
}

fn is_json_at(v: &Vec<char>, from: usize, to: usize) -> (r: bool)
    requires
        from <= to <= v@.len(),
    ensures
        r == is_json_ext(v@.subrange(from as int, to as int)),
{
    region_is(v, from, to, "json") || region_is(v, from, to, "jsonl") || region_is(
        v,
        from,
        to,
        "ndjson",
    )
}

/// `prefix` followed by the characters of `s` from `from` up to `to`.
fn message_with(prefix: &str, s: &str, from: usize, to: usize) -> (r: String)
    requires
        from <= to <= s@.len(),
    ensures
        r@ == prefix@ + s@.subrange(from as int, to as int),
{
    let mut m = String::from_str(prefix);
    m.append(s.substring_char(from, to));
    m
}

fn file_opts(s: &str, from: usize, to: usize, compression: Compression) -> (r: FileOpts)
    requires
        from <= to <= s@.len(),
    ensures
        r.filename@ == s@,
        r.ext@ == s@.subrange(from as int, to as int),
        r.compression == compression,
{
    FileOpts {
        filename: String::from_str(s),
        ext: String::from_str(s.substring_char(from, to)),
        compression,
    }
}

/// Reads a connection string: `postgres://...` is a Postgres source; a name
/// ending in `.parquet` is a Parquet file; otherwise the last segment is a
/// format (`csv`, `json`, `jsonl`, `ndjson`) of an uncompressed file, whatever
/// stands before it, or a compression (`gz`, `bz2`, `xz`, `zstd`) preceded by
/// such a format.
pub fn verify_conn_str(s: &str) -> (r: Result<DatasetConn, String>)
    ensures
        match r {
            Ok(c) => parse_conn(s@) == Ok::<ConnModel, Seq<char>>(c@),
            Err(e) => parse_conn(s@) == Err::<ConnModel, Seq<char>>(e@),
        },
{
    let v = chars_of(s);
    let n = v.len();
    let pg_len = "postgres://".unicode_len();
    if pg_len <= n && region_is(&v, 0, pg_len, "postgres://") {
        return Ok(DatasetConn::Postgres(String::from_str(s)));
    }
    let pq_len = ".parquet".unicode_len();
    if pq_len <= n && region_is(&v, n - pq_len, n, ".parquet") {
        return Ok(DatasetConn::Parquet(String::from_str(s)));
    }
    let d1 = match find_last_dot(&v, n) {
        Some(d) => d,
        None => {
            let mut m = String::from_str("Invalid connection string: ");
            m.append(s);
            proof {
                assert(v@.subrange(0, n as int) =~= s@);
            }
            return Err(m);
        },
    };
    assert(v@.subrange(0, n as int) =~= s@);
    assert(v@.subrange(0, d1 as int) =~= s@.subrange(0, d1 as int));
    if region_is(&v, d1 + 1, n, "csv") {
        return Ok(DatasetConn::Csv(file_opts(s, d1 + 1, n, Compression::Uncompressed)));
    }
    if is_json_at(&v, d1 + 1, n) {
        return Ok(DatasetConn::NdJson(file_opts(s, d1 + 1, n, Compression::Uncompressed)));
    }
    let c = match compression_at(&v, d1 + 1, n) {
        None => return Err(message_with("Invalid compression type: ", s, d1 + 1, n)),
        Some(c) => c,
    };
    match find_last_dot(&v, d1) {
        None => {
            let mut m = String::from_str("Invalid connection string: ");
            m.append(s);
            Err(m)
        },
        Some(d2) => {
            if region_is(&v, d2 + 1, d1, "csv") {
                Ok(DatasetConn::Csv(file_opts(s, d2 + 1, d1, c)))
            } else if is_json_at(&v, d2 + 1, d1) {
                Ok(DatasetConn::NdJson(file_opts(s, d2 + 1, d1, c)))
            } else {
                Err(message_with("Invalid file format: ", s, d2 + 1, d1))
            }
        },
    }
}

} // verus!
