use data_repl::conn::{verify_conn_str, Compression, DatasetConn};

fn file(s: &str) -> (String, String, Compression, bool) {
    match verify_conn_str(s) {
        Ok(DatasetConn::Csv(f)) => (f.filename, f.ext, f.compression, true),
        Ok(DatasetConn::NdJson(f)) => (f.filename, f.ext, f.compression, false),
        other => panic!("not a file source: {:?}", other),
    }
}

fn error(s: &str) -> String {
    match verify_conn_str(s) {
        Err(e) => e,
        Ok(c) => panic!("accepted: {:?}", c),
    }
}

#[test]
fn plain_csv() {
    let (name, ext, c, csv) = file("data.csv");
    assert_eq!(name, "data.csv");
    assert_eq!(ext, "csv");
    assert_eq!(c, Compression::Uncompressed);
    assert!(csv);
}

#[test]
fn compressed_csv() {
    let (name, ext, c, csv) = file("data.csv.gz");
    assert_eq!(name, "data.csv.gz");
    assert_eq!(ext, "csv");
    assert_eq!(c, Compression::Gzip);
    assert!(csv);
}

#[test]
fn json_variants() {
    let (_, ext, c, csv) = file("events.ndjson.zstd");
    assert_eq!(ext, "ndjson");
    assert_eq!(c, Compression::Zstd);
    assert!(!csv);
    let (_, ext, c, _) = file("events.jsonl");
    assert_eq!(ext, "jsonl");
    assert_eq!(c, Compression::Uncompressed);
    let (_, ext, c, _) = file("dir/events.json.bz2");
    assert_eq!(ext, "json");
    assert_eq!(c, Compression::Bzip2);
    let (_, _, c, _) = file("a.csv.xz");
    assert_eq!(c, Compression::Xz);
}

#[test]
fn parquet_and_postgres() {
    match verify_conn_str("data.parquet") {
        Ok(DatasetConn::Parquet(p)) => assert_eq!(p, "data.parquet"),
        other => panic!("{:?}", other),
    }
    match verify_conn_str("postgres://user@host/db.csv") {
        Ok(DatasetConn::Postgres(u)) => assert_eq!(u, "postgres://user@host/db.csv"),
        other => panic!("{:?}", other),
    }
}

#[test]
fn rejected_strings() {
    assert_eq!(error("data"), "Invalid connection string: data");
    assert_eq!(error("data.txt"), "Invalid compression type: txt");
    assert_eq!(error("data.csv.rar"), "Invalid compression type: rar");
    assert_eq!(error("data.txt.gz"), "Invalid file format: txt");
    assert_eq!(error("data.gz"), "Invalid connection string: data.gz");
    assert_eq!(error("./data.gz"), "Invalid file format: /data");
}

#[test]
fn dots_before_the_format() {
    let (name, ext, c, csv) = file("my.data.csv");
    assert_eq!(name, "my.data.csv");
    assert_eq!(ext, "csv");
    assert_eq!(c, Compression::Uncompressed);
    assert!(csv);
    let (name, ext, c, csv) = file("./data.csv");
    assert_eq!(name, "./data.csv");
    assert_eq!(ext, "csv");
    assert_eq!(c, Compression::Uncompressed);
    assert!(csv);
    let (_, ext, c, csv) = file("a.b.csv");
    assert_eq!(ext, "csv");
    assert_eq!(c, Compression::Uncompressed);
    assert!(csv);
    let (_, ext, c, csv) = file("v1.2/events.json");
    assert_eq!(ext, "json");
    assert_eq!(c, Compression::Uncompressed);
    assert!(!csv);
    let (_, ext, c, csv) = file("./v1.2/data.csv.gz");
    assert_eq!(ext, "csv");
    assert_eq!(c, Compression::Gzip);
    assert!(csv);
}
