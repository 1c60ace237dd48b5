use data_repl::command::{
    ConnectOpts, EngineOp, HeadOpts, ListOpts, ReplCommand, SchemaOpts, SqlOpts,
};
use data_repl::conn::verify_conn_str;
use data_repl::worker::{Phase, Worker, WorkerAction, WorkerEvent, LOST_REPLY};

fn ready() -> Worker {
    let mut w = Worker::new();
    assert_eq!(w.phase(), Phase::Starting);
    assert!(matches!(w.step(WorkerEvent::Started), WorkerAction::Receive));
    assert_eq!(w.phase(), Phase::Ready);
    w
}

fn sql(q: &str) -> ReplCommand {
    ReplCommand::Sql(SqlOpts { query: q.to_string() })
}

fn executed_query(a: WorkerAction) -> String {
    match a {
        WorkerAction::Execute(EngineOp::Query(q)) => q,
        other => panic!("{:?}", other),
    }
}

fn delivered(a: WorkerAction) -> String {
    match a {
        WorkerAction::Deliver(t) => t,
        other => panic!("{:?}", other),
    }
}

#[test]
fn commands_complete_in_submission_order() {
    let mut w = ready();
    let mut replies = Vec::new();
    for q in ["select 1", "select 2", "select 3"] {
        let query = executed_query(w.step(WorkerEvent::Received(sql(q))));
        assert_eq!(query, q);
        let text = delivered(w.step(WorkerEvent::Executed(Ok(format!("result of {}", query)))));
        replies.push(text);
        assert!(matches!(w.step(WorkerEvent::Delivered(true)), WorkerAction::Receive));
    }
    assert_eq!(replies, vec!["result of select 1", "result of select 2", "result of select 3"]);
}

#[test]
fn no_second_command_while_one_runs() {
    let mut w = ready();
    executed_query(w.step(WorkerEvent::Received(sql("select 1"))));
    assert_eq!(w.phase(), Phase::Processing);
    assert!(matches!(w.step(WorkerEvent::Received(sql("select 2"))), WorkerAction::Ignore));
    assert!(matches!(w.step(WorkerEvent::Closed), WorkerAction::Ignore));
    assert_eq!(w.phase(), Phase::Processing);
    assert_eq!(delivered(w.step(WorkerEvent::Executed(Ok("one".to_string())))), "one");
    assert!(matches!(w.step(WorkerEvent::Received(sql("select 2"))), WorkerAction::Ignore));
}

#[test]
fn unknown_dataset_is_an_error_reply() {
    let mut w = ready();
    let schema = ReplCommand::Schema(SchemaOpts { name: "nonexistent".to_string() });
    assert_eq!(executed_query(w.step(WorkerEvent::Received(schema))), "DESCRIBE nonexistent");
    let text = delivered(w.step(WorkerEvent::Executed(Err(
        "Error during planning: table 'nonexistent' not found".to_string(),
    ))));
    assert_eq!(text, "Error: Error during planning: table 'nonexistent' not found");
    assert!(matches!(w.step(WorkerEvent::Delivered(true)), WorkerAction::Receive));
    let head = ReplCommand::Head(HeadOpts { name: "users".to_string(), n: Some(3) });
    assert_eq!(executed_query(w.step(WorkerEvent::Received(head))), "SELECT * FROM users LIMIT 3");
}

#[test]
fn abandoned_reply_is_reported_and_worker_goes_on() {
    let mut w = ready();
    executed_query(w.step(WorkerEvent::Received(ReplCommand::List(ListOpts {}))));
    delivered(w.step(WorkerEvent::Executed(Ok("table".to_string()))));
    match w.step(WorkerEvent::Delivered(false)) {
        WorkerAction::Report(t) => assert_eq!(t, LOST_REPLY),
        other => panic!("{:?}", other),
    }
    assert_eq!(w.phase(), Phase::Ready);
    assert_eq!(executed_query(w.step(WorkerEvent::Received(sql("select 9")))), "select 9");
}

#[test]
fn connect_replies_and_postgres_is_turned_down() {
    let mut w = ready();
    let cmd = ReplCommand::Connect(ConnectOpts {
        conn: verify_conn_str("users.csv").unwrap(),
        table: None,
        name: "users".to_string(),
    });
    assert!(matches!(
        w.step(WorkerEvent::Received(cmd)),
        WorkerAction::Execute(EngineOp::Register { .. })
    ));
    assert_eq!(
        delivered(w.step(WorkerEvent::Executed(Ok(String::new())))),
        "Connected to dataset: users"
    );
    w.step(WorkerEvent::Delivered(true));
    let pg = ReplCommand::Connect(ConnectOpts {
        conn: verify_conn_str("postgres://localhost/db").unwrap(),
        table: None,
        name: "pg".to_string(),
    });
    assert_eq!(
        delivered(w.step(WorkerEvent::Received(pg))),
        "Error: Postgres connection is not supported yet"
    );
    assert_eq!(w.phase(), Phase::Replying);
}

#[test]
fn closing_the_queue_stops_the_worker() {
    let mut w = ready();
    assert!(matches!(w.step(WorkerEvent::Closed), WorkerAction::Exit));
    assert_eq!(w.phase(), Phase::Stopped);
    assert!(matches!(w.step(WorkerEvent::Received(sql("select 1"))), WorkerAction::Ignore));
    assert!(matches!(w.step(WorkerEvent::Started), WorkerAction::Ignore));
}
