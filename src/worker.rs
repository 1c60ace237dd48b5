//! The decisions of the backend worker, as a state machine.
//!
//! The worker owns the query engine. It waits for the next command on the
//! dispatch queue, runs that one command to completion, hands its reply to
//! the command's reply slot, and only then waits again. The driver that owns
//! the queue and the engine feeds each outcome back as an event and carries
//! out the returned action.
use vstd::prelude::*;
use vstd::string::*;

use crate::command::{error_reply, error_text, route, success_text, EngineOp, OpModel, ReplCommand};

verus! {

/// What the driver reports when a reply could not be handed over.
pub const LOST_REPLY: &'static str = "reply dropped: the caller stopped waiting";

/// The life cycle of the worker.
#[derive(Clone, Copy, Debug, PartialEq, Eq, Structural)]
pub enum Phase {
    /// Not yet running.
    Starting,
    /// Waiting for the next command.
    Ready,
    /// One command is running in the engine.
    Processing,
    /// A reply is being handed to its slot.
    Replying,
    /// The queue is closed; the worker has ended.
    Stopped,
}

/// What happened since the last action.
pub enum WorkerEvent {
    /// The worker is up and owns its engine.
    Started,
    /// A command came off the dispatch queue.
    Received(ReplCommand),
    /// Every sender of the dispatch queue is gone.
    Closed,
    /// The engine finished the running command with a text or an error message.
    Executed(Result<String, String>),
    /// The reply was handed over (`true`) or its receiver was gone (`false`).
    Delivered(bool),
}

/// What the driver does next.
#[derive(Debug)]
pub enum WorkerAction {
    /// Wait for the next command on the queue.
    Receive,
    /// Run this operation in the engine, then report `Executed`.
    Execute(EngineOp),
    /// Send this text into the reply slot, then report `Delivered`.
    Deliver(String),
    /// Write this line to the diagnostic stream, then wait for the next command.
    Report(String),
    /// Leave the loop.
    Exit,
    /// The event does not fit the phase; nothing to do.
    Ignore,
}

/// What a `WorkerAction` holds, as character sequences.
pub enum ActionModel {
    Receive,
    Execute(OpModel),
    Deliver(Seq<char>),
    Report(Seq<char>),
    Exit,
    Ignore,
}

impl View for WorkerAction {
    type V = ActionModel;

    open spec fn view(&self) -> ActionModel {
        match self {
            WorkerAction::Receive => ActionModel::Receive,
            WorkerAction::Execute(op) => ActionModel::Execute(op@),
            WorkerAction::Deliver(t) => ActionModel::Deliver(t@),
            WorkerAction::Report(t) => ActionModel::Report(t@),
            WorkerAction::Exit => ActionModel::Exit,
            WorkerAction::Ignore => ActionModel::Ignore,
        }
    }
}

/// The worker's state: its phase, the running command, every command taken
/// off the queue and every command finished, each in the order it happened.
pub struct WorkerModel {
    pub phase: Phase,
    pub current: Option<ReplCommand>,
    pub arrived: Seq<ReplCommand>,
    pub completed: Seq<ReplCommand>,
}

pub open spec fn initial() -> WorkerModel {
    WorkerModel {
        phase: Phase::Starting,
        current: None,
        arrived: Seq::empty(),
        completed: Seq::empty(),
    }
}

pub open spec fn with_phase(m: WorkerModel, phase: Phase) -> WorkerModel {
    WorkerModel { phase, current: m.current, arrived: m.arrived, completed: m.completed }
}

/// The state after `ev`.
pub open spec fn next_state(m: WorkerModel, ev: WorkerEvent) -> WorkerModel {
    match ev {
        WorkerEvent::Started => if m.phase == Phase::Starting {
            with_phase(m, Phase::Ready)
        } else {
            m
        },
        WorkerEvent::Received(cmd) => if m.phase != Phase::Ready {
            m
        } else if route(cmd) is Unsupported {
            WorkerModel {
                phase: Phase::Replying,
                current: None,
                arrived: m.arrived.push(cmd),
                completed: m.completed.push(cmd),
            }
        } else {
            WorkerModel {
                phase: Phase::Processing,
                current: Some(cmd),
                arrived: m.arrived.push(cmd),
                completed: m.completed,
            }
        },
        WorkerEvent::Closed => if m.phase == Phase::Ready {
            with_phase(m, Phase::Stopped)
        } else {
            m
        },
        WorkerEvent::Executed(_) => if m.phase == Phase::Processing && m.current is Some {
            WorkerModel {
                phase: Phase::Replying,
                current: None,
                arrived: m.arrived,
                completed: m.completed.push(m.current->0),
            }
        } else {
            m
        },
        WorkerEvent::Delivered(_) => if m.phase == Phase::Replying {
            with_phase(m, Phase::Ready)
        } else {
            m
        },
    }
}

/// The action that answers `ev`.
pub open spec fn next_action(m: WorkerModel, ev: WorkerEvent) -> ActionModel {
    match ev {
        WorkerEvent::Started => if m.phase == Phase::Starting {
            ActionModel::Receive
        } else {
            ActionModel::Ignore
        },
        WorkerEvent::Received(cmd) => if m.phase != Phase::Ready {
            ActionModel::Ignore
        } else {
            match route(cmd) {
                OpModel::Unsupported(msg) => ActionModel::Deliver(error_text(msg)),
                op => ActionModel::Execute(op),
            }
        },
        WorkerEvent::Closed => if m.phase == Phase::Ready {
            ActionModel::Exit
        } else {
            ActionModel::Ignore
        },
        WorkerEvent::Executed(res) => if m.phase == Phase::Processing && m.current is Some {
            match res {
                Ok(out) => ActionModel::Deliver(success_text(m.current->0, out@)),
                Err(e) => ActionModel::Deliver(error_text(e@)),
            }
        } else {
            ActionModel::Ignore
        },
        WorkerEvent::Delivered(ok) => if m.phase != Phase::Replying {
            ActionModel::Ignore
        } else if ok {
            ActionModel::Receive
        } else {
            ActionModel::Report(LOST_REPLY@)
        },
    }
}

/// The state after a sequence of events, from the start.
pub open spec fn run(evs: Seq<WorkerEvent>) -> WorkerModel
    decreases evs.len(),
{
    if evs.len() == 0 {
        initial()
    } else {
        next_state(run(evs.drop_last()), evs.last())
    }
}

/// What holds of every state the worker can reach.
pub open spec fn consistent(m: WorkerModel) -> bool {
    &&& m.completed.len() <= m.arrived.len()
    &&& m.completed == m.arrived.subrange(0, m.completed.len() as int)
    &&& m.phase == Phase::Processing ==> m.arrived.len() == m.completed.len() + 1 && m.current
        == Some(m.arrived.last())
    &&& m.phase != Phase::Processing ==> m.arrived.len() == m.completed.len() && m.current is None
}

proof fn lemma_step_consistent(m: WorkerModel, ev: WorkerEvent)
    requires
        consistent(m),
    ensures
        consistent(next_state(m, ev)),
{
    let n = next_state(m, ev);
    match ev {
        WorkerEvent::Received(cmd) => {
            if m.phase == Phase::Ready {
                assert(n.arrived.subrange(0, m.completed.len() as int) =~= m.completed);
                assert(n.arrived.subrange(0, n.completed.len() as int) =~= n.completed);
            }
        },
        WorkerEvent::Executed(_) => {
            if m.phase == Phase::Processing && m.current is Some {
                assert(n.arrived.subrange(0, n.completed.len() as int) =~= n.completed);
            }
        },
        _ => {},
    }
}

proof fn lemma_run_consistent(evs: Seq<WorkerEvent>)
    ensures
        consistent(run(evs)),
    decreases evs.len(),
{
    if evs.len() == 0 {
        assert(initial().arrived.subrange(0, 0) =~= initial().completed);
    } else {
        lemma_run_consistent(evs.drop_last());
        lemma_step_consistent(run(evs.drop_last()), evs.last());
    }
}

/// Commands finish in the order in which they came off the queue: whatever
/// the events, the finished commands are the first commands received, in
/// the same order.
pub proof fn lemma_completion_in_arrival_order(evs: Seq<WorkerEvent>)
    ensures
        run(evs).completed.len() <= run(evs).arrived.len(),
        forall|i: int|
            0 <= i < run(evs).completed.len() ==> #[trigger] run(evs).completed[i]
                == run(evs).arrived[i],
{
    lemma_run_consistent(evs);
    let m = run(evs);
    assert forall|i: int| 0 <= i < m.completed.len() implies #[trigger] m.completed[i]
        == m.arrived[i] by {
        assert(m.completed[i] == m.arrived.subrange(0, m.completed.len() as int)[i]);
    }
}

/// At most one command is ever running: at most one received command is
/// unfinished, and the worker starts a command in the engine only when no
/// other is unfinished.
pub proof fn lemma_single_active_command(evs: Seq<WorkerEvent>, ev: WorkerEvent)
    ensures
        run(evs).arrived.len() <= run(evs).completed.len() + 1,
        next_action(run(evs), ev) is Execute ==> run(evs).arrived.len()
            == run(evs).completed.len(),
        next_action(run(evs), ev) is Execute ==> next_state(run(evs), ev).arrived.len()
            == next_state(run(evs), ev).completed.len() + 1,
{
    lemma_run_consistent(evs);
}

/// A failing command is answered like any other: its error text goes to its
/// reply slot, and once that hand-over is done, whether or not the caller
/// still waits, the worker takes the next command as usual.
pub proof fn lemma_failure_keeps_worker(
    evs: Seq<WorkerEvent>,
    message: String,
    delivered: bool,
    cmd: ReplCommand,
)
    requires
        run(evs).phase == Phase::Processing,
    ensures
        ({
            let m1 = next_state(run(evs), WorkerEvent::Executed(Err(message)));
            let m2 = next_state(m1, WorkerEvent::Delivered(delivered));
            &&& next_action(run(evs), WorkerEvent::Executed(Err(message)))
                == ActionModel::Deliver(error_text(message@))
            &&& m2.phase == Phase::Ready
            &&& m2.arrived.len() == m2.completed.len()
            &&& next_action(m2, WorkerEvent::Received(cmd)) == (match route(cmd) {
                OpModel::Unsupported(msg) => ActionModel::Deliver(error_text(msg)),
                op => ActionModel::Execute(op),
            })
        }),
{
    lemma_run_consistent(evs);
}

/// A caller that stopped waiting costs the worker nothing: the lost reply is
/// reported, the worker is ready again, and the next command runs as usual.
pub proof fn lemma_abandoned_reply(evs: Seq<WorkerEvent>, cmd: ReplCommand)
    requires
        run(evs).phase == Phase::Replying,
    ensures
        ({
            let m1 = next_state(run(evs), WorkerEvent::Delivered(false));
            &&& next_action(run(evs), WorkerEvent::Delivered(false)) == ActionModel::Report(
                LOST_REPLY@,
            )
            &&& m1.phase == Phase::Ready
            &&& next_action(m1, WorkerEvent::Received(cmd)) == (match route(cmd) {
                OpModel::Unsupported(msg) => ActionModel::Deliver(error_text(msg)),
                op => ActionModel::Execute(op),
            })
        }),
{
}

/// The backend worker's state machine.
pub struct Worker {
    phase: Phase,
    current: Option<ReplCommand>,
    arrived: Ghost<Seq<ReplCommand>>,
    completed: Ghost<Seq<ReplCommand>>,
}

impl View for Worker {
    type V = WorkerModel;

    closed spec fn view(&self) -> WorkerModel {
        WorkerModel {
            phase: self.phase,
            current: self.current,
            arrived: self.arrived@,
            completed: self.completed@,
        }
    }
}

impl Worker {
    /// A worker that has not started yet.
    pub fn new() -> (r: Worker)
        ensures
            r@ == initial(),
    {
        Worker {
            phase: Phase::Starting,
            current: None,
            arrived: Ghost(Seq::empty()),
            completed: Ghost(Seq::empty()),
        }
    }

    /// The current phase.
    pub fn phase(&self) -> (r: Phase)
        ensures
            r == self@.phase,
    {
        self.phase
    }

    /// Takes one event and returns what to do next.
    pub fn step(&mut self, ev: WorkerEvent) -> (a: WorkerAction)
        ensures
            final(self)@ == next_state(old(self)@, ev),
            a@ == next_action(old(self)@, ev),
    {
        match ev {
            WorkerEvent::Started => {
                if self.phase == Phase::Starting {
                    self.phase = Phase::Ready;
                    WorkerAction::Receive
                } else {
                    WorkerAction::Ignore
                }
            },
            WorkerEvent::Received(cmd) => {
                if self.phase != Phase::Ready {
                    return WorkerAction::Ignore;
                }
                let op = cmd.engine_op();
                self.arrived = Ghost(self.arrived@.push(cmd));
                match op {
                    EngineOp::Unsupported(msg) => {
                        self.completed = Ghost(self.completed@.push(cmd));
                        self.current = None;
                        self.phase = Phase::Replying;
                        WorkerAction::Deliver(error_reply(&msg))
                    },
                    op => {
                        self.current = Some(cmd);
                        self.phase = Phase::Processing;
                        WorkerAction::Execute(op)
                    },
                }
            },
            WorkerEvent::Closed => {
                if self.phase == Phase::Ready {
                    self.phase = Phase::Stopped;
                    WorkerAction::Exit
                } else {
                    WorkerAction::Ignore
                }
            },
            WorkerEvent::Executed(res) => {
                if self.phase != Phase::Processing {
                    return WorkerAction::Ignore;
                }
                match self.current.take() {
                    Some(c) => {
                        let text = match res {
                            Ok(out) => c.success_reply(out),
                            Err(e) => error_reply(&e),
                        };
                        self.completed = Ghost(self.completed@.push(c));
                        self.phase = Phase::Replying;
                        WorkerAction::Deliver(text)
                    },
                    None => WorkerAction::Ignore,
                }
            },
            WorkerEvent::Delivered(ok) => {
                if self.phase != Phase::Replying {
                    WorkerAction::Ignore
                } else {
                    self.phase = Phase::Ready;
                    if ok {
                        WorkerAction::Receive
                    } else {
                        WorkerAction::Report(String::from_str(LOST_REPLY))
                    }
                }
            },
        }
    }
}

} // verus!
