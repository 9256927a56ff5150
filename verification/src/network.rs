//! The decisions of the network task: a state machine that the task steps
//! through, doing the outside work that each state asks for (binding the
//! endpoint, accepting and opening connections) and reporting to the user
//! interface.
//!
//! Nodes are named by the bytes of their id.


pub mod node;
pub mod swarm;

use vstd::prelude::*;

use crate::network::node::Message;
use crate::node::Direction;

verus! {

/// A node's id: the 32 bytes of its public key.
pub type NodeId = [u8; 32];

/// The application protocol name announced on connections.
pub open spec fn alpn_spec() -> Seq<u8> {
    seq![47u8, 102, 114, 101, 101, 99, 111, 114, 100, 47, 49]
}

/// The application protocol name, `/freecord/1`.
pub fn alpn() -> (a: Vec<u8>)
    ensures
        a@ == alpn_spec(),
{
    let mut a = Vec::new();
    a.push(47u8);
    a.push(102u8);
    a.push(114u8);
    a.push(101u8);
    a.push(101u8);
    a.push(99u8);
    a.push(111u8);
    a.push(114u8);
    a.push(100u8);
    a.push(47u8);
    a.push(49u8);
    a
}

/// The state of the network task.
#[derive(Debug, Clone, Copy, PartialEq, Eq, Structural)]
pub enum Phase {
    /// No endpoint yet.
    Disconnected,
    /// The endpoint is bound and inputs are awaited.
    Connected,
    /// The endpoint is closed; the closing is still to be reported.
    PreQuit,
    /// Done.
    Quit,
}

/// The outcome of the outside work that a state asked for.
#[derive(Debug, Clone, Copy, PartialEq, Eq)]
pub enum Outcome {
    /// Binding the endpoint succeeded.
    EndpointBound,
    /// Binding the endpoint failed.
    EndpointFailed,
    /// An incoming connection could not be accepted.
    IncomingRefused,
    /// An incoming connection from node `.0` was established.
    IncomingEstablished(NodeId),
    /// An accepted incoming connection failed while being established.
    IncomingFailed,
    /// The requested connection to node `.0` was established.
    ConnectEstablished(NodeId),
    /// The requested connection failed.
    ConnectFailed,
    /// Node `.0` disconnected.
    NodeDisconnected(NodeId),
    /// The user interface asked to close the network.
    CloseRequested,
    /// The state needed no outside work.
    Nothing,
}

/// What the task reports to the user interface.
#[derive(Debug, Clone, Copy, PartialEq, Eq)]
pub enum Report {
    NodeConnected(NodeId, Direction),
    NodeError,
    NetworkCreated,
    NetworkClosed,
    Error,
}

/// What the task does with its open connections.
#[derive(Debug, Clone, Copy, PartialEq, Eq)]
pub enum ConnectionAction {
    Keep,
    /// Keep the new connection to this node, replacing any older one.
    Store(NodeId),
    /// Forget the connection to this node.
    Drop(NodeId),
    /// Forget every connection and close the endpoint.
    DropAll,
}

/// One step of the task: what it reports, how its connections change, and
/// its next state.
#[derive(Debug, Clone, Copy, PartialEq, Eq)]
pub struct Step {
    pub report: Option<Report>,
    pub connections: ConnectionAction,
    pub next: Phase,
}

/// Whether an outcome is one that the work of `phase` can have.
pub open spec fn outcome_fits(phase: Phase, outcome: Outcome) -> bool {
    match phase {
        Phase::Disconnected => outcome is EndpointBound || outcome is EndpointFailed,
        Phase::Connected => !(outcome is EndpointBound || outcome is EndpointFailed || outcome is Nothing),
        Phase::PreQuit => outcome is Nothing,
        Phase::Quit => outcome is Nothing,
    }
}

/// The step that the task takes in `phase` after the work had `outcome`;
/// `None` ends the task.
pub open spec fn step_spec(phase: Phase, outcome: Outcome) -> Option<Step> {
    match phase {
        Phase::Disconnected => match outcome {
            Outcome::EndpointBound => Some(Step { report: Some(Report::NetworkCreated), connections: ConnectionAction::Keep, next: Phase::Connected }),
            _ => Some(Step { report: Some(Report::Error), connections: ConnectionAction::Keep, next: Phase::Quit }),
        },
        Phase::Connected => match outcome {
            Outcome::IncomingRefused => None,
            Outcome::IncomingEstablished(id) => Some(Step { report: Some(Report::NodeConnected(id, Direction::Inbound)), connections: ConnectionAction::Store(id), next: Phase::Connected }),
            Outcome::IncomingFailed => Some(Step { report: Some(Report::NodeError), connections: ConnectionAction::Keep, next: Phase::Connected }),
            Outcome::ConnectEstablished(id) => Some(Step { report: Some(Report::NodeConnected(id, Direction::Outbound)), connections: ConnectionAction::Store(id), next: Phase::Connected }),
            Outcome::ConnectFailed => Some(Step { report: Some(Report::NodeError), connections: ConnectionAction::Keep, next: Phase::Connected }),
            Outcome::NodeDisconnected(id) => Some(Step { report: None, connections: ConnectionAction::Drop(id), next: Phase::Connected }),
            _ => Some(Step { report: None, connections: ConnectionAction::DropAll, next: Phase::PreQuit }),
        },
        Phase::PreQuit => Some(Step { report: Some(Report::NetworkClosed), connections: ConnectionAction::Keep, next: Phase::Quit }),
        Phase::Quit => None,
    }
}

/// Takes one step of the network task.
pub fn step(phase: Phase, outcome: Outcome) -> (r: Option<Step>)
    requires
        outcome_fits(phase, outcome),
    ensures
        r == step_spec(phase, outcome),
{
    match phase {
        Phase::Disconnected => match outcome {
            Outcome::EndpointBound => Some(Step { report: Some(Report::NetworkCreated), connections: ConnectionAction::Keep, next: Phase::Connected }),
            _ => Some(Step { report: Some(Report::Error), connections: ConnectionAction::Keep, next: Phase::Quit }),
        },
        Phase::Connected => match outcome {
            Outcome::IncomingRefused => None,
            Outcome::IncomingEstablished(id) => Some(Step { report: Some(Report::NodeConnected(id, Direction::Inbound)), connections: ConnectionAction::Store(id), next: Phase::Connected }),
            Outcome::IncomingFailed => Some(Step { report: Some(Report::NodeError), connections: ConnectionAction::Keep, next: Phase::Connected }),
            Outcome::ConnectEstablished(id) => Some(Step { report: Some(Report::NodeConnected(id, Direction::Outbound)), connections: ConnectionAction::Store(id), next: Phase::Connected }),
            Outcome::ConnectFailed => Some(Step { report: Some(Report::NodeError), connections: ConnectionAction::Keep, next: Phase::Connected }),
            Outcome::NodeDisconnected(id) => Some(Step { report: None, connections: ConnectionAction::Drop(id), next: Phase::Connected }),
            _ => Some(Step { report: None, connections: ConnectionAction::DropAll, next: Phase::PreQuit }),
        },
        Phase::PreQuit => Some(Step { report: Some(Report::NetworkClosed), connections: ConnectionAction::Keep, next: Phase::Quit }),
        Phase::Quit => None,
    }
}

/// What the task loop does after a step.
#[derive(Debug, Clone, Copy, PartialEq, Eq)]
pub enum TaskControl {
    /// The task ends.
    Finish,
    /// Send the report, if the step has one, then step from the next state.
    Continue(Option<Report>, Phase),
}

/// The task loop's decision after a step: it ends when there is no step,
/// and otherwise sends what the step reports (nothing, for a silent step)
/// and goes on from the step's next state, so the task always has a state
/// to step from.
pub fn task_control(step: Option<Step>) -> (c: TaskControl)
    ensures
        step is None ==> c == TaskControl::Finish,
        step matches Some(s) ==> c == TaskControl::Continue(s.report, s.next),
{
    match step {
        None => TaskControl::Finish,
        Some(s) => TaskControl::Continue(s.report, s.next),
    }
}

/// The task always ends after the network is closed: `Close` leads to
/// `PreQuit`, which reports the closing and leads to `Quit`, where the task
/// ends; and a failed endpoint ends in `Quit` too.
pub proof fn lemma_close_then_quit()
    ensures
        step_spec(Phase::Connected, Outcome::CloseRequested) == Some(Step { report: None, connections: ConnectionAction::DropAll, next: Phase::PreQuit }),
        step_spec(Phase::PreQuit, Outcome::Nothing) == Some(Step { report: Some(Report::NetworkClosed), connections: ConnectionAction::Keep, next: Phase::Quit }),
        step_spec(Phase::Quit, Outcome::Nothing) is None,
        step_spec(Phase::Disconnected, Outcome::EndpointFailed) matches Some(s) && s.next == Phase::Quit,
{
}

/// How the task moves between states: binding either creates the network
/// (keeping no connection yet) or fails into `Quit`; while connected, every
/// outcome but a refused incoming connection keeps the task going, in
/// `Connected` or, after a close, in `PreQuit` with nothing reported;
/// `PreQuit` reports the closing and leads to `Quit`; no step leaves `Quit`,
/// and no step returns to `Disconnected`.
pub proof fn lemma_phase_progress(phase: Phase, outcome: Outcome)
    requires
        outcome_fits(phase, outcome),
    ensures
        phase == Phase::Disconnected ==> (step_spec(phase, outcome) matches Some(s) && (
            (s.report == Some(Report::NetworkCreated) && s.connections == ConnectionAction::Keep
                && s.next == Phase::Connected)
            || (s.report == Some(Report::Error) && s.next == Phase::Quit))),
        phase == Phase::Connected ==> (step_spec(phase, outcome) is None <==> outcome is IncomingRefused),
        phase == Phase::Connected ==> (step_spec(phase, outcome) matches Some(s) ==> (s.next
            == Phase::Connected || (outcome is CloseRequested && s.next == Phase::PreQuit
            && s.report is None))),
        phase == Phase::PreQuit ==> step_spec(phase, outcome) == Some(
            Step { report: Some(Report::NetworkClosed), connections: ConnectionAction::Keep, next: Phase::Quit },
        ),
        phase == Phase::Quit ==> step_spec(phase, outcome) is None,
        step_spec(phase, outcome) matches Some(s) ==> s.next != Phase::Disconnected,
{
}

/// What a connected task tells the user interface: a failed connection
/// attempt, incoming or outgoing, is reported as a node error and the task
/// stays connected with its connections as they were; an established
/// connection is reported as that node connected, in the direction it was
/// made, and kept; a disconnected node is forgotten without a report.
pub proof fn lemma_connected_reports(outcome: Outcome)
    requires
        outcome_fits(Phase::Connected, outcome),
    ensures
        (step_spec(Phase::Connected, outcome) matches Some(s) && s.report == Some(Report::NodeError))
            <==> (outcome is IncomingFailed || outcome is ConnectFailed),
        outcome is IncomingFailed || outcome is ConnectFailed ==> (step_spec(Phase::Connected, outcome)
            matches Some(s) && s.connections == ConnectionAction::Keep && s.next == Phase::Connected),
        outcome matches Outcome::IncomingEstablished(id) ==> (step_spec(Phase::Connected, outcome)
            matches Some(s) && s.report == Some(Report::NodeConnected(id, Direction::Inbound))
            && s.connections == ConnectionAction::Store(id) && s.next == Phase::Connected),
        outcome matches Outcome::ConnectEstablished(id) ==> (step_spec(Phase::Connected, outcome)
            matches Some(s) && s.report == Some(Report::NodeConnected(id, Direction::Outbound))
            && s.connections == ConnectionAction::Store(id) && s.next == Phase::Connected),
        (step_spec(Phase::Connected, outcome) matches Some(s) && s.report matches Some(Report::NodeConnected(_, _)))
            ==> (outcome is IncomingEstablished || outcome is ConnectEstablished),
        outcome matches Outcome::NodeDisconnected(id) ==> (step_spec(Phase::Connected, outcome)
            matches Some(s) && s.report is None && s.connections == ConnectionAction::Drop(id)
            && s.next == Phase::Connected),
{
}

/// Why opening communications with a node failed.
#[derive(Debug, Clone, Copy, PartialEq, Eq, Structural)]
pub enum HandshakeError {
    /// The node did not answer the greeting with a greeting.
    InvalidHandshakeReply,
}

/// Checks the node's reply to the greeting: a greeting is the only valid
/// reply (the only message there is), an ended stream is not.
pub fn check_handshake(reply: Option<Message>) -> (r: Result<(), HandshakeError>)
    ensures
        r is Ok <==> reply is Some,
        r is Err ==> r == Err::<(), HandshakeError>(HandshakeError::InvalidHandshakeReply),
{
    match reply {
        Some(Message::Hello) => Ok(()),
        None => Err(HandshakeError::InvalidHandshakeReply),
    }
}

} // verus!
