//! The bridge to a mock server: a worker that owns the live server and
//! answers one command at a time, and the handle that sends it commands.
//!
//! The worker's decisions are a function from its state and what happened to
//! its next state and what to do. The thread that runs the worker, and the
//! live server, are the caller's. [`NifValidatingMockServer`] runs the same
//! decisions over two single-slot queues in memory, with the answers of the
//! server handed in as data.

use vstd::prelude::*;
use vstd::string::StringExecFns;
use crate::assoc::{first_named, lemma_first_named};
use crate::builders::pact_builder::{NifPactBuilder, PactModel};
use crate::error::{ErrorKind, PactError};
use crate::models::v4::http_parts::views;

verus! {

/// A command to the worker.
#[derive(Debug)]
pub enum Command {
    /// Asks for the URL of the server.
    Url,
    /// Asks for the URL of a path under that of the server.
    Path(String),
    /// Tells the worker to stop. It is not answered.
    Stop,
}

/// What a [`Command`] stands for.
pub ghost enum CommandModel {
    Url,
    Path(Seq<char>),
    Stop,
}

impl View for Command {
    type V = CommandModel;

    open spec fn view(&self) -> CommandModel {
        match self {
            Command::Url => CommandModel::Url,
            Command::Path(suffix) => CommandModel::Path(suffix@),
            Command::Stop => CommandModel::Stop,
        }
    }
}

/// Where the worker stands.
#[derive(Clone, Copy, Debug, PartialEq, Eq, Structural)]
pub enum WorkerState {
    /// The worker exists; the server is not bound yet.
    Starting,
    /// The server is bound and the worker reads commands.
    Running,
    /// The worker has left its loop and released the server.
    Stopped,
}

/// What happened to the worker.
#[derive(Debug)]
pub enum WorkerEvent {
    /// The server is bound.
    Started,
    /// The server could not be started.
    StartFailed,
    /// A command came out of the command queue.
    Received(Command),
    /// The answer to the last command went into the response queue.
    Sent,
    /// The other end of a queue is gone, or the server failed to answer.
    Disconnected,
}

/// What a [`WorkerEvent`] stands for.
pub ghost enum EventModel {
    Started,
    StartFailed,
    Received(CommandModel),
    Sent,
    Disconnected,
}

impl View for WorkerEvent {
    type V = EventModel;

    open spec fn view(&self) -> EventModel {
        match self {
            WorkerEvent::Started => EventModel::Started,
            WorkerEvent::StartFailed => EventModel::StartFailed,
            WorkerEvent::Received(command) => EventModel::Received(command@),
            WorkerEvent::Sent => EventModel::Sent,
            WorkerEvent::Disconnected => EventModel::Disconnected,
        }
    }
}

/// What the worker does next.
#[derive(Debug)]
pub enum WorkerAction {
    /// Wait for the next command.
    Receive,
    /// Send the URL of the server.
    AnswerUrl,
    /// Send the URL of this path under that of the server.
    AnswerPath(String),
    /// Leave the loop and release the server and both queues.
    Exit,
}

/// What a [`WorkerAction`] stands for.
pub ghost enum ActionModel {
    Receive,
    AnswerUrl,
    AnswerPath(Seq<char>),
    Exit,
}

impl View for WorkerAction {
    type V = ActionModel;

    open spec fn view(&self) -> ActionModel {
        match self {
            WorkerAction::Receive => ActionModel::Receive,
            WorkerAction::AnswerUrl => ActionModel::AnswerUrl,
            WorkerAction::AnswerPath(suffix) => ActionModel::AnswerPath(suffix@),
            WorkerAction::Exit => ActionModel::Exit,
        }
    }
}

/// The worker's next state and action. Once the server is bound the worker
/// reads commands; it answers `Url` and `Path`, and after each answer reads
/// again; `Stop`, a lost queue, a failed start and anything out of turn make
/// it stop, without an answer.
pub open spec fn worker_next(state: WorkerState, event: EventModel) -> (WorkerState, ActionModel) {
    match (state, event) {
        (WorkerState::Starting, EventModel::Started) => (WorkerState::Running, ActionModel::Receive),
        (WorkerState::Running, EventModel::Received(CommandModel::Url)) => (
            WorkerState::Running,
            ActionModel::AnswerUrl,
        ),
        (WorkerState::Running, EventModel::Received(CommandModel::Path(suffix))) => (
            WorkerState::Running,
            ActionModel::AnswerPath(suffix),
        ),
        (WorkerState::Running, EventModel::Sent) => (WorkerState::Running, ActionModel::Receive),
        _ => (WorkerState::Stopped, ActionModel::Exit),
    }
}

/// Decides what the worker does next.
pub fn worker_step(state: WorkerState, event: WorkerEvent) -> (r: (WorkerState, WorkerAction))
    ensures
        r.0 == worker_next(state, event@).0,
        r.1@ == worker_next(state, event@).1,
{
    match (state, event) {
        (WorkerState::Starting, WorkerEvent::Started) => (WorkerState::Running, WorkerAction::Receive),
        (WorkerState::Running, WorkerEvent::Received(Command::Url)) => (
            WorkerState::Running,
            WorkerAction::AnswerUrl,
        ),
        (WorkerState::Running, WorkerEvent::Received(Command::Path(suffix))) => (
            WorkerState::Running,
            WorkerAction::AnswerPath(suffix),
        ),
        (WorkerState::Running, WorkerEvent::Sent) => (WorkerState::Running, WorkerAction::Receive),
        _ => (WorkerState::Stopped, WorkerAction::Exit),
    }
}

/// The worker leaves its loop exactly when it stops, a stopped worker stays
/// stopped whatever happens, and no worker goes back to starting.
pub proof fn law_worker_stops_once(state: WorkerState, event: EventModel)
    ensures
        worker_next(state, event).1 is Exit <==> worker_next(state, event).0 == WorkerState::Stopped,
        state == WorkerState::Stopped ==> worker_next(state, event).0 == WorkerState::Stopped,
        worker_next(state, event).0 != WorkerState::Starting,
{
}

/// A command is answered exactly if it is `Url` or `Path` and reaches a
/// running worker; `Stop` is never answered.
pub proof fn law_one_answer_per_request(state: WorkerState, command: CommandModel)
    ensures
        ({
            let action = worker_next(state, EventModel::Received(command)).1;
            &&& (action is AnswerUrl || action is AnswerPath) <==> state == WorkerState::Running && !(command
                is Stop)
            &&& command is Stop ==> action is Exit
        }),
{
}

/// What sending a command came to: an error of kind `ChannelClosed` where the
/// command queue has no reader any more.
pub fn sending_result(sent: bool) -> (r: Result<(), PactError>)
    ensures
        sent ==> r is Ok,
        !sent ==> (r matches Err(error) && error.is(ErrorKind::ChannelClosed, "unable_send_command"@)),
{
    if sent {
        Ok(())
    } else {
        Err(PactError::new(ErrorKind::ChannelClosed, String::from_str("unable_send_command")))
    }
}

/// What waiting for an answer came to: the answer, or an error of kind
/// `ServerUnavailable` where the worker went away without one.
pub fn receiving_result(received: Option<String>) -> (r: Result<String, PactError>)
    ensures
        match received {
            Some(answer) => r == Ok::<String, PactError>(answer),
            None => r matches Err(error) && error.is(ErrorKind::ServerUnavailable, "unable_receive_response"@),
        },
{
    match received {
        Some(answer) => Ok(answer),
        None => Err(PactError::new(ErrorKind::ServerUnavailable, String::from_str("unable_receive_response"))),
    }
}

/// The error of a request that could not be sent because the worker has
/// stopped: `ChannelClosed` where the handle had been released, and
/// `ServerUnavailable` where the worker went away by itself, as it does when
/// the server does not come up.
pub fn unsent_request(released: bool) -> (r: PactError)
    ensures
        r.is(
            if released {
                ErrorKind::ChannelClosed
            } else {
                ErrorKind::ServerUnavailable
            },
            "unable_send_command"@,
        ),
{
    if released {
        PactError::new(ErrorKind::ChannelClosed, String::from_str("unable_send_command"))
    } else {
        PactError::new(ErrorKind::ServerUnavailable, String::from_str("unable_send_command"))
    }
}

/// Whether releasing a handle succeeded: always. A `Stop` that could not be
/// sent means the worker had stopped already.
pub fn release_result(sent: bool) -> (r: Result<(), PactError>)
    ensures
        r is Ok,
{
    match sending_result(sent) {
        Ok(_) => Ok(()),
        Err(_) => Ok(()),
    }
}

/// One answer of the live server: the URL of a path under its own.
#[derive(Debug)]
pub struct PathAnswer {
    pub suffix: String,
    pub url: String,
}

impl View for PathAnswer {
    type V = (Seq<char>, Seq<char>);

    open spec fn view(&self) -> (Seq<char>, Seq<char>) {
        (self.suffix@, self.url@)
    }
}

/// What the live server answers: its URL, and the URL of each path it can
/// place under its own. A path that is not listed is one the server fails
/// on.
#[derive(Debug)]
pub struct LiveServer {
    pub url: String,
    pub paths: Vec<PathAnswer>,
}

/// What a [`LiveServer`] stands for.
pub ghost struct LiveServerModel {
    pub url: Seq<char>,
    pub paths: Seq<(Seq<char>, Seq<char>)>,
}

impl View for LiveServer {
    type V = LiveServerModel;

    open spec fn view(&self) -> LiveServerModel {
        LiveServerModel { url: self.url@, paths: views(self.paths@) }
    }
}

impl LiveServer {
    /// The URL of the path `suffix` under that of the server, if the server
    /// can place it.
    pub fn resolve(&self, suffix: &String) -> (r: Option<String>)
        ensures
            match r {
                Some(url) => first_named(self@.paths, suffix@) == Some(url@),
                None => first_named(self@.paths, suffix@) is None,
            },
    {
        let ghost paths = self@.paths;
        let mut i: usize = 0;
        while i < self.paths.len()
            invariant
                i <= self.paths.len(),
                paths == self@.paths,
                forall|j: int| 0 <= j < i ==> (#[trigger] paths[j]).0 != suffix@,
            decreases self.paths.len() - i,
        {
            if self.paths[i].suffix == *suffix {
                proof {
                    lemma_first_named(paths, suffix@, i as int);
                }
                return Some(self.paths[i].url.clone());
            }
            i += 1;
        }
        proof {
            lemma_first_named(paths, suffix@, i as int);
        }
        None
    }
}

/// The command queue: one slot, written by the handle and read by the worker.
#[derive(Debug)]
pub struct CommandChannel {
    slot: Option<Command>,
    connected: bool,
}

/// The response queue: one slot, written by the worker and read by the handle.
#[derive(Debug)]
pub struct ResponseChannel {
    slot: Option<String>,
    connected: bool,
}

impl CommandChannel {
    /// The command that waits in the queue, if any.
    pub closed spec fn queued(&self) -> Option<CommandModel> {
        match self.slot {
            Some(command) => Some(command@),
            None => None,
        }
    }

    /// Whether the worker still holds the reading end.
    pub closed spec fn connected(&self) -> bool {
        self.connected
    }

    /// An empty queue with a reader.
    pub fn new() -> (r: CommandChannel)
        ensures
            r.queued() is None,
            r.connected(),
    {
        CommandChannel { slot: None, connected: true }
    }

    /// Puts a command into the empty queue. Fails with `ChannelClosed` where
    /// the queue has no reader any more.
    pub fn send(&mut self, command: Command) -> (r: Result<(), PactError>)
        requires
            old(self).queued() is None,
        ensures
            final(self).connected() == old(self).connected(),
            old(self).connected() ==> r is Ok && final(self).queued() == Some(command@),
            !old(self).connected() ==> final(self).queued() is None && (r matches Err(error) && error.is(
                ErrorKind::ChannelClosed,
                "unable_send_command"@,
            )),
    {
        if self.connected {
            self.slot = Some(command);
        }
        sending_result(self.connected)
    }

    /// Takes the waiting command out of the queue, if there is one.
    pub fn receive(&mut self) -> (r: Option<Command>)
        ensures
            final(self).connected() == old(self).connected(),
            final(self).queued() is None,
            match r {
                Some(command) => old(self).queued() == Some(command@),
                None => old(self).queued() is None,
            },
    {
        self.slot.take()
    }

    /// The worker lets go of the reading end; a command that waits is lost.
    pub fn disconnect(&mut self)
        ensures
            !final(self).connected(),
            final(self).queued() is None,
    {
        self.slot = None;
        self.connected = false;
    }
}

impl ResponseChannel {
    /// The answer that waits in the queue, if any.
    pub closed spec fn queued(&self) -> Option<Seq<char>> {
        match self.slot {
            Some(answer) => Some(answer@),
            None => None,
        }
    }

    /// Whether the worker still holds the writing end.
    pub closed spec fn connected(&self) -> bool {
        self.connected
    }

    /// An empty queue with a writer.
    pub fn new() -> (r: ResponseChannel)
        ensures
            r.queued() is None,
            r.connected(),
    {
        ResponseChannel { slot: None, connected: true }
    }

    /// Puts an answer into the empty queue.
    pub fn send(&mut self, answer: String)
        requires
            old(self).queued() is None,
        ensures
            final(self).connected() == old(self).connected(),
            final(self).queued() == Some(answer@),
    {
        self.slot = Some(answer);
    }

    /// Takes the waiting answer out of the queue. Fails with
    /// `ServerUnavailable` where there is none and no writer is left to send
    /// one.
    pub fn receive(&mut self) -> (r: Result<String, PactError>)
        requires
            old(self).queued() is Some || !old(self).connected(),
        ensures
            final(self).connected() == old(self).connected(),
            final(self).queued() is None,
            match old(self).queued() {
                Some(answer) => r matches Ok(text) && text@ == answer,
                None => r matches Err(error) && error.is(
                    ErrorKind::ServerUnavailable,
                    "unable_receive_response"@,
                ),
            },
    {
        receiving_result(self.slot.take())
    }

    /// The worker lets go of the writing end.
    pub fn disconnect(&mut self)
        ensures
            !final(self).connected(),
            final(self).queued() == old(self).queued(),
    {
        self.connected = false;
    }
}

/// A mock server as its handle sees it: the two queues, and behind them the
/// worker with the live server it owns.
#[derive(Debug)]
pub struct ValidatingMockServerResource {
    command_tx: CommandChannel,
    response_rx: ResponseChannel,
    worker: WorkerState,
    server: Option<LiveServer>,
    released: bool,
    contract: NifPactBuilder,
}

/// What a mock server stands for between two calls: the state of its worker,
/// the live server while the worker owns it, whether the handle has been
/// released, and the contract it was started on.
pub ghost struct BridgeModel {
    pub worker: WorkerState,
    pub server: Option<LiveServerModel>,
    pub released: bool,
    pub contract: PactModel,
}

/// What only a mock server between two calls can be: a running worker owns a
/// live server, a stopped one has let go of it, and behind a handle that has
/// been released the worker has stopped.
pub open spec fn consistent(bridge: BridgeModel) -> bool {
    &&& bridge.worker == WorkerState::Running ==> bridge.server is Some
    &&& bridge.worker == WorkerState::Stopped ==> bridge.server is None
    &&& bridge.released ==> bridge.worker == WorkerState::Stopped
}

/// The bridge once its worker has stopped and let go of the server.
pub open spec fn stopped(bridge: BridgeModel) -> BridgeModel {
    BridgeModel { worker: WorkerState::Stopped, server: None, ..bridge }
}

/// The bridge once its handle has been released: the worker has stopped, and
/// the handle knows that it asked for it.
pub open spec fn released(bridge: BridgeModel) -> BridgeModel {
    BridgeModel { worker: WorkerState::Stopped, server: None, released: true, ..bridge }
}

/// The bridge once the worker has tried to bind the server, which it does
/// before it reads its first command: it runs if the server came up, and has
/// stopped if not.
pub open spec fn started(bridge: BridgeModel) -> BridgeModel {
    if bridge.worker == WorkerState::Starting {
        if bridge.server is Some {
            BridgeModel { worker: WorkerState::Running, ..bridge }
        } else {
            stopped(bridge)
        }
    } else {
        bridge
    }
}

/// What the live server answers to a command: its URL, the URL of a path it
/// can place, and nothing to anything else.
pub open spec fn answer_of(server: Option<LiveServerModel>, command: CommandModel) -> Option<Seq<char>> {
    match (server, command) {
        (Some(live), CommandModel::Url) => Some(live.url),
        (Some(live), CommandModel::Path(suffix)) => first_named(live.paths, suffix),
        _ => None,
    }
}

/// Whether a command that is sent to the bridge is answered: it reaches a
/// worker that runs, and the server has an answer to it.
pub open spec fn answered(bridge: BridgeModel, command: CommandModel) -> bool {
    &&& started(bridge).worker == WorkerState::Running
    &&& answer_of(started(bridge).server, command) is Some
}

/// The bridge after the worker had its turn on a command: started, and
/// running on if the command was answered, and stopped if not.
pub open spec fn after_turn(bridge: BridgeModel, command: CommandModel) -> BridgeModel {
    if answered(bridge, command) {
        started(bridge)
    } else {
        stopped(bridge)
    }
}

/// The bridge after a command was sent to it: released after `Stop`; after a
/// request as it was where the worker had stopped before, and else as the
/// worker's turn left it.
pub open spec fn after_command(bridge: BridgeModel, command: CommandModel) -> BridgeModel {
    if command is Stop {
        released(bridge)
    } else if bridge.worker == WorkerState::Stopped {
        bridge
    } else {
        after_turn(bridge, command)
    }
}

/// What the sender of a request gets. Where the worker had stopped before:
/// `ChannelClosed` if the handle had been released, and `ServerUnavailable`
/// if the worker went away by itself. Else the answer where there is one, and
/// `ServerUnavailable` where the worker went away without one. So once a
/// server has not come up, every request fails with `ServerUnavailable`.
pub open spec fn requested(bridge: BridgeModel, command: CommandModel, outcome: Result<String, PactError>) -> bool {
    if bridge.worker == WorkerState::Stopped {
        outcome matches Err(error) && error.is(
            if bridge.released {
                ErrorKind::ChannelClosed
            } else {
                ErrorKind::ServerUnavailable
            },
            "unable_send_command"@,
        )
    } else if answered(bridge, command) {
        outcome matches Ok(text) && Some(text@) == answer_of(started(bridge).server, command)
    } else {
        outcome matches Err(error) && error.is(ErrorKind::ServerUnavailable, "unable_receive_response"@)
    }
}

impl View for ValidatingMockServerResource {
    type V = BridgeModel;

    closed spec fn view(&self) -> BridgeModel {
        BridgeModel {
            worker: self.worker,
            server: match self.server {
                Some(live) => Some(live@),
                None => None,
            },
            released: self.released,
            contract: self.contract@,
        }
    }
}

impl ValidatingMockServerResource {
    /// Whether the bridge is between two calls: both queues are empty, the
    /// worker holds its ends of them until it stops, and it owns the live
    /// server while it runs.
    pub closed spec fn idle(&self) -> bool {
        &&& self.command_tx.queued() is None
        &&& self.response_rx.queued() is None
        &&& self.connected()
        &&& consistent(self@)
    }

    /// Whether the worker holds its ends of the queues exactly while it has
    /// not stopped.
    spec fn connected(&self) -> bool {
        &&& self.command_tx.connected() == (self.worker != WorkerState::Stopped)
        &&& self.response_rx.connected() == (self.worker != WorkerState::Stopped)
    }

    /// A bridge that is between two calls is consistent: if its worker runs
    /// it owns a live server, and will answer.
    pub proof fn lemma_idle_is_consistent(&self)
        requires
            self.idle(),
        ensures
            consistent(self@),
    {
    }

    /// The worker stops: it lets go of the server and of both queues.
    fn shut_down(&mut self)
        ensures
            final(self)@ == stopped(old(self)@),
            final(self).command_tx.queued() is None,
            final(self).response_rx.queued() == old(self).response_rx.queued(),
            final(self).connected(),
    {
        self.worker = WorkerState::Stopped;
        self.server = None;
        self.command_tx.disconnect();
        self.response_rx.disconnect();
    }

    /// What the live server answers to `command`, if the worker owns one and
    /// it has an answer.
    fn answer(&self, action: &WorkerAction) -> (r: Option<String>)
        ensures
            match r {
                Some(text) => Some(text@),
                None => None,
            } == match action@ {
                ActionModel::AnswerUrl => answer_of(self@.server, CommandModel::Url),
                ActionModel::AnswerPath(suffix) => answer_of(self@.server, CommandModel::Path(suffix)),
                _ => None,
            },
    {
        match &self.server {
            Some(live) => match action {
                WorkerAction::AnswerUrl => Some(live.url.clone()),
                WorkerAction::AnswerPath(suffix) => live.resolve(suffix),
                _ => None,
            },
            None => None,
        }
    }

    /// The worker's turn: it binds the server if it has not tried yet, takes
    /// the command that waits, and answers it or stops.
    fn run_worker(&mut self, Ghost(command): Ghost<CommandModel>)
        requires
            old(self).worker != WorkerState::Stopped,
            old(self).command_tx.queued() == Some(command),
            old(self).response_rx.queued() is None,
            old(self).connected(),
        ensures
            final(self)@ == after_turn(old(self)@, command),
            final(self).command_tx.queued() is None,
            final(self).response_rx.queued() == if answered(old(self)@, command) {
                answer_of(started(old(self)@).server, command)
            } else {
                None
            },
            final(self).connected(),
    {
        if self.worker == WorkerState::Starting {
            let event = if self.server.is_some() {
                WorkerEvent::Started
            } else {
                WorkerEvent::StartFailed
            };
            let (state, _) = worker_step(self.worker, event);
            self.worker = state;
            if state == WorkerState::Stopped {
                self.shut_down();
                return;
            }
        }
        match self.command_tx.receive() {
            Some(received) => {
                let (state, action) = worker_step(self.worker, WorkerEvent::Received(received));
                match self.answer(&action) {
                    Some(text) => {
                        self.response_rx.send(text);
                        let (after, _) = worker_step(state, WorkerEvent::Sent);
                        self.worker = after;
                    },
                    None => {
                        let (after, _) = worker_step(state, WorkerEvent::Disconnected);
                        self.worker = after;
                        self.shut_down();
                    },
                }
            },
            None => {},
        }
    }

    /// Sends a command to the worker. Fails with `ChannelClosed` where the
    /// worker has stopped.
    fn send_command(&mut self, command: Command) -> (r: Result<(), PactError>)
        requires
            old(self).idle(),
        ensures
            final(self)@ == old(self)@,
            final(self).connected(),
            final(self).response_rx.queued() is None,
            old(self)@.worker != WorkerState::Stopped ==> r is Ok && final(self).command_tx.queued() == Some(
                command@,
            ),
            old(self)@.worker == WorkerState::Stopped ==> final(self).idle() && (r matches Err(error)
                && error.is(ErrorKind::ChannelClosed, "unable_send_command"@)),
    {
        self.command_tx.send(command)
    }

    /// Waits for the answer of the worker. Fails with `ServerUnavailable`
    /// where the worker went away without one.
    fn receive_response(&mut self) -> (r: Result<String, PactError>)
        requires
            old(self).command_tx.queued() is None,
            old(self).connected(),
            consistent(old(self)@),
            old(self).response_rx.queued() is Some || old(self)@.worker == WorkerState::Stopped,
        ensures
            final(self)@ == old(self)@,
            final(self).idle(),
            match old(self).response_rx.queued() {
                Some(answer) => r matches Ok(text) && text@ == answer,
                None => r matches Err(error) && error.is(
                    ErrorKind::ServerUnavailable,
                    "unable_receive_response"@,
                ),
            },
    {
        self.response_rx.receive()
    }

    /// Sends a request and waits for its answer. A request that cannot be
    /// sent fails as the way the worker stopped asks for.
    fn request(&mut self, command: Command) -> (r: Result<String, PactError>)
        requires
            old(self).idle(),
            !(command@ is Stop),
        ensures
            final(self).idle(),
            final(self)@ == after_command(old(self)@, command@),
            requested(old(self)@, command@, r),
    {
        let ghost sent = command@;
        match self.send_command(command) {
            Ok(_) => {
                self.run_worker(Ghost(sent));
                self.receive_response()
            },
            Err(_) => Err(unsent_request(self.released)),
        }
    }
}

/// The handle of a mock server.
#[derive(Debug)]
pub struct NifValidatingMockServer {
    pub inner: ValidatingMockServerResource,
}

impl View for NifValidatingMockServer {
    type V = BridgeModel;

    open spec fn view(&self) -> BridgeModel {
        self.inner@
    }
}

/// Starts a mock server on the contract as it stands: the worker exists and
/// will bind `server`, the live server, before it reads its first command;
/// `None` stands for a server that does not come up.
pub fn start(builder: &NifPactBuilder, server: Option<LiveServer>) -> (r: NifValidatingMockServer)
    ensures
        r.inner.idle(),
        consistent(r@),
        r@ == (BridgeModel {
            worker: WorkerState::Starting,
            server: match server {
                Some(live) => Some(live@),
                None => None,
            },
            released: false,
            contract: builder@,
        }),
{
    NifValidatingMockServer {
        inner: ValidatingMockServerResource {
            command_tx: CommandChannel::new(),
            response_rx: ResponseChannel::new(),
            worker: WorkerState::Starting,
            server,
            released: false,
            contract: builder.clone(),
        },
    }
}

/// Asks the mock server for its URL. Fails with `ServerUnavailable` where the
/// server did not come up or the worker has gone away by itself, on this
/// request and on every later one, and with `ChannelClosed` where the handle
/// has been released.
pub fn url(mock_server: &mut NifValidatingMockServer) -> (r: Result<String, PactError>)
    requires
        old(mock_server).inner.idle(),
    ensures
        final(mock_server).inner.idle(),
        consistent(final(mock_server)@),
        final(mock_server)@ == after_command(old(mock_server)@, CommandModel::Url),
        requested(old(mock_server)@, CommandModel::Url, r),
{
    mock_server.inner.request(Command::Url)
}

/// Asks the mock server for the URL of a path under its own. Fails with
/// `ServerUnavailable` where the server did not come up, cannot place the
/// path, or the worker has gone away by itself; the worker is gone after
/// that, and every later request fails the same way. Fails with
/// `ChannelClosed` where the handle has been released.
pub fn path(mock_server: &mut NifValidatingMockServer, value: String) -> (r: Result<String, PactError>)
    requires
        old(mock_server).inner.idle(),
    ensures
        final(mock_server).inner.idle(),
        consistent(final(mock_server)@),
        final(mock_server)@ == after_command(old(mock_server)@, CommandModel::Path(value@)),
        requested(old(mock_server)@, CommandModel::Path(value@), r),
{
    mock_server.inner.request(Command::Path(value))
}

/// Releases the mock server: sends `Stop` once and does not wait for an
/// answer. The worker has stopped afterwards; releasing again is safe.
pub fn stop(mock_server: &mut NifValidatingMockServer) -> (r: Result<(), PactError>)
    requires
        old(mock_server).inner.idle(),
    ensures
        r is Ok,
        final(mock_server).inner.idle(),
        consistent(final(mock_server)@),
        final(mock_server)@ == released(old(mock_server)@),
{
    let sent = match mock_server.inner.send_command(Command::Stop) {
        Ok(_) => {
            mock_server.inner.run_worker(Ghost(CommandModel::Stop));
            true
        },
        Err(_) => false,
    };
    mock_server.inner.released = true;
    release_result(sent)
}

/// Whether the handle is between two calls, as every operation here leaves
/// it.
pub fn is_idle(mock_server: &NifValidatingMockServer) -> (r: bool)
    ensures
        r == mock_server.inner.idle(),
        r ==> consistent(mock_server@),
{
    let inner = &mock_server.inner;
    let running = !(inner.worker == WorkerState::Stopped);
    inner.command_tx.slot.is_none() && inner.response_rx.slot.is_none() && inner.command_tx.connected
        == running && inner.response_rx.connected == running && (inner.worker != WorkerState::Running
        || inner.server.is_some()) && (inner.worker != WorkerState::Stopped || inner.server.is_none())
        && (!inner.released || inner.worker == WorkerState::Stopped)
}

/// The state of the worker behind the handle.
pub fn state(mock_server: &NifValidatingMockServer) -> (r: WorkerState)
    ensures
        r == mock_server@.worker,
{
    mock_server.inner.worker
}

/// The bridge after one command after another was sent to it.
pub open spec fn after_commands(bridge: BridgeModel, commands: Seq<CommandModel>) -> BridgeModel
    decreases commands.len(),
{
    if commands.len() == 0 {
        bridge
    } else {
        after_command(after_commands(bridge, commands.drop_last()), commands.last())
    }
}

/// Whatever commands are sent, the worker never goes back: once it has
/// stopped it stays stopped and without a server, a handle that has been
/// released stays released, and as long as the worker has not stopped it owns
/// the live server it was started with, so that its answers do not change.
pub proof fn law_worker_never_goes_back(bridge: BridgeModel, commands: Seq<CommandModel>)
    requires
        consistent(bridge),
    ensures
        consistent(after_commands(bridge, commands)),
        after_commands(bridge, commands).contract == bridge.contract,
        bridge.worker == WorkerState::Stopped ==> after_commands(bridge, commands).worker
            == WorkerState::Stopped,
        bridge.released ==> after_commands(bridge, commands) == bridge,
        after_commands(bridge, commands).worker != WorkerState::Stopped ==> after_commands(
            bridge,
            commands,
        ).server == bridge.server,
        after_commands(bridge, commands).worker == WorkerState::Starting ==> commands.len() == 0,
    decreases commands.len(),
{
    if commands.len() > 0 {
        law_worker_never_goes_back(bridge, commands.drop_last());
    }
}

/// After requests to a server that has not come up, the server is still
/// not there, and the handle still not released.
proof fn lemma_failed_start_stays_failed(bridge: BridgeModel, requests: Seq<CommandModel>)
    requires
        bridge.worker != WorkerState::Running,
        bridge.server is None,
        !bridge.released,
        forall|i: int| 0 <= i < requests.len() ==> !(#[trigger] requests[i] is Stop),
    ensures
        after_commands(bridge, requests).worker != WorkerState::Running,
        after_commands(bridge, requests).server is None,
        !after_commands(bridge, requests).released,
    decreases requests.len(),
{
    if requests.len() > 0 {
        let earlier = requests.drop_last();
        assert forall|i: int| 0 <= i < earlier.len() implies !(#[trigger] earlier[i] is Stop) by {
            assert(earlier[i] == requests[i]);
        }
        lemma_failed_start_stays_failed(bridge, earlier);
        assert(!(requests.last() is Stop));
    }
}

/// A server that does not come up is unavailable for good: whatever requests
/// are made of it, each of them fails with `ServerUnavailable`, until the
/// handle is released.
pub proof fn law_failed_start_stays_unavailable(
    bridge: BridgeModel,
    requests: Seq<CommandModel>,
    request: CommandModel,
    outcome: Result<String, PactError>,
)
    requires
        bridge.worker != WorkerState::Running,
        bridge.server is None,
        !bridge.released,
        forall|i: int| 0 <= i < requests.len() ==> !(#[trigger] requests[i] is Stop),
        !(request is Stop),
        requested(after_commands(bridge, requests), request, outcome),
    ensures
        outcome matches Err(error) && error.kind == ErrorKind::ServerUnavailable,
{
    lemma_failed_start_stays_failed(bridge, requests);
}

/// While the worker runs, asking for the URL gives the same answer each time
/// and changes nothing; once the handle is released the worker has stopped,
/// however often it is released, and every request after that fails with
/// `ChannelClosed`.
pub proof fn law_same_url_until_stopped(bridge: BridgeModel, first: Result<String, PactError>, second: Result<
    String,
    PactError,
>, last: Result<String, PactError>, command: CommandModel)
    requires
        consistent(bridge),
        bridge.server is Some,
        bridge.worker != WorkerState::Stopped,
        !(command is Stop),
        requested(bridge, CommandModel::Url, first),
        requested(after_command(bridge, CommandModel::Url), CommandModel::Url, second),
        requested(
            after_command(after_command(after_command(bridge, CommandModel::Url), CommandModel::Url), CommandModel::Stop),
            command,
            last,
        ),
    ensures
        first matches Ok(text) && text@ == bridge.server->0.url,
        second matches Ok(text) && text@ == bridge.server->0.url,
        after_command(after_command(bridge, CommandModel::Url), CommandModel::Url) == started(bridge),
        released(released(bridge)) == released(bridge),
        last matches Err(error) && error.kind == ErrorKind::ChannelClosed,
{
}

} // verus!
