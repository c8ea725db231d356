use crate::server::error::{
    error_text, server_error, ServerError, ServerErrorType, ServerErrorView,
};
use crate::server::log::{LogLevel, LogRecord, LogRecordView};
use crate::server::text::{decimal, decimal_string};
use vstd::prelude::*;

verus! {

/// The records in `logs`, each with its message as a sequence of characters.
pub open spec fn logs_view(logs: Seq<LogRecord>) -> Seq<LogRecordView> {
    logs.map_values(|record: LogRecord| record@)
}

/// How far a serving session has come.
#[derive(Clone, Copy, Debug, PartialEq, Eq, Structural)]
pub enum ListenerState {
    /// The port is being bound.
    Binding,
    /// The port is bound: connections are accepted and handled in turn.
    Serving,
    /// The session is over.
    Stopped,
}

/// What happened in a serving session since the last step.
#[derive(Debug, PartialEq, Eq)]
pub enum ListenerEvent {
    /// The port was bound.
    Bound,
    /// The port could not be bound.
    BindFailed,
    /// A connection came in.
    Accepted,
    /// A connection came in but could not be accepted.
    AcceptFailed,
    /// The handling of a connection ended, with the given result.
    Handled(Result<(), ServerError>),
}

/// What a [`ListenerEvent`] holds, with texts as sequences of characters.
pub enum ListenerEventView {
    Bound,
    BindFailed,
    Accepted,
    AcceptFailed,
    Handled(Result<(), ServerErrorView>),
}

impl View for ListenerEvent {
    type V = ListenerEventView;

    open spec fn view(&self) -> ListenerEventView {
        match self {
            ListenerEvent::Bound => ListenerEventView::Bound,
            ListenerEvent::BindFailed => ListenerEventView::BindFailed,
            ListenerEvent::Accepted => ListenerEventView::Accepted,
            ListenerEvent::AcceptFailed => ListenerEventView::AcceptFailed,
            ListenerEvent::Handled(result) => ListenerEventView::Handled(
                match result {
                    Ok(_) => Ok(()),
                    Err(error) => Err(error@),
                },
            ),
        }
    }
}

/// What is to be done in a serving session next.
#[derive(Debug, PartialEq, Eq)]
pub enum ListenerAction {
    /// Bind a listener to `address`.
    Bind { address: String },
    /// Wait for the next connection.
    Accept,
    /// Handle the connection that came in, and report how its handling ended.
    Handle,
    /// Serve no more.
    Stop,
}

/// What a [`ListenerAction`] holds, with texts as sequences of characters.
pub enum ListenerActionView {
    Bind { address: Seq<char> },
    Accept,
    Handle,
    Stop,
}

impl View for ListenerAction {
    type V = ListenerActionView;

    open spec fn view(&self) -> ListenerActionView {
        match self {
            ListenerAction::Bind { address } => ListenerActionView::Bind { address: address@ },
            ListenerAction::Accept => ListenerActionView::Accept,
            ListenerAction::Handle => ListenerActionView::Handle,
            ListenerAction::Stop => ListenerActionView::Stop,
        }
    }
}

/// One step of a serving session: the state it leads to, what is to be
/// logged, in this order, and what is to be done next.
#[derive(Debug, PartialEq, Eq)]
pub struct ListenerStep {
    pub state: ListenerState,
    pub logs: Vec<LogRecord>,
    pub action: ListenerAction,
}

/// What a [`ListenerStep`] holds, with texts as sequences of characters.
pub struct ListenerStepView {
    pub state: ListenerState,
    pub logs: Seq<LogRecordView>,
    pub action: ListenerActionView,
}

impl View for ListenerStep {
    type V = ListenerStepView;

    open spec fn view(&self) -> ListenerStepView {
        ListenerStepView { state: self.state, logs: logs_view(self.logs@), action: self.action@ }
    }
}

/// The address that a server on `port` listens at.
pub open spec fn listen_address(port: usize) -> Seq<char> {
    "localhost:"@ + decimal(port as nat)
}

/// The step that opens the listener of a server on `port`: the opening is
/// logged at level `Info`, and the listener is to be bound.
pub open spec fn open_step(port: usize) -> ListenerStepView {
    ListenerStepView {
        state: ListenerState::Binding,
        logs: seq![
            LogRecordView {
                level: LogLevel::Info,
                message: "Opened listener on http://"@ + listen_address(port),
            },
        ],
        action: ListenerActionView::Bind { address: listen_address(port) },
    }
}

/// The step that begins a session in which a server on `port` serves the
/// directory `path`: this is logged at level `Info`, then the listener is
/// opened.
pub open spec fn start_step(port: usize, path: Seq<char>) -> ListenerStepView {
    ListenerStepView {
        logs: seq![
            LogRecordView {
                level: LogLevel::Info,
                message: "Serving static files from directory "@ + path,
            },
        ] + open_step(port).logs,
        ..open_step(port)
    }
}

/// The step that goes on to the next connection without a word.
pub open spec fn accept_step() -> ListenerStepView {
    ListenerStepView {
        state: ListenerState::Serving,
        logs: Seq::empty(),
        action: ListenerActionView::Accept,
    }
}

/// The step that passes over `error`: it is logged at level `Error`, and
/// the session goes on to the next connection.
pub open spec fn skip_step(error: ServerErrorView) -> ListenerStepView {
    ListenerStepView {
        state: ListenerState::Serving,
        logs: seq![
            LogRecordView {
                level: LogLevel::Error,
                message: error_text(error.error_type, error.error_msg),
            },
        ],
        action: ListenerActionView::Accept,
    }
}

/// The step that ends the session over `error`: it is logged at level
/// `Critical`, and nothing more is served.
pub open spec fn stop_step(error: ServerErrorView) -> ListenerStepView {
    ListenerStepView {
        state: ListenerState::Stopped,
        logs: seq![
            LogRecordView {
                level: LogLevel::Critical,
                message: error_text(error.error_type, error.error_msg),
            },
        ],
        action: ListenerActionView::Stop,
    }
}

/// The step that `event` leads to from `state`. There is none where the
/// event cannot happen in the state.
///
/// - A port that cannot be bound ends the session with `BadPort`. Once the
///   port is bound, connections are accepted.
/// - A connection that comes in is handled. One that cannot be accepted is
///   passed over with `ConnFail`.
/// - When the handling of a connection ends with an error, an error that is
///   fatal to the session ends it, and any other error is passed over.
pub open spec fn listener_step(state: ListenerState, event: ListenerEventView) -> Option<
    ListenerStepView,
> {
    match (state, event) {
        (ListenerState::Binding, ListenerEventView::Bound) => Some(accept_step()),
        (ListenerState::Binding, ListenerEventView::BindFailed) => Some(
            stop_step(server_error(ServerErrorType::BadPort)),
        ),
        (ListenerState::Serving, ListenerEventView::Accepted) => Some(
            ListenerStepView {
                state: ListenerState::Serving,
                logs: Seq::empty(),
                action: ListenerActionView::Handle,
            },
        ),
        (ListenerState::Serving, ListenerEventView::AcceptFailed) => Some(
            skip_step(server_error(ServerErrorType::ConnFail)),
        ),
        (ListenerState::Serving, ListenerEventView::Handled(Ok(_))) => Some(accept_step()),
        (ListenerState::Serving, ListenerEventView::Handled(Err(error))) => Some(
            if error.error_type.is_fatal() {
                stop_step(error)
            } else {
                skip_step(error)
            },
        ),
        _ => None,
    }
}

/// One failing connection does not end the session: while connections are
/// served, the session goes on after every event but the end of a handling
/// with an error that is fatal to the session.
pub proof fn lemma_session_outlives_connections(event: ListenerEventView)
    ensures
        match listener_step(ListenerState::Serving, event) {
            Some(step) => step.state == ListenerState::Serving || (event matches ListenerEventView::Handled(
                Err(error),
            ) && error.error_type.is_fatal() && step.state == ListenerState::Stopped),
            None => event == ListenerEventView::Bound || event == ListenerEventView::BindFailed,
        },
{
}

/// A session that is over stays over: nothing happens in it any more.
pub proof fn lemma_stopped_is_final(event: ListenerEventView)
    ensures
        listener_step(ListenerState::Stopped, event) is None,
{
}

/// The address that a server on `port` listens at.
pub fn get_listen_address(port: usize) -> (address: String)
    ensures
        address@ == listen_address(port),
{
    String::from_str("localhost:").concat(decimal_string(port as u64).as_str())
}

/// A step without anything to log.
fn quiet(state: ListenerState, action: ListenerAction) -> (step: ListenerStep)
    ensures
        step@ == (ListenerStepView { state, logs: Seq::empty(), action: action@ }),
{
    let step = ListenerStep { state, logs: Vec::new(), action };
    assert(step@.logs =~= Seq::empty());
    step
}

/// A step with the report of `error` to log at `level`.
fn report(state: ListenerState, level: LogLevel, error: &ServerError, action: ListenerAction) -> (step:
    ListenerStep)
    ensures
        step@ == (ListenerStepView {
            state,
            logs: seq![
                LogRecordView { level, message: error_text(error.error_type, error.error_msg@) },
            ],
            action: action@,
        }),
{
    let mut logs: Vec<LogRecord> = Vec::new();
    logs.push(LogRecord { level, message: error.to_string() });
    let step = ListenerStep { state, logs, action };
    assert(step@.logs =~= seq![
        LogRecordView { level, message: error_text(error.error_type, error.error_msg@) },
    ]);
    step
}

/// Decides how a serving session goes on: given how far the session has
/// come and what happened last, says what is to be logged and what is to be
/// done next. The caller binds, accepts and handles; nothing of that is
/// done here.
///
/// The session begins with the step of `Server::serve_static`, in the state
/// `Binding`, and ends with the action `Stop`. An event that cannot happen
/// in the state leads nowhere: `None`.
pub fn next_listener_step(state: ListenerState, event: ListenerEvent) -> (next: Option<
    ListenerStep,
>)
    ensures
        match listener_step(state, event@) {
            Some(expected) => next matches Some(step) && step@ == expected,
            None => next is None,
        },
{
    match (state, event) {
        (ListenerState::Binding, ListenerEvent::Bound) => Some(
            quiet(ListenerState::Serving, ListenerAction::Accept),
        ),
        (ListenerState::Binding, ListenerEvent::BindFailed) => Some(
            report(
                ListenerState::Stopped,
                LogLevel::Critical,
                &ServerError::new(ServerErrorType::BadPort),
                ListenerAction::Stop,
            ),
        ),
        (ListenerState::Serving, ListenerEvent::Accepted) => Some(
            quiet(ListenerState::Serving, ListenerAction::Handle),
        ),
        (ListenerState::Serving, ListenerEvent::AcceptFailed) => Some(
            report(
                ListenerState::Serving,
                LogLevel::Error,
                &ServerError::new(ServerErrorType::ConnFail),
                ListenerAction::Accept,
            ),
        ),
        (ListenerState::Serving, ListenerEvent::Handled(Ok(_))) => Some(
            quiet(ListenerState::Serving, ListenerAction::Accept),
        ),
        (ListenerState::Serving, ListenerEvent::Handled(Err(error))) => Some(
            if error.error_type.is_fatal() {
                report(ListenerState::Stopped, LogLevel::Critical, &error, ListenerAction::Stop)
            } else {
                report(ListenerState::Serving, LogLevel::Error, &error, ListenerAction::Accept)
            },
        ),
        _ => None,
    }
}

} // verus!
