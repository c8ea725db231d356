use crate::server::error::{server_error, ServerError, ServerErrorType, ServerErrorView};
use crate::server::error_file_system::{error_file, ErrorFileSystem};
use crate::server::log::{LogLevel, LogRecord, LogRecordView};
use crate::server::request::{
    is_resource, lemma_rebuild_then_parse, parse_requested_path, request_line,
    requested_resource,
};
use crate::server::response::{
    lemma_response_shape, response_text, serialize, status_line, ServeDetails, ServeDetailsView,
};
use crate::server::text::{same_text, signed_decimal, signed_decimal_string};
use vstd::prelude::*;

verus! {

/// The paths in `paths`, each as a sequence of characters.
pub open spec fn paths_view(paths: Seq<String>) -> Seq<Seq<char>> {
    paths.map_values(|path: String| path@)
}

/// What came of listing the served directory.
#[derive(Debug, PartialEq, Eq)]
pub enum DirectoryListing {
    /// The directory could not be opened for listing.
    Unreadable,
    /// The directory was opened, but one of its entries could not be read.
    EntryUnreadable,
    /// The paths of the directory's immediate children.
    Entries(Vec<String>),
}

/// What a [`DirectoryListing`] holds, with each path as a sequence of characters.
pub enum DirectoryListingView {
    Unreadable,
    EntryUnreadable,
    Entries(Seq<Seq<char>>),
}

impl View for DirectoryListing {
    type V = DirectoryListingView;

    open spec fn view(&self) -> DirectoryListingView {
        match self {
            DirectoryListing::Unreadable => DirectoryListingView::Unreadable,
            DirectoryListing::EntryUnreadable => DirectoryListingView::EntryUnreadable,
            DirectoryListing::Entries(paths) => DirectoryListingView::Entries(paths_view(paths@)),
        }
    }
}

/// The files that a listing found, or the error that the listing ended in:
/// `BadDirectory` where the directory could not be opened, `ReadFail` where
/// an entry could not be read.
pub open spec fn files_of(listing: DirectoryListingView) -> Result<Seq<Seq<char>>, ServerErrorView> {
    match listing {
        DirectoryListingView::Unreadable => Err(server_error(ServerErrorType::BadDirectory)),
        DirectoryListingView::EntryUnreadable => Err(server_error(ServerErrorType::ReadFail)),
        DirectoryListingView::Entries(paths) => Ok(paths),
    }
}

/// Returns the files that a listing of the served directory found, or the
/// error that the listing ended in.
pub fn get_files(listing: DirectoryListing) -> (files: Result<Vec<String>, ServerError>)
    ensures
        match files_of(listing@) {
            Ok(expected) => files matches Ok(paths) && paths_view(paths@) == expected,
            Err(expected) => files matches Err(error) && error@ == expected,
        },
{
    match listing {
        DirectoryListing::Unreadable => Err(ServerError::new(ServerErrorType::BadDirectory)),
        DirectoryListing::EntryUnreadable => Err(ServerError::new(ServerErrorType::ReadFail)),
        DirectoryListing::Entries(paths) => Ok(paths),
    }
}

/// The resource that is looked for when `resource` is asked for: the index
/// page stands for the root, every other resource for itself.
pub open spec fn effective_resource(resource: Seq<char>) -> Seq<char> {
    if resource == "/"@ {
        "/index.html"@
    } else {
        resource
    }
}

/// The path of the file that a request asks for, where `root` is the served
/// directory and `first_line` the first line of the request: the root
/// followed by the resource, as they are. There is none where the request
/// has no first line, or one that is not a request line.
pub open spec fn wanted_file(root: Seq<char>, first_line: Option<Seq<char>>) -> Option<Seq<char>> {
    match first_line {
        Some(line) => match requested_resource(line) {
            Some(resource) => Some(root + effective_resource(resource)),
            None => None,
        },
        None => None,
    }
}

/// What answers a request that cannot be understood: the page for status 400.
pub open spec fn bad_request(root: Seq<char>, custom_paths: Map<i32, Seq<char>>)
    -> ServeDetailsView {
    ServeDetailsView { path: error_file(custom_paths, root, 400), code: 400 }
}

/// What answers a request for the file at `wanted` when `paths` are the
/// files of the served directory: the file itself with status 200 if its
/// path is among them, character for character, else the page for status 404.
pub open spec fn found_or_missing(
    paths: Seq<Seq<char>>,
    wanted: Seq<char>,
    root: Seq<char>,
    custom_paths: Map<i32, Seq<char>>,
) -> ServeDetailsView {
    if paths.contains(wanted) {
        ServeDetailsView { path: wanted, code: 200 }
    } else {
        ServeDetailsView { path: error_file(custom_paths, root, 404), code: 404 }
    }
}

/// The message that reports what is served in answer to a request.
pub open spec fn serving_message(details: ServeDetailsView) -> Seq<char> {
    "Serving "@ + details.path + " with status "@ + signed_decimal(details.code as int)
}

/// How far the handling of a connection has come, which is also what it
/// waits for next.
#[derive(Debug, PartialEq, Eq)]
pub enum ConnectionState {
    /// Nothing was read yet: the first line of the request is awaited.
    AwaitingRequest,
    /// The request asks for the file at `wanted`: the listing of the served
    /// directory is awaited.
    AwaitingListing { wanted: String },
    /// It is decided what to serve: the contents of the file are awaited.
    AwaitingFile { details: ServeDetails },
    /// The response is handed out: the end of its sending is awaited.
    AwaitingWrite,
    /// The connection is done with.
    Closed,
}

/// What a [`ConnectionState`] holds, with texts as sequences of characters.
pub enum ConnectionStateView {
    AwaitingRequest,
    AwaitingListing { wanted: Seq<char> },
    AwaitingFile { details: ServeDetailsView },
    AwaitingWrite,
    Closed,
}

impl View for ConnectionState {
    type V = ConnectionStateView;

    open spec fn view(&self) -> ConnectionStateView {
        match self {
            ConnectionState::AwaitingRequest => ConnectionStateView::AwaitingRequest,
            ConnectionState::AwaitingListing { wanted } => ConnectionStateView::AwaitingListing {
                wanted: wanted@,
            },
            ConnectionState::AwaitingFile { details } => ConnectionStateView::AwaitingFile {
                details: details@,
            },
            ConnectionState::AwaitingWrite => ConnectionStateView::AwaitingWrite,
            ConnectionState::Closed => ConnectionStateView::Closed,
        }
    }
}

/// What happened on a connection, or for it, since the last step.
#[derive(Debug, PartialEq, Eq)]
pub enum ConnectionEvent {
    /// The first line of the request was read, or there was none to read:
    /// the client sent nothing, or nothing that is text.
    RequestLine(Option<String>),
    /// The served directory was listed, or an attempt to list it failed.
    Listing(DirectoryListing),
    /// The file to serve was read, or could not be read.
    FileContents(Option<String>),
    /// The response was sent in full, or the sending failed.
    Written(bool),
}

/// What a [`ConnectionEvent`] holds, with texts as sequences of characters.
pub enum ConnectionEventView {
    RequestLine(Option<Seq<char>>),
    Listing(DirectoryListingView),
    FileContents(Option<Seq<char>>),
    Written(bool),
}

impl View for ConnectionEvent {
    type V = ConnectionEventView;

    open spec fn view(&self) -> ConnectionEventView {
        match self {
            ConnectionEvent::RequestLine(line) => ConnectionEventView::RequestLine(
                match line {
                    Some(line) => Some(line@),
                    None => None,
                },
            ),
            ConnectionEvent::Listing(listing) => ConnectionEventView::Listing(listing@),
            ConnectionEvent::FileContents(contents) => ConnectionEventView::FileContents(
                match contents {
                    Some(contents) => Some(contents@),
                    None => None,
                },
            ),
            ConnectionEvent::Written(done) => ConnectionEventView::Written(*done),
        }
    }
}

/// What is to be done for a connection next.
#[derive(Debug, PartialEq, Eq)]
pub enum ConnectionAction {
    /// List the served directory.
    ListDirectory,
    /// Log `log`, and read the file at `path`.
    ReadFile { path: String, log: LogRecord },
    /// Send `response` to the client.
    Write { response: String },
    /// Close the connection, and report `result` as what came of it.
    Close { result: Result<(), ServerError> },
}

/// What a [`ConnectionAction`] holds, with texts as sequences of characters.
pub enum ConnectionActionView {
    ListDirectory,
    ReadFile { path: Seq<char>, log: LogRecordView },
    Write { response: Seq<char> },
    Close { result: Result<(), ServerErrorView> },
}

impl View for ConnectionAction {
    type V = ConnectionActionView;

    open spec fn view(&self) -> ConnectionActionView {
        match self {
            ConnectionAction::ListDirectory => ConnectionActionView::ListDirectory,
            ConnectionAction::ReadFile { path, log } => ConnectionActionView::ReadFile {
                path: path@,
                log: log@,
            },
            ConnectionAction::Write { response } => ConnectionActionView::Write {
                response: response@,
            },
            ConnectionAction::Close { result } => ConnectionActionView::Close {
                result: match result {
                    Ok(_) => Ok(()),
                    Err(error) => Err(error@),
                },
            },
        }
    }
}

/// One step in the handling of a connection: the state it leads to, and
/// what is to be done next.
#[derive(Debug, PartialEq, Eq)]
pub struct ConnectionStep {
    pub state: ConnectionState,
    pub action: ConnectionAction,
}

/// What a [`ConnectionStep`] holds, with texts as sequences of characters.
pub struct ConnectionStepView {
    pub state: ConnectionStateView,
    pub action: ConnectionActionView,
}

impl View for ConnectionStep {
    type V = ConnectionStepView;

    open spec fn view(&self) -> ConnectionStepView {
        ConnectionStepView { state: self.state@, action: self.action@ }
    }
}

/// The step that follows the decision to serve `details`: the serving is
/// logged at level `Info`, and the file is to be read.
pub open spec fn read_file_step(details: ServeDetailsView) -> ConnectionStepView {
    ConnectionStepView {
        state: ConnectionStateView::AwaitingFile { details },
        action: ConnectionActionView::ReadFile {
            path: details.path,
            log: LogRecordView { level: LogLevel::Info, message: serving_message(details) },
        },
    }
}

/// The step that ends the handling of a connection with `result`.
pub open spec fn close_step(result: Result<(), ServerErrorView>) -> ConnectionStepView {
    ConnectionStepView {
        state: ConnectionStateView::Closed,
        action: ConnectionActionView::Close { result },
    }
}

/// The step that `event` leads to from `state`, where `root` is the served
/// directory and `custom_paths` the registered error pages. There is none
/// where the event is not the one that the state waits for.
///
/// - The first line of the request decides which file is wanted; for that
///   file the served directory is listed. Without a first line, or with one
///   that is not a request line, the page for status 400 is served.
/// - The listing decides what is served: the wanted file with status 200,
///   or the page for status 404. A failed listing closes the connection
///   with the error of the listing, and nothing is sent.
/// - The contents of the file to serve make the response. A file that
///   cannot be read closes the connection with `ReadFail`, and nothing is
///   sent: no other page is tried.
/// - A response sent in full closes the connection with success, one that
///   could not be sent closes it with `ReadFail`.
pub open spec fn connection_step(
    state: ConnectionStateView,
    event: ConnectionEventView,
    root: Seq<char>,
    custom_paths: Map<i32, Seq<char>>,
) -> Option<ConnectionStepView> {
    match (state, event) {
        (ConnectionStateView::AwaitingRequest, ConnectionEventView::RequestLine(first_line)) => Some(
            match wanted_file(root, first_line) {
                Some(wanted) => ConnectionStepView {
                    state: ConnectionStateView::AwaitingListing { wanted },
                    action: ConnectionActionView::ListDirectory,
                },
                None => read_file_step(bad_request(root, custom_paths)),
            },
        ),
        (
            ConnectionStateView::AwaitingListing { wanted },
            ConnectionEventView::Listing(listing),
        ) => Some(
            match files_of(listing) {
                Ok(paths) => read_file_step(found_or_missing(paths, wanted, root, custom_paths)),
                Err(error) => close_step(Err(error)),
            },
        ),
        (
            ConnectionStateView::AwaitingFile { details },
            ConnectionEventView::FileContents(contents),
        ) => Some(
            match contents {
                Some(body) => ConnectionStepView {
                    state: ConnectionStateView::AwaitingWrite,
                    action: ConnectionActionView::Write {
                        response: response_text(details.code, details.path, body),
                    },
                },
                None => close_step(Err(server_error(ServerErrorType::ReadFail))),
            },
        ),
        (ConnectionStateView::AwaitingWrite, ConnectionEventView::Written(done)) => Some(
            close_step(
                if done {
                    Ok(())
                } else {
                    Err(server_error(ServerErrorType::ReadFail))
                },
            ),
        ),
        _ => None,
    }
}

/// How far `state` is along the handling of a connection.
pub open spec fn progress(state: ConnectionStateView) -> nat {
    match state {
        ConnectionStateView::AwaitingRequest => 0,
        ConnectionStateView::AwaitingListing { .. } => 1,
        ConnectionStateView::AwaitingFile { .. } => 2,
        ConnectionStateView::AwaitingWrite => 3,
        ConnectionStateView::Closed => 4,
    }
}

/// Every step brings the handling of a connection forward, so the handling
/// ends after four steps at most, and a closed connection takes no step.
/// On the way, what to serve is decided once and one response is sent at
/// most: a file is asked for only by the step that leads to `AwaitingFile`,
/// a response is sent only by the step that leads to `AwaitingWrite`, and
/// the connection is closed only by the step that leads to `Closed`.
pub proof fn lemma_connection_advances(
    state: ConnectionStateView,
    event: ConnectionEventView,
    root: Seq<char>,
    custom_paths: Map<i32, Seq<char>>,
)
    ensures
        state is Closed ==> connection_step(state, event, root, custom_paths) is None,
        connection_step(state, event, root, custom_paths) matches Some(step) ==> {
            &&& progress(step.state) > progress(state)
            &&& step.action is ListDirectory <==> step.state is AwaitingListing
            &&& step.action is ReadFile <==> step.state is AwaitingFile
            &&& step.action is Write <==> step.state is AwaitingWrite
            &&& step.action is Close <==> step.state is Closed
        },
{
}

/// A request for the root is answered as a request for the index page is:
/// both ask for the index page of the served directory, whatever the
/// directory holds, so whatever follows is the same for both.
pub proof fn lemma_root_serves_index(root: Seq<char>, custom_paths: Map<i32, Seq<char>>)
    ensures
        is_resource("/"@),
        is_resource("/index.html"@),
        connection_step(
            ConnectionStateView::AwaitingRequest,
            ConnectionEventView::RequestLine(Some(request_line("/"@))),
            root,
            custom_paths,
        ) == connection_step(
            ConnectionStateView::AwaitingRequest,
            ConnectionEventView::RequestLine(Some(request_line("/index.html"@))),
            root,
            custom_paths,
        ),
        connection_step(
            ConnectionStateView::AwaitingRequest,
            ConnectionEventView::RequestLine(Some(request_line("/"@))),
            root,
            custom_paths,
        ) == Some(
            ConnectionStepView {
                state: ConnectionStateView::AwaitingListing { wanted: root + "/index.html"@ },
                action: ConnectionActionView::ListDirectory,
            },
        ),
{
    reveal_strlit("/");
    reveal_strlit("/index.html");
    assert(is_resource("/"@));
    assert(is_resource("/index.html"@));
    lemma_rebuild_then_parse("/"@);
    lemma_rebuild_then_parse("/index.html"@);
}

/// A request for a file that is not among the files of the served
/// directory is answered with status 404 and the page that is registered
/// for 404, or built in: that page is read, and the response carries the
/// status line of 404 and, as its body, what was read from the page.
pub proof fn lemma_missing_file_gets_404(
    first_line: Option<Seq<char>>,
    paths: Seq<Seq<char>>,
    body: Seq<char>,
    root: Seq<char>,
    custom_paths: Map<i32, Seq<char>>,
)
    requires
        wanted_file(root, first_line) is Some,
        !paths.contains(wanted_file(root, first_line)->0),
    ensures
        ({
            let page = ServeDetailsView { path: error_file(custom_paths, root, 404), code: 404 };
            let asked = connection_step(
                ConnectionStateView::AwaitingRequest,
                ConnectionEventView::RequestLine(first_line),
                root,
                custom_paths,
            );
            let listed = connection_step(
                asked->0.state,
                ConnectionEventView::Listing(DirectoryListingView::Entries(paths)),
                root,
                custom_paths,
            );
            let read = connection_step(
                listed->0.state,
                ConnectionEventView::FileContents(Some(body)),
                root,
                custom_paths,
            );
            &&& asked is Some && asked->0.action == ConnectionActionView::ListDirectory
            &&& listed == Some(read_file_step(page))
            &&& read is Some && read->0.action == (ConnectionActionView::Write {
                response: response_text(404, page.path, body),
            })
            &&& status_line(404).is_prefix_of(response_text(404, page.path, body))
            &&& ("\n\n"@ + body).is_suffix_of(response_text(404, page.path, body))
        }),
{
    lemma_response_shape(404, error_file(custom_paths, root, 404), body);
}

/// Returns the path of the file that a request asks for, where `serve_path`
/// is the served directory and `first_line` the first line of the request.
pub fn get_wanted_file(serve_path: &str, first_line: &Option<String>) -> (wanted: Option<String>)
    ensures
        match wanted_file(
            serve_path@,
            match first_line {
                Some(line) => Some(line@),
                None => None,
            },
        ) {
            Some(expected) => wanted matches Some(path) && path@ == expected,
            None => wanted is None,
        },
{
    match first_line {
        Some(line) => match parse_requested_path(line.as_str()) {
            Ok(requested_resource) => {
                let resource = if same_text(requested_resource, "/") {
                    "/index.html"
                } else {
                    requested_resource
                };
                Some(String::from_str(serve_path).concat(resource))
            },
            Err(_) => None,
        },
        None => None,
    }
}

/// Decides what answers a request for the file at `wanted`, where `paths`
/// are the files of the served directory `serve_path`.
pub fn find_file(
    paths: &Vec<String>,
    wanted: String,
    serve_path: &str,
    error_files: &ErrorFileSystem,
) -> (details: ServeDetails)
    ensures
        details@ == found_or_missing(paths_view(paths@), wanted@, serve_path@, error_files@),
{
    let mut i: usize = 0;
    while i < paths.len()
        invariant
            i <= paths.len(),
            forall|j: int| 0 <= j < i ==> paths_view(paths@)[j] != wanted@,
        decreases paths.len() - i,
    {
        if paths[i] == wanted {
            assert(paths_view(paths@)[i as int] == wanted@);
            return ServeDetails { path: wanted, code: 200 };
        }
        i = i + 1;
    }
    ServeDetails { path: error_files.get_error_file_for(serve_path, 404), code: 404 }
}

/// The step that follows the decision to serve `details`.
fn read_file(details: ServeDetails) -> (step: ConnectionStep)
    ensures
        step@ == read_file_step(details@),
{
    let mut message = String::from_str("Serving ");
    message.append(details.path.as_str());
    message.append(" with status ");
    message.append(signed_decimal_string(details.code).as_str());
    let path = details.path.clone();
    ConnectionStep {
        state: ConnectionState::AwaitingFile { details },
        action: ConnectionAction::ReadFile {
            path,
            log: LogRecord { level: LogLevel::Info, message },
        },
    }
}

/// The step that ends the handling of a connection with `result`.
fn close(result: Result<(), ServerError>) -> (step: ConnectionStep)
    ensures
        step@ == close_step(
            match result {
                Ok(_) => Ok(()),
                Err(error) => Err(error@),
            },
        ),
{
    ConnectionStep { state: ConnectionState::Closed, action: ConnectionAction::Close { result } }
}

/// Handles a request to the server, one step at a time: given how far the
/// handling of a connection has come and what happened last, decides what
/// is to be done next. The caller reads and writes; nothing is read or
/// written here.
///
/// The handling begins in the state `AwaitingRequest`, with the reading of
/// the first line of the request, and ends with the action `Close`. An
/// event that the state does not wait for leads nowhere: `None`.
pub fn handle_static_request(
    state: ConnectionState,
    event: ConnectionEvent,
    serve_path: &str,
    error_files: &ErrorFileSystem,
) -> (next: Option<ConnectionStep>)
    ensures
        match connection_step(state@, event@, serve_path@, error_files@) {
            Some(expected) => next matches Some(step) && step@ == expected,
            None => next is None,
        },
{
    match (state, event) {
        (ConnectionState::AwaitingRequest, ConnectionEvent::RequestLine(first_line)) => Some(
            match get_wanted_file(serve_path, &first_line) {
                Some(wanted) => ConnectionStep {
                    state: ConnectionState::AwaitingListing { wanted },
                    action: ConnectionAction::ListDirectory,
                },
                None => read_file(
                    ServeDetails {
                        path: error_files.get_error_file_for(serve_path, 400),
                        code: 400,
                    },
                ),
            },
        ),
        (ConnectionState::AwaitingListing { wanted }, ConnectionEvent::Listing(listing)) => Some(
            match get_files(listing) {
                Ok(paths) => read_file(find_file(&paths, wanted, serve_path, error_files)),
                Err(error) => close(Err(error)),
            },
        ),
        (ConnectionState::AwaitingFile { details }, ConnectionEvent::FileContents(contents)) => Some(
            match contents {
                Some(body) => ConnectionStep {
                    state: ConnectionState::AwaitingWrite,
                    action: ConnectionAction::Write {
                        response: serialize(&details, body.as_str()),
                    },
                },
                None => close(Err(ServerError::new(ServerErrorType::ReadFail))),
            },
        ),
        (ConnectionState::AwaitingWrite, ConnectionEvent::Written(done)) => Some(
            close(
                if done {
                    Ok(())
                } else {
                    Err(ServerError::new(ServerErrorType::ReadFail))
                },
            ),
        ),
        _ => None,
    }
}

} // verus!
