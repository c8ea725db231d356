pub mod connection;
pub mod error;
pub mod error_file_system;
pub mod listener;
pub mod log;
pub mod request;
pub mod response;
pub mod text;

pub use connection::{
    get_files, handle_static_request, ConnectionAction, ConnectionEvent, ConnectionState,
    ConnectionStep, DirectoryListing,
};
pub use error::{http_response_from_code, ServerError, ServerErrorType};
pub use error_file_system::{get_default_error_file_for, ErrorFileSystem};
pub use listener::{
    next_listener_step, ListenerAction, ListenerEvent, ListenerState, ListenerStep,
};
pub use log::{get_readable_loglevel, LogLevel, LogOutput, LogRecord};
pub use request::parse_requested_path;
pub use response::{get_file_extension, get_mime_type_header, serialize, ServeDetails};

use listener::{get_listen_address, open_step, start_step};
use log::{log_output, write_log};
use vstd::prelude::*;

verus! {

/// A static server: the configuration of one. Making a server starts
/// nothing.
pub struct Server {
    port: usize,
    log_level: LogLevel,
    error_files: ErrorFileSystem,
}

/// What a [`Server`] holds: the port to listen on, the lowest level of the
/// messages that are shown on the console, and the custom error pages, by
/// status code.
pub struct ServerView {
    pub port: usize,
    pub log_level: LogLevel,
    pub error_files: Map<i32, Seq<char>>,
}

impl View for Server {
    type V = ServerView;

    closed spec fn view(&self) -> ServerView {
        ServerView {
            port: self.port,
            log_level: self.log_level,
            error_files: self.error_files@,
        }
    }
}

impl Server {
    /// Creates a new server on port `port`. The console shows the messages
    /// from level `Error` up, and no custom error page is registered.
    /// Note: does not start the server upon construction.
    pub fn new(port: usize) -> (server: Server)
        ensures
            server@ == (ServerView {
                port,
                log_level: LogLevel::Error,
                error_files: Map::<i32, Seq<char>>::empty(),
            }),
    {
        Server { port, log_level: LogLevel::Error, error_files: ErrorFileSystem::new() }
    }

    /// The port that the server listens on.
    pub fn port(&self) -> (port: usize)
        ensures
            port == self@.port,
    {
        self.port
    }

    /// The lowest level of the messages that are shown on the console.
    pub fn log_level(&self) -> (lvl: LogLevel)
        ensures
            lvl == self@.log_level,
    {
        self.log_level
    }

    /// The error pages of the server.
    pub fn error_files(&self) -> (error_files: &ErrorFileSystem)
        ensures
            error_files@ == self@.error_files,
    {
        &self.error_files
    }

    /// Adjusts the minimum log level of which to console logs to.
    pub fn set_log_level(&mut self, lvl: LogLevel)
        ensures
            final(self)@ == (ServerView { log_level: lvl, ..old(self)@ }),
    {
        self.log_level = lvl;
    }

    /// Works out what logging `msg` at level `lvl` comes to: the line for
    /// the log file, and whether the line is shown on the console as well,
    /// which it is if `lvl` reaches the server's log level.
    pub fn log(&self, msg: &str, lvl: LogLevel) -> (output: LogOutput)
        ensures
            output@ == log_output(self@.log_level, lvl, msg@),
    {
        write_log(self.log_level, lvl, msg)
    }

    /// Begins a session that serves the files of the directory `path`:
    /// returns the first step of the session, which logs the start and asks
    /// for the listener to be bound. How the session goes on from there is
    /// decided by `next_listener_step`.
    pub fn serve_static(&self, path: &str) -> (step: ListenerStep)
        ensures
            step@ == start_step(self@.port, path@),
    {
        let opened = self.open_listener();
        let mut logs: Vec<LogRecord> = Vec::new();
        logs.push(
            LogRecord {
                level: LogLevel::Info,
                message: String::from_str("Serving static files from directory ").concat(path),
            },
        );
        let mut opened_logs = opened.logs;
        logs.append(&mut opened_logs);
        let step = ListenerStep { state: opened.state, logs, action: opened.action };
        assert(step@.logs =~= start_step(self@.port, path@).logs);
        step
    }

    /// The step that opens the listener on the server's port: it logs the
    /// opening and asks for the listener to be bound.
    pub fn open_listener(&self) -> (step: ListenerStep)
        ensures
            step@ == open_step(self@.port),
    {
        let address = get_listen_address(self.port);
        let mut logs: Vec<LogRecord> = Vec::new();
        logs.push(
            LogRecord {
                level: LogLevel::Info,
                message: String::from_str("Opened listener on http://").concat(address.as_str()),
            },
        );
        let step = ListenerStep {
            state: ListenerState::Binding,
            logs,
            action: ListenerAction::Bind { address },
        };
        assert(step@.logs =~= open_step(self@.port).logs);
        step
    }

    /// Adds a custom error file to be served in the static server.
    /// Whenever an error of HTTP code `code` is thrown, the page at
    /// `file_path` will be served to the client, in place of the page that
    /// was served for `code` before.
    pub fn add_custom_error_file(&mut self, code: i32, file_path: &str)
        ensures
            final(self)@ == (ServerView {
                error_files: old(self)@.error_files.insert(code, file_path@),
                ..old(self)@
            }),
    {
        self.error_files.add_error_file(code, String::from_str(file_path));
    }
}

} // verus!
