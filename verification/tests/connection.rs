use apache_clone::server::{
    get_files, handle_static_request, ConnectionAction, ConnectionEvent, ConnectionState,
    ConnectionStep, DirectoryListing, ErrorFileSystem, LogLevel, LogRecord, ServeDetails,
    ServerError, ServerErrorType,
};

const ROOT: &str = "./public";

fn listing() -> DirectoryListing {
    DirectoryListing::Entries(vec![
        String::from("./public/index.html"),
        String::from("./public/style.css"),
        String::from("./public/400.html"),
        String::from("./public/404.html"),
    ])
}

fn contents_of(path: &str) -> Option<String> {
    match path {
        "./public/index.html" => Some(String::from("<h1>Hi</h1>")),
        "./public/style.css" => Some(String::from("h1 { color: red }")),
        "./public/400.html" => Some(String::from("<h1>Bad request</h1>")),
        "./public/404.html" => Some(String::from("<h1>Not found</h1>")),
        "/custom/404.html" => Some(String::from("<p>custom</p>")),
        _ => None,
    }
}

fn step(state: ConnectionState, event: ConnectionEvent, registry: &ErrorFileSystem) -> ConnectionStep {
    handle_static_request(state, event, ROOT, registry).unwrap()
}

fn serving(path: &str, code: i32) -> ConnectionStep {
    ConnectionStep {
        state: ConnectionState::AwaitingFile {
            details: ServeDetails { path: String::from(path), code },
        },
        action: ConnectionAction::ReadFile {
            path: String::from(path),
            log: LogRecord {
                level: LogLevel::Info,
                message: format!("Serving {} with status {}", path, code),
            },
        },
    }
}

/// Drives a connection from the request line to its end, as a caller would:
/// returns what was written, if anything, and what the handling ended with.
fn run(
    first_line: Option<&str>,
    listing: DirectoryListing,
    write_succeeds: bool,
    registry: &ErrorFileSystem,
) -> (Option<String>, Result<(), ServerError>) {
    let mut listing = Some(listing);
    let mut written = None;
    let mut state = ConnectionState::AwaitingRequest;
    let mut event = ConnectionEvent::RequestLine(first_line.map(String::from));
    loop {
        let next = step(state, event, registry);
        state = next.state;
        event = match next.action {
            ConnectionAction::ListDirectory => ConnectionEvent::Listing(listing.take().unwrap()),
            ConnectionAction::ReadFile { path, .. } => {
                ConnectionEvent::FileContents(contents_of(&path))
            }
            ConnectionAction::Write { response } => {
                written = Some(response);
                ConnectionEvent::Written(write_succeeds)
            }
            ConnectionAction::Close { result } => {
                assert_eq!(state, ConnectionState::Closed);
                return (written, result);
            }
        };
    }
}

#[test]
fn request_for_root_serves_index() {
    let registry = ErrorFileSystem::new();
    let (written, result) = run(Some("GET / HTTP/1.1"), listing(), true, &registry);
    assert_eq!(
        written.unwrap(),
        "HTTP/1.1 200 OK\nContent-Length: 11\nContent-Type: text/html\n\n<h1>Hi</h1>"
    );
    assert_eq!(result, Ok(()));
}

#[test]
fn request_for_root_asks_for_the_same_file_as_request_for_index() {
    let registry = ErrorFileSystem::new();
    let for_root = step(
        ConnectionState::AwaitingRequest,
        ConnectionEvent::RequestLine(Some(String::from("GET / HTTP/1.1"))),
        &registry,
    );
    let for_index = step(
        ConnectionState::AwaitingRequest,
        ConnectionEvent::RequestLine(Some(String::from("GET /index.html HTTP/1.1"))),
        &registry,
    );
    assert_eq!(for_root, for_index);
    assert_eq!(
        for_root,
        ConnectionStep {
            state: ConnectionState::AwaitingListing {
                wanted: String::from("./public/index.html"),
            },
            action: ConnectionAction::ListDirectory,
        }
    );
    let (root_response, _) = run(Some("GET / HTTP/1.1"), listing(), true, &registry);
    let (index_response, _) = run(Some("GET /index.html HTTP/1.1"), listing(), true, &registry);
    assert_eq!(root_response, index_response);
}

#[test]
fn request_for_a_file_serves_it() {
    let registry = ErrorFileSystem::new();
    let (written, result) = run(Some("GET /style.css HTTP/1.1"), listing(), true, &registry);
    assert_eq!(
        written.unwrap(),
        "HTTP/1.1 200 OK\nContent-Length: 17\nContent-Type: text/css\n\nh1 { color: red }"
    );
    assert_eq!(result, Ok(()));
}

#[test]
fn request_for_a_missing_file_serves_the_404_page() {
    let registry = ErrorFileSystem::new();
    let (written, result) = run(Some("GET /missing.html HTTP/1.1"), listing(), true, &registry);
    assert_eq!(
        written.unwrap(),
        "HTTP/1.1 404 Not Found\nContent-Length: 18\nContent-Type: text/html\n\n<h1>Not found</h1>"
    );
    assert_eq!(result, Ok(()));
}

#[test]
fn missing_file_step_by_step() {
    let registry = ErrorFileSystem::new();
    let asked = step(
        ConnectionState::AwaitingRequest,
        ConnectionEvent::RequestLine(Some(String::from("GET /missing.html HTTP/1.1"))),
        &registry,
    );
    assert_eq!(
        asked,
        ConnectionStep {
            state: ConnectionState::AwaitingListing {
                wanted: String::from("./public/missing.html"),
            },
            action: ConnectionAction::ListDirectory,
        }
    );
    let listed = step(asked.state, ConnectionEvent::Listing(listing()), &registry);
    assert_eq!(listed, serving("./public/404.html", 404));
    let read = step(
        listed.state,
        ConnectionEvent::FileContents(Some(String::from("gone"))),
        &registry,
    );
    assert_eq!(
        read,
        ConnectionStep {
            state: ConnectionState::AwaitingWrite,
            action: ConnectionAction::Write {
                response: String::from(
                    "HTTP/1.1 404 Not Found\nContent-Length: 4\nContent-Type: text/html\n\ngone"
                ),
            },
        }
    );
    let sent = step(read.state, ConnectionEvent::Written(true), &registry);
    assert_eq!(
        sent,
        ConnectionStep {
            state: ConnectionState::Closed,
            action: ConnectionAction::Close { result: Ok(()) },
        }
    );
}

#[test]
fn empty_request_serves_the_400_page() {
    let registry = ErrorFileSystem::new();
    let (written, result) = run(None, listing(), true, &registry);
    assert_eq!(
        written.unwrap(),
        "HTTP/1.1 400 Bad Request\nContent-Length: 20\nContent-Type: text/html\n\n<h1>Bad request</h1>"
    );
    assert_eq!(result, Ok(()));
}

#[test]
fn empty_request_needs_no_listing() {
    let registry = ErrorFileSystem::new();
    let first = step(
        ConnectionState::AwaitingRequest,
        ConnectionEvent::RequestLine(None),
        &registry,
    );
    assert_eq!(first, serving("./public/400.html", 400));
}

#[test]
fn malformed_request_serves_the_400_page() {
    let registry = ErrorFileSystem::new();
    for line in ["", "POST / HTTP/1.1", "GET /index.html HTTP/1.0", "GET /a b HTTP/1.1", "hello"] {
        let first = step(
            ConnectionState::AwaitingRequest,
            ConnectionEvent::RequestLine(Some(String::from(line))),
            &registry,
        );
        assert_eq!(first, serving("./public/400.html", 400));
        let (written, result) = run(Some(line), listing(), true, &registry);
        assert_eq!(
            written.unwrap(),
            "HTTP/1.1 400 Bad Request\nContent-Length: 20\nContent-Type: text/html\n\n<h1>Bad request</h1>"
        );
        assert_eq!(result, Ok(()));
    }
}

#[test]
fn custom_404_page_is_served_on_a_miss() {
    let mut registry = ErrorFileSystem::new();
    registry.add_error_file(404, String::from("/custom/404.html"));
    let (written, result) = run(Some("GET /missing.html HTTP/1.1"), listing(), true, &registry);
    assert_eq!(
        written.unwrap(),
        "HTTP/1.1 404 Not Found\nContent-Length: 13\nContent-Type: text/html\n\n<p>custom</p>"
    );
    assert_eq!(result, Ok(()));
}

#[test]
fn custom_400_page_is_served_on_an_empty_request() {
    let mut registry = ErrorFileSystem::new();
    registry.add_error_file(400, String::from("/custom/404.html"));
    let first = step(
        ConnectionState::AwaitingRequest,
        ConnectionEvent::RequestLine(None),
        &registry,
    );
    assert_eq!(first, serving("/custom/404.html", 400));
}

#[test]
fn custom_page_does_not_change_a_hit() {
    let mut registry = ErrorFileSystem::new();
    registry.add_error_file(404, String::from("/custom/404.html"));
    let (written, _) = run(Some("GET /index.html HTTP/1.1"), listing(), true, &registry);
    assert_eq!(
        written.unwrap(),
        "HTTP/1.1 200 OK\nContent-Length: 11\nContent-Type: text/html\n\n<h1>Hi</h1>"
    );
}

#[test]
fn paths_are_matched_as_they_are() {
    let registry = ErrorFileSystem::new();
    for line in [
        "GET /index.html/ HTTP/1.1",
        "GET //index.html HTTP/1.1",
        "GET /./index.html HTTP/1.1",
        "GET /INDEX.HTML HTTP/1.1",
        "GET index.html HTTP/1.1",
        "GET /index.htm HTTP/1.1",
        "GET /index.html?x=1 HTTP/1.1",
        "GET /sub/../index.html HTTP/1.1",
    ] {
        let asked = step(
            ConnectionState::AwaitingRequest,
            ConnectionEvent::RequestLine(Some(String::from(line))),
            &registry,
        );
        let listed = step(asked.state, ConnectionEvent::Listing(listing()), &registry);
        assert_eq!(listed, serving("./public/404.html", 404));
    }
}

#[test]
fn root_is_joined_to_the_resource_as_it_is() {
    let registry = ErrorFileSystem::new();
    let asked = handle_static_request(
        ConnectionState::AwaitingRequest,
        ConnectionEvent::RequestLine(Some(String::from("GET /index.html HTTP/1.1"))),
        "./public/",
        &registry,
    )
    .unwrap();
    assert_eq!(
        asked.state,
        ConnectionState::AwaitingListing { wanted: String::from("./public//index.html") }
    );
    let listed =
        handle_static_request(asked.state, ConnectionEvent::Listing(listing()), "./public/", &registry)
            .unwrap();
    assert_eq!(
        listed.state,
        ConnectionState::AwaitingFile {
            details: ServeDetails { path: String::from("./public//404.html"), code: 404 },
        }
    );
}

#[test]
fn empty_directory_serves_the_404_page() {
    let registry = ErrorFileSystem::new();
    let asked = step(
        ConnectionState::AwaitingRequest,
        ConnectionEvent::RequestLine(Some(String::from("GET / HTTP/1.1"))),
        &registry,
    );
    let listed = step(
        asked.state,
        ConnectionEvent::Listing(DirectoryListing::Entries(Vec::new())),
        &registry,
    );
    assert_eq!(listed, serving("./public/404.html", 404));
}

#[test]
fn unreadable_directory_closes_without_a_response() {
    let registry = ErrorFileSystem::new();
    let (written, result) =
        run(Some("GET / HTTP/1.1"), DirectoryListing::Unreadable, true, &registry);
    assert_eq!(written, None);
    assert_eq!(result, Err(ServerError::new(ServerErrorType::BadDirectory)));
}

#[test]
fn unreadable_entry_closes_without_a_response() {
    let registry = ErrorFileSystem::new();
    let (written, result) =
        run(Some("GET / HTTP/1.1"), DirectoryListing::EntryUnreadable, true, &registry);
    assert_eq!(written, None);
    assert_eq!(result, Err(ServerError::new(ServerErrorType::ReadFail)));
}

#[test]
fn unreadable_file_closes_without_a_response() {
    let registry = ErrorFileSystem::new();
    let entries = DirectoryListing::Entries(vec![String::from("./public/ghost.html")]);
    let (written, result) = run(Some("GET /ghost.html HTTP/1.1"), entries, true, &registry);
    assert_eq!(written, None);
    assert_eq!(result, Err(ServerError::new(ServerErrorType::ReadFail)));
}

#[test]
fn unreadable_error_page_closes_without_a_response() {
    let mut registry = ErrorFileSystem::new();
    registry.add_error_file(404, String::from("/no/such/page.html"));
    let (written, result) = run(Some("GET /missing.html HTTP/1.1"), listing(), true, &registry);
    assert_eq!(written, None);
    assert_eq!(result, Err(ServerError::new(ServerErrorType::ReadFail)));
}

#[test]
fn failed_write_is_reported() {
    let registry = ErrorFileSystem::new();
    let (written, result) = run(Some("GET / HTTP/1.1"), listing(), false, &registry);
    assert!(written.is_some());
    assert_eq!(result, Err(ServerError::new(ServerErrorType::ReadFail)));
}

#[test]
fn events_out_of_turn_lead_nowhere() {
    let registry = ErrorFileSystem::new();
    assert_eq!(
        handle_static_request(
            ConnectionState::AwaitingRequest,
            ConnectionEvent::Written(true),
            ROOT,
            &registry
        ),
        None
    );
    assert_eq!(
        handle_static_request(
            ConnectionState::AwaitingRequest,
            ConnectionEvent::Listing(listing()),
            ROOT,
            &registry
        ),
        None
    );
    assert_eq!(
        handle_static_request(
            ConnectionState::AwaitingListing { wanted: String::from("./public/index.html") },
            ConnectionEvent::RequestLine(None),
            ROOT,
            &registry
        ),
        None
    );
    assert_eq!(
        handle_static_request(
            ConnectionState::AwaitingFile {
                details: ServeDetails { path: String::from("./public/index.html"), code: 200 },
            },
            ConnectionEvent::Written(true),
            ROOT,
            &registry
        ),
        None
    );
    assert_eq!(
        handle_static_request(
            ConnectionState::AwaitingWrite,
            ConnectionEvent::FileContents(None),
            ROOT,
            &registry
        ),
        None
    );
}

#[test]
fn closed_connection_takes_no_event() {
    let registry = ErrorFileSystem::new();
    assert_eq!(
        handle_static_request(
            ConnectionState::Closed,
            ConnectionEvent::RequestLine(None),
            ROOT,
            &registry
        ),
        None
    );
    assert_eq!(
        handle_static_request(
            ConnectionState::Closed,
            ConnectionEvent::Listing(listing()),
            ROOT,
            &registry
        ),
        None
    );
    assert_eq!(
        handle_static_request(
            ConnectionState::Closed,
            ConnectionEvent::FileContents(None),
            ROOT,
            &registry
        ),
        None
    );
    assert_eq!(
        handle_static_request(
            ConnectionState::Closed,
            ConnectionEvent::Written(true),
            ROOT,
            &registry
        ),
        None
    );
}

#[test]
fn files_of_a_listing() {
    assert_eq!(
        get_files(DirectoryListing::Entries(vec![String::from("a"), String::from("b")])),
        Ok(vec![String::from("a"), String::from("b")])
    );
    assert_eq!(get_files(DirectoryListing::Entries(Vec::new())), Ok(Vec::new()));
    assert_eq!(
        get_files(DirectoryListing::Unreadable),
        Err(ServerError::new(ServerErrorType::BadDirectory))
    );
    assert_eq!(
        get_files(DirectoryListing::EntryUnreadable),
        Err(ServerError::new(ServerErrorType::ReadFail))
    );
}
