use vstd::prelude::*;

verus! {

/// The ways in which serving can fail.
#[derive(Clone, Copy, Debug, PartialEq, Eq, Structural)]
pub enum ServerErrorType {
    /// The served directory is missing or cannot be listed. Ends the session.
    BadDirectory,
    /// A file could not be read, or the response could not be written.
    /// Ends the connection it happened on.
    ReadFail,
    /// The listening port could not be bound. Ends the session.
    BadPort,
    /// An incoming connection could not be accepted. The connection is skipped.
    ConnFail,
    /// The first line of a request is not `GET <resource> HTTP/1.1`.
    /// The client is answered with status 400.
    MalformedRequest,
}

/// The user-friendly description that goes with each kind of error.
pub open spec fn error_message(error_type: ServerErrorType) -> Seq<char> {
    match error_type {
        ServerErrorType::BadDirectory => "Could not open directory"@,
        ServerErrorType::ReadFail => "Could not open file"@,
        ServerErrorType::BadPort => "Could not open port"@,
        ServerErrorType::ConnFail => "The connection failed"@,
        ServerErrorType::MalformedRequest => "Could not parse request"@,
    }
}

/// The name of a variant, as it is written in the source.
pub open spec fn error_type_name(error_type: ServerErrorType) -> Seq<char> {
    match error_type {
        ServerErrorType::BadDirectory => "BadDirectory"@,
        ServerErrorType::ReadFail => "ReadFail"@,
        ServerErrorType::BadPort => "BadPort"@,
        ServerErrorType::ConnFail => "ConnFail"@,
        ServerErrorType::MalformedRequest => "MalformedRequest"@,
    }
}

/// The text that stands for a kind of error in messages.
pub open spec fn error_type_text(error_type: ServerErrorType) -> Seq<char> {
    "ServerErrorType::"@ + error_type_name(error_type)
}

/// The one-line report of an error of kind `error_type` with message `error_msg`,
/// newline included.
pub open spec fn error_text(error_type: ServerErrorType, error_msg: Seq<char>) -> Seq<char> {
    "Error ("@ + error_type_text(error_type) + "): "@ + error_msg + "\n"@
}

impl ServerErrorType {
    /// Whether an error of this kind ends the whole serving session, rather
    /// than only the connection it happened on.
    pub open spec fn spec_is_fatal(self) -> bool {
        self == ServerErrorType::BadDirectory || self == ServerErrorType::BadPort
    }

    /// Whether an error of this kind ends the whole serving session.
    #[verifier::when_used_as_spec(spec_is_fatal)]
    pub fn is_fatal(self) -> (fatal: bool)
        ensures
            fatal == self.spec_is_fatal(),
    {
        match self {
            ServerErrorType::BadDirectory => true,
            ServerErrorType::BadPort => true,
            ServerErrorType::ReadFail => false,
            ServerErrorType::ConnFail => false,
            ServerErrorType::MalformedRequest => false,
        }
    }

    /// The text that stands for this kind of error in messages:
    /// `ServerErrorType::` followed by the variant's name.
    pub fn to_string(&self) -> (text: String)
        ensures
            text@ == error_type_text(*self),
    {
        let name = match self {
            ServerErrorType::BadDirectory => "BadDirectory",
            ServerErrorType::ReadFail => "ReadFail",
            ServerErrorType::BadPort => "BadPort",
            ServerErrorType::ConnFail => "ConnFail",
            ServerErrorType::MalformedRequest => "MalformedRequest",
        };
        String::from_str("ServerErrorType::").concat(name)
    }
}

/// An error, as a kind (to tell which error it is) and a message
/// (to tell a person what went wrong).
#[derive(Debug, PartialEq, Eq)]
pub struct ServerError {
    pub error_type: ServerErrorType,
    pub error_msg: String,
}

/// What a [`ServerError`] holds, with the message as a sequence of characters.
pub struct ServerErrorView {
    pub error_type: ServerErrorType,
    pub error_msg: Seq<char>,
}

impl View for ServerError {
    type V = ServerErrorView;

    open spec fn view(&self) -> ServerErrorView {
        ServerErrorView { error_type: self.error_type, error_msg: self.error_msg@ }
    }
}

/// The error of kind `error_type` with the message that belongs to that kind.
pub open spec fn server_error(error_type: ServerErrorType) -> ServerErrorView {
    ServerErrorView { error_type, error_msg: error_message(error_type) }
}

impl ServerError {
    /// Creates the error of kind `error_type`; the message is set to the
    /// description of that kind.
    pub fn new(error_type: ServerErrorType) -> (error: ServerError)
        ensures
            error@ == server_error(error_type),
    {
        ServerError {
            error_msg: match error_type {
                ServerErrorType::BadDirectory => String::from_str("Could not open directory"),
                ServerErrorType::ReadFail => String::from_str("Could not open file"),
                ServerErrorType::BadPort => String::from_str("Could not open port"),
                ServerErrorType::ConnFail => String::from_str("The connection failed"),
                ServerErrorType::MalformedRequest => String::from_str("Could not parse request"),
            },
            error_type,
        }
    }

    /// The one-line report of this error: `Error (<kind>): <message>` and a newline.
    pub fn to_string(&self) -> (text: String)
        ensures
            text@ == error_text(self.error_type, self.error_msg@),
    {
        let mut text = String::from_str("Error (");
        text.append(self.error_type.to_string().as_str());
        text.append("): ");
        text.append(self.error_msg.as_str());
        text.append("\n");
        text
    }
}

/// The reason phrases of the status codes that have one of their own.
pub open spec fn named_reason_phrase(code: i32) -> Option<Seq<char>> {
    match code {
        100 => Some("Continue"@),
        101 => Some("Switching Protocols"@),
        102 => Some("Processing"@),
        103 => Some("Early Hints"@),
        200 => Some("OK"@),
        201 => Some("Created"@),
        202 => Some("Accepted"@),
        203 => Some("Non-Authoritative Information"@),
        204 => Some("No Content"@),
        205 => Some("Reset Content"@),
        206 => Some("Partial Content"@),
        207 => Some("Multi-Status"@),
        208 => Some("Already Reported"@),
        226 => Some("IM Used"@),
        300 => Some("Multiple Choices"@),
        301 => Some("Moved Permanently"@),
        302 => Some("Found"@),
        303 => Some("See Other"@),
        304 => Some("Not Modified"@),
        307 => Some("Temporary Redirect"@),
        308 => Some("Permanent Redirect"@),
        400 => Some("Bad Request"@),
        401 => Some("Unauthorized"@),
        402 => Some("Payment Required"@),
        403 => Some("Forbidden"@),
        404 => Some("Not Found"@),
        500 => Some("Internal Server Error"@),
        _ => None,
    }
}

/// The reason phrase that follows `code` in a status line: the code's own
/// phrase where it has one, else a general phrase for its class (client
/// errors are 400 to 499, server errors 500 to 599), else `IDK`.
pub open spec fn reason_phrase(code: i32) -> Seq<char> {
    match named_reason_phrase(code) {
        Some(phrase) => phrase,
        None => if 400 <= code <= 499 {
            "Client Error"@
        } else if 500 <= code <= 599 {
            "Server Error"@
        } else {
            "IDK"@
        },
    }
}

/// Returns the readable phrase for an HTTP status code, to be written after
/// the code in the status line of a response.
///
/// Not every code has a phrase of its own: the other client and server
/// errors get a general phrase.
pub fn http_response_from_code(code: i32) -> (phrase: String)
    ensures
        phrase@ == reason_phrase(code),
{
    String::from_str(
        match code {
            100 => "Continue",
            101 => "Switching Protocols",
            102 => "Processing",
            103 => "Early Hints",
            200 => "OK",
            201 => "Created",
            202 => "Accepted",
            203 => "Non-Authoritative Information",
            204 => "No Content",
            205 => "Reset Content",
            206 => "Partial Content",
            207 => "Multi-Status",
            208 => "Already Reported",
            226 => "IM Used",
            300 => "Multiple Choices",
            301 => "Moved Permanently",
            302 => "Found",
            303 => "See Other",
            304 => "Not Modified",
            307 => "Temporary Redirect",
            308 => "Permanent Redirect",
            400 => "Bad Request",
            401 => "Unauthorized",
            402 => "Payment Required",
            403 => "Forbidden",
            404 => "Not Found",
            400..=499 => "Client Error",
            500 => "Internal Server Error",
            500..=599 => "Server Error",
            _ => "IDK",
        },
    )
}

} // verus!
