use crate::server::error::{http_response_from_code, reason_phrase};
use crate::server::text::{
    chars_of, decimal, decimal_string, same_text, signed_decimal, signed_decimal_string,
};
use vstd::prelude::*;
use vstd::utf8::{encode_utf8, is_ascii_chars, is_ascii_chars_encode_utf8};

verus! {

/// The MIME type of the files with the given extension, for the extensions
/// that have a known one.
pub open spec fn mime_type(extension: Seq<char>) -> Option<Seq<char>> {
    if extension == "html"@ {
        Some("text/html"@)
    } else if extension == "css"@ {
        Some("text/css"@)
    } else if extension == "js"@ {
        Some("text/javascript"@)
    } else {
        None
    }
}

/// The header line that announces the MIME type of a file with the given
/// extension, with the line break that goes before it; nothing at all where
/// the type is not known.
pub open spec fn mime_type_header(extension: Seq<char>) -> Seq<char> {
    match mime_type(extension) {
        Some(mime) => "\nContent-Type: "@ + mime,
        None => Seq::empty(),
    }
}

/// Returns the header line that announces the MIME type to serve a file
/// with, based on the file's extension. The line break goes before the
/// header. An extension of unknown type gets no header: the empty string.
pub fn get_mime_type_header(extension: &str) -> (header: String)
    ensures
        header@ == mime_type_header(extension@),
{
    let content_type = if same_text(extension, "html") {
        "text/html"
    } else if same_text(extension, "css") {
        "text/css"
    } else if same_text(extension, "js") {
        "text/javascript"
    } else {
        return String::new();
    };
    String::from_str("\nContent-Type: ").concat(content_type)
}

/// Whether the character of `path` at index `dot` is the dot that the
/// extension follows: the last dot of the path, in its last component, and
/// not the first character of that component.
pub open spec fn is_extension_dot(path: Seq<char>, dot: int) -> bool {
    &&& 0 < dot < path.len()
    &&& path[dot] == '.'
    &&& path[dot - 1] != '/'
    &&& forall|i: int| dot < i < path.len() ==> path[i] != '.' && path[i] != '/'
}

/// The extension of the file that `path` names: what follows the last dot
/// of the last component, unless that component has no dot or begins with
/// its only dot.
pub open spec fn file_extension(path: Seq<char>) -> Option<Seq<char>> {
    if exists|dot: int| is_extension_dot(path, dot) {
        let dot = choose|dot: int| is_extension_dot(path, dot);
        Some(path.subrange(dot + 1, path.len() as int))
    } else {
        None
    }
}

/// A path has at most one dot that its extension follows.
pub proof fn lemma_extension_dot_is_unique(path: Seq<char>, a: int, b: int)
    requires
        is_extension_dot(path, a),
        is_extension_dot(path, b),
    ensures
        a == b,
{
}

/// Returns the extension of the file that `path` names, if it has one.
pub fn get_file_extension(path: &str) -> (extension: Option<&str>)
    ensures
        match file_extension(path@) {
            Some(expected) => extension matches Some(found) && found@ == expected,
            None => extension is None,
        },
{
    let chars = chars_of(path);
    let n = chars.len();
    let mut i: usize = n;
    while i > 0
        invariant
            chars@ == path@,
            n == chars@.len(),
            i <= n,
            forall|j: int| i <= j < n ==> chars@[j] != '.' && chars@[j] != '/',
        decreases i,
    {
        i = i - 1;
        let c = chars[i];
        if c == '.' && i > 0 && chars[i - 1] != '/' {
            proof {
                assert(is_extension_dot(path@, i as int));
                let dot = choose|dot: int| is_extension_dot(path@, dot);
                lemma_extension_dot_is_unique(path@, dot, i as int);
            }
            return Some(path.substring_char(i + 1, n));
        }
        if c == '.' || c == '/' {
            assert forall|dot: int| !is_extension_dot(path@, dot) by {
                if is_extension_dot(path@, dot) {
                    if dot < i {
                        assert(path@[i as int] != '.' && path@[i as int] != '/');
                    } else if dot > i {
                        assert(chars@[dot] != '.');
                    }
                }
            }
            return None;
        }
    }
    assert forall|dot: int| !is_extension_dot(path@, dot) by {
        if is_extension_dot(path@, dot) {
            assert(chars@[dot] != '.');
        }
    }
    None
}

/// The header line that announces the MIME type of the file that `path`
/// names; nothing where the path has no extension of known type.
pub open spec fn content_type_header(path: Seq<char>) -> Seq<char> {
    match file_extension(path) {
        Some(extension) => mime_type_header(extension),
        None => Seq::empty(),
    }
}

/// What is sent in answer to a request: the file to send and the status
/// code to send it with.
#[derive(Debug, PartialEq, Eq)]
pub struct ServeDetails {
    pub path: String,
    pub code: i32,
}

/// What a [`ServeDetails`] holds, with the path as a sequence of characters.
pub struct ServeDetailsView {
    pub path: Seq<char>,
    pub code: i32,
}

impl View for ServeDetails {
    type V = ServeDetailsView;

    open spec fn view(&self) -> ServeDetailsView {
        ServeDetailsView { path: self.path@, code: self.code }
    }
}

/// The first line of a response under status `code`: the protocol, the
/// code, and its reason phrase.
pub open spec fn status_line(code: i32) -> Seq<char> {
    "HTTP/1.1 "@ + signed_decimal(code as int) + " "@ + reason_phrase(code)
}

/// The response that carries the file at `path`, whose contents are `body`,
/// under status `code`: the status line, the length of the body in bytes,
/// the MIME type where it is known, an empty line, and the body.
pub open spec fn response_text(code: i32, path: Seq<char>, body: Seq<char>) -> Seq<char> {
    status_line(code) + "\nContent-Length: "@ + decimal(encode_utf8(body).len())
        + content_type_header(path) + "\n\n"@ + body
}

/// Writes out the response that answers a request as `serve_details` says,
/// where `data_to_send` is what was read from the file at its path.
pub fn serialize(serve_details: &ServeDetails, data_to_send: &str) -> (response: String)
    ensures
        response@ == response_text(serve_details.code, serve_details.path@, data_to_send@),
{
    let mut response = String::from_str("HTTP/1.1 ");
    response.append(signed_decimal_string(serve_details.code).as_str());
    response.append(" ");
    response.append(http_response_from_code(serve_details.code).as_str());
    response.append("\nContent-Length: ");
    response.append(decimal_string(data_to_send.as_bytes().len() as u64).as_str());
    let ghost before_header = response@;
    match get_file_extension(serve_details.path.as_str()) {
        Some(extension) => response.append(get_mime_type_header(extension).as_str()),
        None => {},
    }
    assert(response@ =~= before_header + content_type_header(serve_details.path@));
    response.append("\n\n");
    response.append(data_to_send);
    response
}

/// A response begins with its status line and ends with its body, which
/// follows an empty line.
pub proof fn lemma_response_shape(code: i32, path: Seq<char>, body: Seq<char>)
    ensures
        status_line(code).is_prefix_of(response_text(code, path, body)),
        ("\n\n"@ + body).is_suffix_of(response_text(code, path, body)),
{
    let response = response_text(code, path, body);
    let tail = "\n\n"@ + body;
    assert(response.subrange(response.len() - tail.len(), response.len() as int) =~= tail);
    assert(response.subrange(0, status_line(code).len() as int) =~= status_line(code));
}

/// The length that a response announces for a body of ASCII characters is
/// the number of its characters.
pub proof fn lemma_ascii_body_length(code: i32, path: Seq<char>, body: Seq<char>)
    requires
        is_ascii_chars(body),
    ensures
        response_text(code, path, body) == status_line(code) + "\nContent-Length: "@ + decimal(
            body.len(),
        ) + content_type_header(path) + "\n\n"@ + body,
{
    is_ascii_chars_encode_utf8(body);
}

} // verus!
