use crate::server::error::{server_error, ServerError, ServerErrorType};
use crate::server::text::{chars_of, ends_with, has_char, starts_with};
use vstd::prelude::*;

verus! {

/// What a request line begins with: the method and the space after it.
pub open spec fn method_prefix() -> Seq<char> {
    "GET "@
}

/// What a request line ends with: the space before the protocol, and the protocol.
pub open spec fn protocol_suffix() -> Seq<char> {
    " HTTP/1.1"@
}

/// Whether `resource` can be the middle token of a request line: it is not
/// empty and holds no space.
pub open spec fn is_resource(resource: Seq<char>) -> bool {
    resource.len() > 0 && !resource.contains(' ')
}

/// The request line that asks for `resource`.
pub open spec fn request_line(resource: Seq<char>) -> Seq<char> {
    method_prefix() + resource + protocol_suffix()
}

/// Whether `line` is the request line of some resource.
pub open spec fn is_request_line(line: Seq<char>) -> bool {
    exists|resource: Seq<char>| is_resource(resource) && line == #[trigger] request_line(resource)
}

/// What is left of `line` when the method in front and the protocol behind
/// are taken off.
pub open spec fn between_method_and_protocol(line: Seq<char>) -> Seq<char> {
    line.subrange(method_prefix().len() as int, line.len() - protocol_suffix().len())
}

/// The resource that `line` asks for, if `line` is a request line.
pub open spec fn requested_resource(line: Seq<char>) -> Option<Seq<char>> {
    if is_request_line(line) {
        Some(between_method_and_protocol(line))
    } else {
        None
    }
}

/// A line is a request line exactly if it begins with the method, ends with
/// the protocol, and has a resource in between.
pub proof fn lemma_request_line_shape(line: Seq<char>)
    ensures
        is_request_line(line) <==> {
            &&& line.len() > method_prefix().len() + protocol_suffix().len()
            &&& method_prefix().is_prefix_of(line)
            &&& protocol_suffix().is_suffix_of(line)
            &&& !between_method_and_protocol(line).contains(' ')
        },
{
    let prefix = method_prefix();
    let suffix = protocol_suffix();
    let middle = between_method_and_protocol(line);
    if is_request_line(line) {
        let resource = choose|resource: Seq<char>|
            is_resource(resource) && line == #[trigger] request_line(resource);
        assert(middle =~= resource);
    }
    if line.len() > prefix.len() + suffix.len() && prefix.is_prefix_of(line) && suffix.is_suffix_of(
        line,
    ) && !middle.contains(' ') {
        assert(line =~= request_line(middle));
        assert(is_resource(middle));
    }
}

/// Taking a request line apart and putting it together again gives the same
/// line: the request line of the resource that a line asks for is that line.
pub proof fn lemma_parse_then_rebuild(line: Seq<char>)
    requires
        is_request_line(line),
    ensures
        requested_resource(line) is Some,
        request_line(requested_resource(line)->0) == line,
        is_resource(requested_resource(line)->0),
{
    let resource = choose|resource: Seq<char>|
        is_resource(resource) && line == #[trigger] request_line(resource);
    assert(between_method_and_protocol(line) =~= resource);
}

/// The request line of a resource asks for that resource and no other.
pub proof fn lemma_rebuild_then_parse(resource: Seq<char>)
    requires
        is_resource(resource),
    ensures
        requested_resource(request_line(resource)) == Some(resource),
{
    assert(between_method_and_protocol(request_line(resource)) =~= resource);
}

/// Parses the first line of a request and returns the resource it asks for.
///
/// Only lines of the exact shape `GET <resource> HTTP/1.1` are accepted,
/// where the resource is one token: not empty and without a space. Any other
/// line is refused with a `MalformedRequest` error.
pub fn parse_requested_path(http_line: &str) -> (parsed: Result<&str, ServerError>)
    ensures
        match requested_resource(http_line@) {
            Some(resource) => parsed matches Ok(found) && found@ == resource,
            None => parsed matches Err(error) && error@ == server_error(
                ServerErrorType::MalformedRequest,
            ),
        },
{
    let chars = chars_of(http_line);
    let prefix = chars_of("GET ");
    let suffix = chars_of(" HTTP/1.1");
    proof {
        lemma_request_line_shape(http_line@);
    }
    if !starts_with(&chars, &prefix) || !ends_with(&chars, &suffix) {
        return Err(ServerError::new(ServerErrorType::MalformedRequest));
    }
    let from = prefix.len();
    let to = chars.len() - suffix.len();
    let ghost middle = between_method_and_protocol(http_line@);
    if to <= from || has_char(&chars, from, to, ' ') {
        assert(to > from ==> middle.contains(' ')) by {
            if to > from {
                let i = choose|i: int| from <= i < to && i < chars@.len() && chars@[i] == ' ';
                assert(middle[i - from] == ' ');
            }
        }
        return Err(ServerError::new(ServerErrorType::MalformedRequest));
    }
    assert(!middle.contains(' ')) by {
        if middle.contains(' ') {
            let j = choose|j: int| 0 <= j < middle.len() && middle[j] == ' ';
            assert(chars@[from + j] == ' ');
        }
    }
    Ok(http_line.substring_char(from, to))
}

} // verus!
