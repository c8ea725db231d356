use apache_clone::server::{get_file_extension, get_mime_type_header, serialize, ServeDetails};

fn details(path: &str, code: i32) -> ServeDetails {
    ServeDetails { path: String::from(path), code }
}

#[test]
fn mime_type_header_of_known_extensions() {
    assert_eq!(get_mime_type_header("html"), "\nContent-Type: text/html");
    assert_eq!(get_mime_type_header("css"), "\nContent-Type: text/css");
    assert_eq!(get_mime_type_header("js"), "\nContent-Type: text/javascript");
}

#[test]
fn mime_type_header_of_unknown_extensions_is_empty() {
    assert_eq!(get_mime_type_header(""), "");
    assert_eq!(get_mime_type_header("png"), "");
    assert_eq!(get_mime_type_header("htm"), "");
    assert_eq!(get_mime_type_header("HTML"), "");
    assert_eq!(get_mime_type_header(".html"), "");
    assert_eq!(get_mime_type_header("html "), "");
}

#[test]
fn extension_is_what_follows_the_last_dot() {
    assert_eq!(get_file_extension("index.html"), Some("html"));
    assert_eq!(get_file_extension("./public/index.html"), Some("html"));
    assert_eq!(get_file_extension("./public/style.css"), Some("css"));
    assert_eq!(get_file_extension("archive.tar.gz"), Some("gz"));
    assert_eq!(get_file_extension("/custom/404.html"), Some("html"));
    assert_eq!(get_file_extension("a."), Some(""));
    assert_eq!(get_file_extension("dir/.hidden.txt"), Some("txt"));
    assert_eq!(get_file_extension("é.日本"), Some("日本"));
}

#[test]
fn extension_is_looked_for_in_the_last_component_only() {
    assert_eq!(get_file_extension("./public/README"), None);
    assert_eq!(get_file_extension("a.b/c"), None);
    assert_eq!(get_file_extension("a.b/"), None);
    assert_eq!(get_file_extension("README"), None);
    assert_eq!(get_file_extension(""), None);
    assert_eq!(get_file_extension("/"), None);
}

#[test]
fn a_leading_dot_starts_no_extension() {
    assert_eq!(get_file_extension(".bashrc"), None);
    assert_eq!(get_file_extension("home/.bashrc"), None);
    assert_eq!(get_file_extension("."), None);
    assert_eq!(get_file_extension("./"), None);
}

#[test]
fn response_for_a_page() {
    assert_eq!(
        serialize(&details("./public/index.html", 200), "<h1>Hi</h1>"),
        "HTTP/1.1 200 OK\nContent-Length: 11\nContent-Type: text/html\n\n<h1>Hi</h1>"
    );
}

#[test]
fn response_for_a_stylesheet_and_a_script() {
    assert_eq!(
        serialize(&details("./public/style.css", 200), "body{}"),
        "HTTP/1.1 200 OK\nContent-Length: 6\nContent-Type: text/css\n\nbody{}"
    );
    assert_eq!(
        serialize(&details("./public/app.js", 200), "let x = 1;\n"),
        "HTTP/1.1 200 OK\nContent-Length: 11\nContent-Type: text/javascript\n\nlet x = 1;\n"
    );
}

#[test]
fn response_without_a_known_type_has_no_type_line() {
    assert_eq!(
        serialize(&details("./public/notes.txt", 200), "hello"),
        "HTTP/1.1 200 OK\nContent-Length: 5\n\nhello"
    );
    assert_eq!(
        serialize(&details("./public/README", 200), "hello"),
        "HTTP/1.1 200 OK\nContent-Length: 5\n\nhello"
    );
}

#[test]
fn response_for_error_pages() {
    assert_eq!(
        serialize(&details("./public/404.html", 404), "gone"),
        "HTTP/1.1 404 Not Found\nContent-Length: 4\nContent-Type: text/html\n\ngone"
    );
    assert_eq!(
        serialize(&details("./public/400.html", 400), "bad"),
        "HTTP/1.1 400 Bad Request\nContent-Length: 3\nContent-Type: text/html\n\nbad"
    );
    assert_eq!(
        serialize(&details("./public/500.html", 500), "oops"),
        "HTTP/1.1 500 Internal Server Error\nContent-Length: 4\nContent-Type: text/html\n\noops"
    );
}

#[test]
fn response_for_codes_without_a_phrase_of_their_own() {
    assert_eq!(
        serialize(&details("x.html", 418), ""),
        "HTTP/1.1 418 Client Error\nContent-Length: 0\nContent-Type: text/html\n\n"
    );
    assert_eq!(
        serialize(&details("x.html", 503), ""),
        "HTTP/1.1 503 Server Error\nContent-Length: 0\nContent-Type: text/html\n\n"
    );
    assert_eq!(
        serialize(&details("x", 999), "?"),
        "HTTP/1.1 999 IDK\nContent-Length: 1\n\n?"
    );
    assert_eq!(
        serialize(&details("x", -5), "?"),
        "HTTP/1.1 -5 IDK\nContent-Length: 1\n\n?"
    );
}

#[test]
fn content_length_counts_bytes() {
    assert_eq!(
        serialize(&details("./public/index.html", 200), "héllo"),
        "HTTP/1.1 200 OK\nContent-Length: 6\nContent-Type: text/html\n\nhéllo"
    );
    assert_eq!(
        serialize(&details("./public/index.html", 200), "日本"),
        "HTTP/1.1 200 OK\nContent-Length: 6\nContent-Type: text/html\n\n日本"
    );
}

#[test]
fn empty_body() {
    assert_eq!(
        serialize(&details("./public/index.html", 200), ""),
        "HTTP/1.1 200 OK\nContent-Length: 0\nContent-Type: text/html\n\n"
    );
}

#[test]
fn long_body_length_has_several_digits() {
    let body = "x".repeat(12345);
    let response = serialize(&details("big.css", 200), &body);
    assert_eq!(
        response,
        format!("HTTP/1.1 200 OK\nContent-Length: 12345\nContent-Type: text/css\n\n{}", body)
    );
}
