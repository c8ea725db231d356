use apache_clone::server::{get_default_error_file_for, ErrorFileSystem};

#[test]
fn built_in_pages() {
    assert_eq!(get_default_error_file_for("./public", 404), "./public/404.html");
    assert_eq!(get_default_error_file_for("./public", 400), "./public/400.html");
    assert_eq!(get_default_error_file_for("./public", 500), "./public/500.html");
}

#[test]
fn built_in_page_of_every_other_code_is_that_of_500() {
    for code in [0, 200, 301, 401, 403, 418, 499, 501, 503, 599, 600, -1, i32::MAX, i32::MIN] {
        assert_eq!(get_default_error_file_for("./public", code), "./public/500.html");
    }
}

#[test]
fn built_in_pages_follow_the_root_as_it_is() {
    assert_eq!(get_default_error_file_for("", 404), "/404.html");
    assert_eq!(get_default_error_file_for("/srv/www", 400), "/srv/www/400.html");
    assert_eq!(get_default_error_file_for("./public/", 404), "./public//404.html");
}

#[test]
fn registry_without_overrides_gives_built_in_pages() {
    let registry = ErrorFileSystem::new();
    assert_eq!(registry.get_error_file_for("./public", 404), "./public/404.html");
    assert_eq!(registry.get_error_file_for("./public", 400), "./public/400.html");
    assert_eq!(registry.get_error_file_for("./public", 500), "./public/500.html");
    assert_eq!(registry.get_error_file_for("./public", 503), "./public/500.html");
    assert_eq!(registry.get_error_file_for("./public", 418), "./public/500.html");
}

#[test]
fn override_is_returned_in_place_of_the_built_in_page() {
    let mut registry = ErrorFileSystem::new();
    registry.add_error_file(404, String::from("/custom/404.html"));
    assert_eq!(registry.get_error_file_for("./public", 404), "/custom/404.html");
}

#[test]
fn override_leaves_other_codes_alone() {
    let mut registry = ErrorFileSystem::new();
    registry.add_error_file(404, String::from("/custom/404.html"));
    assert_eq!(registry.get_error_file_for("./public", 400), "./public/400.html");
    assert_eq!(registry.get_error_file_for("./public", 500), "./public/500.html");
    assert_eq!(registry.get_error_file_for("./public", 405), "./public/500.html");
}

#[test]
fn last_override_wins() {
    let mut registry = ErrorFileSystem::new();
    registry.add_error_file(404, String::from("/first.html"));
    registry.add_error_file(404, String::from("/second.html"));
    assert_eq!(registry.get_error_file_for("./public", 404), "/second.html");
    registry.add_error_file(404, String::from("/first.html"));
    assert_eq!(registry.get_error_file_for("./public", 404), "/first.html");
}

#[test]
fn override_for_a_code_without_a_page_of_its_own() {
    let mut registry = ErrorFileSystem::new();
    registry.add_error_file(503, String::from("/down.html"));
    assert_eq!(registry.get_error_file_for("./public", 503), "/down.html");
    assert_eq!(registry.get_error_file_for("./public", 500), "./public/500.html");
    assert_eq!(registry.get_error_file_for("./public", 502), "./public/500.html");
}

#[test]
fn override_is_not_checked_when_registered() {
    let mut registry = ErrorFileSystem::new();
    registry.add_error_file(400, String::from(""));
    assert_eq!(registry.get_error_file_for("./public", 400), "");
    registry.add_error_file(-7, String::from("/no/such/file"));
    assert_eq!(registry.get_error_file_for("./public", -7), "/no/such/file");
}
