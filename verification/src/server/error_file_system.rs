use std::collections::HashMap;
use vstd::prelude::*;

verus! {

broadcast use vstd::std_specs::hash::group_hash_axioms;

/// The name, below the served directory, of the page that is built in for
/// `status_code`: 400 and 404 have a page of their own, every other code
/// shares the page of 500.
pub open spec fn default_error_file_name(status_code: i32) -> Seq<char> {
    if status_code == 404 {
        "/404.html"@
    } else if status_code == 400 {
        "/400.html"@
    } else {
        "/500.html"@
    }
}

/// The path of the built-in page for `status_code` when `root` is the
/// served directory.
pub open spec fn default_error_file(root: Seq<char>, status_code: i32) -> Seq<char> {
    root + default_error_file_name(status_code)
}

/// The path of the page to serve for `status_code`: the custom page
/// registered for that code if there is one, else the built-in page.
pub open spec fn error_file(
    custom_paths: Map<i32, Seq<char>>,
    root: Seq<char>,
    status_code: i32,
) -> Seq<char> {
    if custom_paths.contains_key(status_code) {
        custom_paths[status_code]
    } else {
        default_error_file(root, status_code)
    }
}

/// A page registered for a code is the page found for that code, whatever
/// was registered for it before, and the pages of the other codes stay as
/// they were.
pub proof fn lemma_last_registration_wins(
    custom_paths: Map<i32, Seq<char>>,
    root: Seq<char>,
    code: i32,
    file: Seq<char>,
    other: i32,
)
    ensures
        error_file(custom_paths.insert(code, file), root, code) == file,
        other != code ==> error_file(custom_paths.insert(code, file), root, other) == error_file(
            custom_paths,
            root,
            other,
        ),
{
}

/// Of two pages registered for the same code, one after the other, the
/// second is the page found for that code.
pub proof fn lemma_second_registration_replaces_first(
    custom_paths: Map<i32, Seq<char>>,
    root: Seq<char>,
    code: i32,
    first: Seq<char>,
    second: Seq<char>,
)
    ensures
        error_file(custom_paths.insert(code, first).insert(code, second), root, code) == second,
        custom_paths.insert(code, first).insert(code, second) == custom_paths.insert(code, second),
{
    assert(custom_paths.insert(code, first).insert(code, second) =~= custom_paths.insert(
        code,
        second,
    ));
}

/// The pages to serve in place of content, by status code. Custom pages
/// can be registered; a code without one has a built-in page.
pub struct ErrorFileSystem {
    custom_paths: HashMap<i32, String>,
}

impl View for ErrorFileSystem {
    type V = Map<i32, Seq<char>>;

    /// The custom pages that are registered: for each code that has one, its path.
    closed spec fn view(&self) -> Map<i32, Seq<char>> {
        self.custom_paths@.map_values(|file: String| file@)
    }
}

impl ErrorFileSystem {
    /// A registry without custom pages.
    pub fn new() -> (registry: ErrorFileSystem)
        ensures
            registry@ == Map::<i32, Seq<char>>::empty(),
    {
        let registry = Self { custom_paths: HashMap::new() };
        assert(registry@ =~= Map::<i32, Seq<char>>::empty());
        registry
    }

    /// Registers `file` as the page for `code`, in place of the page that
    /// was registered for `code` before, if any. Whether the file exists is
    /// not looked at here.
    pub fn add_error_file(&mut self, code: i32, file: String)
        ensures
            final(self)@ == old(self)@.insert(code, file@),
    {
        self.custom_paths.insert(code, file);
        assert(self@ =~= old(self)@.insert(code, file@));
    }

    /// The path of the page to serve for `status_code` when `root` is the
    /// served directory.
    pub fn get_error_file_for(&self, root: &str, status_code: i32) -> (file: String)
        ensures
            file@ == error_file(self@, root@, status_code),
    {
        if let Some(file) = self.custom_paths.get(&status_code) {
            return file.clone();
        }
        get_default_error_file_for(root, status_code)
    }
}

/// The path of the built-in page for `status_code` when `root` is the
/// served directory.
pub fn get_default_error_file_for(root: &str, status_code: i32) -> (file: String)
    ensures
        file@ == default_error_file(root@, status_code),
{
    String::from_str(root).concat(
        match status_code {
            404 => "/404.html",
            400 => "/400.html",
            500 => "/500.html",
            _ => "/500.html",
        },
    )
}

} // verus!
