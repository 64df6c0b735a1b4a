//! Well-known application directories, derived from the OS per-user data
//! directory. The embedding program resolves the OS data directory and hands
//! it in; every path here is a plain `/`-joined string derived from it.

use vstd::prelude::*;

verus! {

/// `dir` and `name` joined with a single separator.
pub open spec fn joined(dir: Seq<char>, name: Seq<char>) -> Seq<char> {
    dir + "/"@ + name
}

/// Join a directory and an entry name with a separator.
pub fn join_path(dir: &str, name: &str) -> (r: String)
    ensures
        r@ == joined(dir@, name@),
{
    let mut r = dir.to_owned();
    r.append("/");
    r.append(name);
    r
}

/// A path handed in by the web interface may be written only when it cannot
/// climb out of its directory: any `../` or `..\` is blocked before any file
/// is touched.
pub fn text_file_path_allowed(path: &str) -> (r: bool)
    ensures
        r == !(crate::strutil::contains_seq(path@, "../"@) || crate::strutil::contains_seq(
            path@,
            "..\\"@,
        )),
{
    !(crate::strutil::str_contains(path, "../") || crate::strutil::str_contains(path, "..\\"))
}

/// The application's own data directory under the OS per-user data directory
/// (`None` when the OS reports no data directory).
pub fn get_app_data_dir(data_dir: &Option<String>) -> (r: Option<String>)
    ensures
        match r {
            Some(p) => data_dir is Some && p@ == joined(data_dir->Some_0@, "doay"@),
            None => data_dir is None,
        },
{
    match data_dir {
        Some(d) => Some(join_path(d.as_str(), "doay")),
        None => None,
    }
}

/// The application data directory as a plain string, empty when unknown.
pub fn get_doay_app_dir_str(data_dir: &Option<String>) -> (r: String)
    ensures
        data_dir is Some ==> r@ == joined(data_dir->Some_0@, "doay"@),
        data_dir is None ==> r@ == Seq::<char>::empty(),
{
    match get_app_data_dir(data_dir) {
        Some(p) => p,
        None => String::new(),
    }
}

fn app_subdir(data_dir: &Option<String>, name: &str) -> (r: Option<String>)
    ensures
        match r {
            Some(p) => data_dir is Some && p@ == joined(
                joined(data_dir->Some_0@, "doay"@),
                name@,
            ),
            None => data_dir is None,
        },
{
    match get_app_data_dir(data_dir) {
        Some(app) => Some(join_path(app.as_str(), name)),
        None => None,
    }
}

/// Configuration directory.
pub fn get_doay_conf_dir(data_dir: &Option<String>) -> (r: Option<String>)
    ensures
        match r {
            Some(p) => data_dir is Some && p@ == joined(
                joined(data_dir->Some_0@, "doay"@),
                "conf"@,
            ),
            None => data_dir is None,
        },
{
    app_subdir(data_dir, "conf")
}

/// Log directory.
pub fn get_doay_logs_dir(data_dir: &Option<String>) -> (r: Option<String>)
    ensures
        match r {
            Some(p) => data_dir is Some && p@ == joined(
                joined(data_dir->Some_0@, "doay"@),
                "logs"@,
            ),
            None => data_dir is None,
        },
{
    app_subdir(data_dir, "logs")
}

/// Directory served by the embedded web server.
pub fn get_doay_web_server_dir(data_dir: &Option<String>) -> (r: Option<String>)
    ensures
        match r {
            Some(p) => data_dir is Some && p@ == joined(
                joined(data_dir->Some_0@, "doay"@),
                "web_server"@,
            ),
            None => data_dir is None,
        },
{
    app_subdir(data_dir, "web_server")
}

/// Directory holding the proxy engine binary and its resources.
pub fn get_doay_ray_dir(data_dir: &Option<String>) -> (r: Option<String>)
    ensures
        match r {
            Some(p) => data_dir is Some && p@ == joined(
                joined(data_dir->Some_0@, "doay"@),
                "ray"@,
            ),
            None => data_dir is None,
        },
{
    app_subdir(data_dir, "ray")
}

} // verus!
