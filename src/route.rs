use vstd::prelude::*;
use vstd::string::StringExecFns;
use crate::error::ConfigError;
use std::path::Path;

verus! {

/// A binding from a URL prefix to a filesystem location.
#[derive(Clone, Debug)]
pub struct Route {
    pub url_components: Vec<String>,
    pub url: String,
    pub path: String,
    pub redirect_html: bool,
}

impl Route {
    pub fn new(url: &str, path: &str, redirect_html: bool) -> (r: Route)
        ensures
            r.url@ == url@,
            r.path@ == path@,
            r.redirect_html == redirect_html,
            r.url_components@.len() == 0,
    {
        Route { url_components: Vec::new(), url: url.to_owned(), path: path.to_owned(), redirect_html }
    }
}

/// Some route of `routes` has the key `url`.
pub open spec fn has_url(routes: Seq<Route>, url: Seq<char>) -> bool {
    exists|i: int| 0 <= i < routes.len() && #[trigger] routes[i].url@ == url
}

/// No two routes share a key.
pub open spec fn urls_distinct(routes: Seq<Route>) -> bool {
    forall|i: int, j: int| 0 <= i < j < routes.len() ==> routes[i].url@ != routes[j].url@
}

/// The position of the route keyed `url`, if there is one.
pub fn find_route(routes: &Vec<Route>, url: &String) -> (r: Option<usize>)
    ensures
        match r {
            Some(i) => i < routes.len() && routes@[i as int].url@ == url@,
            None => !has_url(routes@, url@),
        },
{
    let mut i: usize = 0;
    while i < routes.len()
        invariant
            i <= routes.len(),
            forall|k: int| 0 <= k < i ==> routes@[k].url@ != url@,
        decreases routes.len() - i,
    {
        if routes[i].url.eq(url) {
            return Some(i);
        }
        i += 1;
    }
    None
}

/// Adds `route` unless its key is taken; says whether it was added.
pub fn insert_route(routes: &mut Vec<Route>, route: Route) -> (inserted: bool)
    ensures
        inserted == !has_url(old(routes)@, route.url@),
        inserted ==> final(routes)@ == old(routes)@.push(route),
        !inserted ==> final(routes)@ == old(routes)@,
        urls_distinct(old(routes)@) ==> urls_distinct(final(routes)@),
{
    match find_route(routes, &route.url) {
        Some(_) => false,
        None => {
            routes.push(route);
            true
        }
    }
}

/// The key derived from a path's base name: `/name`, or `/name/` for a directory.
pub open spec fn derived_key(name: Seq<char>, is_dir: bool) -> Seq<char> {
    if is_dir {
        seq!['/'] + name + seq!['/']
    } else {
        seq!['/'] + name
    }
}

/// The key of the command-line path at index `i`: the first one is always `/`.
pub open spec fn key_at(names: Seq<Option<String>>, dirs: Seq<bool>, i: int) -> Seq<char> {
    if i == 0 {
        seq!['/']
    } else {
        match names[i] {
            Some(n) => derived_key(n@, dirs[i]),
            None => Seq::empty(),
        }
    }
}

/// The command-line path at index `i` has no base name, or its key is taken
/// by an earlier path.
pub open spec fn fails_at(names: Seq<Option<String>>, dirs: Seq<bool>, i: int) -> bool {
    i > 0 && (names[i] is None || exists|j: int|
        0 <= j < i && #[trigger] key_at(names, dirs, j) == key_at(names, dirs, i))
}

/// Builds `/name` or `/name/` from a base name.
pub fn derive_key(name: &str, is_dir: bool) -> (key: String)
    ensures
        key@ == derived_key(name@, is_dir),
{
    proof {
        reveal_strlit("/");
    }
    let mut key = String::from_str("/");
    key.append(name);
    if is_dir {
        key.append("/");
    }
    key
}

/// Index `i` is the first command-line path that fails.
pub open spec fn first_failure(names: Seq<Option<String>>, dirs: Seq<bool>, i: int) -> bool {
    fails_at(names, dirs, i) && forall|k: int| 0 <= k < i ==> !fails_at(names, dirs, k)
}

/// What building routes from `paths` gives, where `names[i]` is the base name
/// of `paths[i]` and `dirs[i]` tells whether it is a directory: either the
/// route table with one route per path, in order, or the error of the first
/// path that fails.
pub open spec fn routes_outcome(
    paths: Seq<String>,
    names: Seq<Option<String>>,
    dirs: Seq<bool>,
    redirect_html: bool,
    r: Result<Vec<Route>, ConfigError>,
) -> bool {
    let n = paths.len() as int;
    match r {
        Ok(routes) => {
            &&& forall|i: int| 0 <= i < n ==> !fails_at(names, dirs, i)
            &&& routes@.len() == n
            &&& forall|i: int|
                0 <= i < n ==> {
                    &&& (#[trigger] routes@[i]).url@ == key_at(names, dirs, i)
                    &&& routes@[i].path@ == paths[i]@
                    &&& routes@[i].redirect_html == redirect_html
                }
            &&& urls_distinct(routes@)
        },
        Err(e) => exists|i: int|
            0 <= i < n && #[trigger] first_failure(names, dirs, i) && match e {
                ConfigError::NoBaseName { path } => names[i] is None && path@ == paths[i]@,
                ConfigError::DuplicatePath { url } => names[i] is Some && url@ == key_at(
                    names,
                    dirs,
                    i,
                ),
                _ => false,
            },
    }
}

/// Whenever a route table is built from command-line paths, the first path
/// is served at `/`, whatever its name or kind.
pub proof fn first_path_is_root(
    paths: Seq<String>,
    names: Seq<Option<String>>,
    dirs: Seq<bool>,
    redirect_html: bool,
    routes: Vec<Route>,
)
    requires
        paths.len() > 0,
        routes_outcome(paths, names, dirs, redirect_html, Ok(routes)),
    ensures
        routes@[0].url@ == seq!['/'],
        routes@[0].path@ == paths[0]@,
{
    assert(routes@[0].url@ == key_at(names, dirs, 0));
}

/// Builds the route table from command-line paths, given each path's base
/// name and whether it is a directory.
pub fn routes_from_probes(
    paths: &[String],
    names: &Vec<Option<String>>,
    dirs: &Vec<bool>,
    redirect_html: bool,
) -> (r: Result<Vec<Route>, ConfigError>)
    requires
        names.len() == paths.len(),
        dirs.len() == paths.len(),
    ensures
        routes_outcome(paths@, names@, dirs@, redirect_html, r),
{
    let mut routes: Vec<Route> = Vec::new();
    let mut i: usize = 0;
    while i < paths.len()
        invariant
            i <= paths.len(),
            names.len() == paths.len(),
            dirs.len() == paths.len(),
            routes@.len() == i,
            forall|k: int| 0 <= k < i ==> !fails_at(names@, dirs@, k),
            forall|k: int|
                0 <= k < i ==> {
                    &&& (#[trigger] routes@[k]).url@ == key_at(names@, dirs@, k)
                    &&& routes@[k].path@ == paths@[k]@
                    &&& routes@[k].redirect_html == redirect_html
                },
            urls_distinct(routes@),
        decreases paths.len() - i,
    {
        if i == 0 {
            proof {
                reveal_strlit("/");
            }
            let route = Route::new("/", paths[i].as_str(), redirect_html);
            routes.push(route);
        } else {
            match &names[i] {
                None => {
                    let e = ConfigError::NoBaseName { path: paths[i].clone() };
                    assert(first_failure(names@, dirs@, i as int));
                    return Err(e);
                },
                Some(name) => {
                    let key = derive_key(name.as_str(), dirs[i]);
                    assert(key@ == key_at(names@, dirs@, i as int));
                    let route = Route::new(key.as_str(), paths[i].as_str(), redirect_html);
                    let ghost before = routes@;
                    if !insert_route(&mut routes, route) {
                        proof {
                            let k = choose|k: int|
                                0 <= k < before.len() && #[trigger] before[k].url@ == key@;
                            assert(key_at(names@, dirs@, k) == key_at(names@, dirs@, i as int));
                            assert(first_failure(names@, dirs@, i as int));
                        }
                        return Err(ConfigError::DuplicatePath { url: key });
                    }
                    assert forall|j: int| 0 <= j < i implies key_at(names@, dirs@, j) != key_at(names@, dirs@, i as int) by {
                        assert(before[j].url@ == key_at(names@, dirs@, j));
                    }
                    assert(!fails_at(names@, dirs@, i as int));
                },
            }
        }
        i += 1;
    }
    Ok(routes)
}

/// Relies on `std::path::Path::file_name`: the final component of a path, if
/// it has one. Which characters separate components depends on the platform.
#[verifier::external_body]
fn base_name(path: &str) -> (r: Option<String>) {
    match Path::new(path).file_name() {
        Some(n) => Some(n.to_string_lossy().into_owned()),
        None => None,
    }
}

/// Relies on `std::path::Path::is_dir`: asks the filesystem whether `path`
/// names a directory; the answer depends on the disk.
#[verifier::external_body]
fn is_dir(path: &str) -> (r: bool) {
    Path::new(path).is_dir()
}

/// Builds the route table from command-line paths: the first path is bound
/// to `/`, every later one to `/` and its base name, with a trailing `/` when
/// it is a directory.
pub fn args_paths_to_route(map: &[String], redirect_html: bool) -> (r: Result<Vec<Route>, ConfigError>)
    ensures
        exists|names: Seq<Option<String>>, dirs: Seq<bool>|
            names.len() == map@.len() && dirs.len() == map@.len() && #[trigger] routes_outcome(
                map@,
                names,
                dirs,
                redirect_html,
                r,
            ),
{
    let mut names: Vec<Option<String>> = Vec::new();
    let mut dirs: Vec<bool> = Vec::new();
    let mut i: usize = 0;
    while i < map.len()
        invariant
            i <= map.len(),
            names.len() == i,
            dirs.len() == i,
        decreases map.len() - i,
    {
        names.push(base_name(map[i].as_str()));
        dirs.push(is_dir(map[i].as_str()));
        i += 1;
    }
    routes_from_probes(map, &names, &dirs, redirect_html)
}

} // verus!
