use vstd::prelude::*;
use crate::addr::{IpAddr, SockAddr};
use crate::config::Config;
use crate::error::ConfigError;
use crate::route::{args_paths_to_route, routes_outcome, Route};

verus! {

/// The values collected from the command line.
#[derive(Clone, Debug)]
pub struct CliOptions {
    /// Print the built-in configuration and stop.
    pub config_print: bool,
    /// A configuration file named explicitly.
    pub config_path: Option<String>,
    pub redirect_html: bool,
    pub keep_alive: bool,
    pub follow_links: bool,
    pub magic_limit: u64,
    pub cache_secs: u32,
    pub ip: IpAddr,
    pub port: u16,
    /// The paths to share, in the order given.
    pub paths: Vec<String>,
    /// The process received at least one argument.
    pub has_args: bool,
}

/// Where the configuration comes from.
#[derive(Clone, Debug)]
pub enum Source {
    /// Print the built-in configuration text and stop.
    PrintDefault,
    /// Load the named file; any failure is fatal.
    File(String),
    /// Search the well-known places for a file, else use the built-in text.
    Discover,
    /// Build the routes from the command-line paths.
    Arguments,
}

/// Picks the source of the configuration: printing the built-in text wins,
/// then an explicit file, then discovery when no argument was given at all,
/// and the command line otherwise.
pub fn choose_source(opts: &CliOptions) -> (s: Source)
    ensures
        opts.config_print ==> s matches Source::PrintDefault,
        !opts.config_print && opts.config_path is Some ==> (s matches Source::File(p) && p@
            == opts.config_path->Some_0@),
        !opts.config_print && opts.config_path is None && !opts.has_args ==> s matches Source::Discover,
        !opts.config_print && opts.config_path is None && opts.has_args ==> s matches Source::Arguments,
{
    if opts.config_print {
        Source::PrintDefault
    } else {
        match &opts.config_path {
            Some(p) => Source::File(p.clone()),
            None => {
                if opts.has_args {
                    Source::Arguments
                } else {
                    Source::Discover
                }
            },
        }
    }
}

/// The first candidate whose file exists, where `exists[i]` tells whether
/// `candidates[i]` does.
pub fn first_existing(candidates: &Vec<String>, exists: &Vec<bool>) -> (r: Option<String>)
    requires
        exists@.len() == candidates@.len(),
    ensures
        match r {
            Some(p) => exists|i: int|
                0 <= i < candidates@.len() && #[trigger] exists@[i] && p@ == candidates@[i]@
                    && forall|k: int| 0 <= k < i ==> !#[trigger] exists@[k],
            None => forall|i: int| 0 <= i < exists@.len() ==> !#[trigger] exists@[i],
        },
{
    let mut i: usize = 0;
    while i < candidates.len()
        invariant
            i <= candidates@.len(),
            exists@.len() == candidates@.len(),
            forall|k: int| 0 <= k < i ==> !#[trigger] exists@[k],
        decreases candidates.len() - i,
    {
        if exists[i] {
            let p = candidates[i].clone();
            assert(exists@[i as int]);
            return Some(p);
        }
        i += 1;
    }
    None
}

/// The route table of a successful result, or its error.
pub open spec fn routes_of(r: Result<Config, ConfigError>) -> Result<Vec<Route>, ConfigError> {
    match r {
        Ok(c) => Ok(c.routes),
        Err(e) => Err(e),
    }
}

impl Config {
    /// The configuration given by command-line values: the settings as given,
    /// one address from the IP and port, and the routes built from the paths.
    pub fn from_arguments(opts: &CliOptions) -> (r: Result<Config, ConfigError>)
        ensures
            opts.paths@.len() == 0 ==> r matches Err(ConfigError::NoPaths),
            opts.paths@.len() > 0 && r is Ok ==> r->Ok_0.wf(),
            opts.paths@.len() > 0 && r is Ok ==> {
                let c = r->Ok_0;
                &&& c.keep_alive == opts.keep_alive
                &&& c.follow_links == opts.follow_links
                &&& c.cache_secs == opts.cache_secs
                &&& c.magic_limit == opts.magic_limit
                &&& c.addrs@ == seq![SockAddr { ip: opts.ip, port: opts.port }]
            },
            opts.paths@.len() > 0 ==> exists|names: Seq<Option<String>>, dirs: Seq<bool>|
                names.len() == opts.paths@.len() && dirs.len() == opts.paths@.len()
                    && #[trigger] routes_outcome(opts.paths@, names, dirs, opts.redirect_html, routes_of(r)),
    {
        if opts.paths.len() == 0 {
            return Err(ConfigError::NoPaths);
        }
        let built = args_paths_to_route(opts.paths.as_slice(), opts.redirect_html);
        let routes: Vec<Route> = match built {
            Ok(routes) => routes,
            Err(e) => return Err(e),
        };
        let mut addrs: Vec<SockAddr> = Vec::new();
        addrs.push(SockAddr::new(opts.ip, opts.port));
        assert(addrs@ =~= seq![SockAddr { ip: opts.ip, port: opts.port }]);
        let c = Config {
            keep_alive: opts.keep_alive,
            follow_links: opts.follow_links,
            cache_secs: opts.cache_secs,
            magic_limit: opts.magic_limit,
            addrs,
            routes,
        };
        proof {
            let (names, dirs) = choose|names: Seq<Option<String>>, dirs: Seq<bool>|
                names.len() == opts.paths@.len() && dirs.len() == opts.paths@.len()
                    && #[trigger] routes_outcome(opts.paths@, names, dirs, opts.redirect_html, built);
            assert(built == Ok::<Vec<Route>, ConfigError>(c.routes));
            assert(c.routes@.len() == opts.paths@.len());
            assert(routes_outcome(opts.paths@, names, dirs, opts.redirect_html, routes_of(Ok(c))));
        }
        Ok(c)
    }
}

} // verus!
