use vstd::prelude::*;
use crate::addr::{IpAddr, SockAddr};
use crate::error::{ConfigError, ErrorKind};
use crate::route::{has_url, insert_route, urls_distinct, Route};

verus! {

/// Bytes inspected to guess a content type, unless configured otherwise.
pub const DEFAULT_MAGIC_LIMIT: u64 = 10485760;

/// Seconds of caching announced, unless configured otherwise.
pub const DEFAULT_CACHE_SECS: u32 = 60;

/// The port listened on, unless configured otherwise.
pub const DEFAULT_PORT: u16 = 8080;

/// The name of the program, which names its configuration directory.
pub const APP_NAME: &'static str = "fht2p";

/// The base name of a configuration file that is searched for.
pub const CONFIG_FILE_NAME: &'static str = "fht2p.toml";

/// The name under which errors in the built-in configuration are reported.
pub const DEFAULT_CONFIG_NAME: &'static str = "CONFIG-STR";

/// The built-in configuration document.
pub const DEFAULT_CONFIG_TEXT: &'static str = "[setting]\nkeep-alive = true\nmagic-limit = 10485760\nfollow-links = true\ncache-secs = 60\naddrs = [\"127.0.0.1:8080\"]\n\n[[routes]]\nurl = \"/\"\npath = \".\"\nredirect-html = false\n";

/// The resolved configuration of the server.
#[derive(Clone, Debug)]
pub struct Config {
    pub keep_alive: bool,
    pub follow_links: bool,
    pub cache_secs: u32,
    pub magic_limit: u64,
    pub addrs: Vec<SockAddr>,
    pub routes: Vec<Route>,
}

impl Config {
    /// A validated configuration: something to bind, something to serve,
    /// and no key used twice.
    pub open spec fn wf(&self) -> bool {
        &&& self.addrs@.len() > 0
        &&& self.routes@.len() > 0
        &&& urls_distinct(self.routes@)
    }

    /// The configuration that applies when nothing else is given: one route
    /// `/` serving `.`, bound to 127.0.0.1:8080.
    pub open spec fn is_default(&self) -> bool {
        &&& self.keep_alive
        &&& self.follow_links
        &&& self.cache_secs == DEFAULT_CACHE_SECS
        &&& self.magic_limit == DEFAULT_MAGIC_LIMIT
        &&& self.addrs@ == seq![SockAddr { ip: IpAddr::V4(127, 0, 0, 1), port: DEFAULT_PORT }]
        &&& self.routes@.len() == 1
        &&& self.routes@[0].url@ == seq!['/']
        &&& self.routes@[0].path@ == seq!['.']
        &&& !self.routes@[0].redirect_html
    }
}

impl Default for Config {
    fn default() -> (r: Config)
        ensures
            r.is_default(),
            r.wf(),
    {
        proof {
            reveal_strlit("/");
            reveal_strlit(".");
        }
        let mut routes: Vec<Route> = Vec::new();
        routes.push(Route::new("/", ".", false));
        assert(routes@[0].url@ == seq!['/']);
        assert(routes@[0].path@ == seq!['.']);
        let mut addrs: Vec<SockAddr> = Vec::new();
        addrs.push(SockAddr::new(IpAddr::V4(127, 0, 0, 1), DEFAULT_PORT));
        assert(addrs@ =~= seq![SockAddr { ip: IpAddr::V4(127, 0, 0, 1), port: DEFAULT_PORT }]);
        Config {
            keep_alive: true,
            follow_links: true,
            cache_secs: DEFAULT_CACHE_SECS,
            magic_limit: DEFAULT_MAGIC_LIMIT,
            addrs,
            routes,
        }
    }
}

/// The `[setting]` section of a configuration document.
#[derive(Clone, Debug)]
pub struct Setting {
    pub keep_alive: bool,
    pub magic_limit: u64,
    pub follow_links: bool,
    pub cache_secs: u32,
    pub addrs: Vec<String>,
}

/// One `[[routes]]` entry of a configuration document.
#[derive(Clone, Debug)]
pub struct RouteEntry {
    pub url: String,
    pub path: String,
    pub redirect_html: bool,
}

/// A configuration document as read, before it is checked.
#[derive(Clone, Debug)]
pub struct Document {
    pub setting: Setting,
    pub routes: Vec<RouteEntry>,
}

/// Every address text was read as a socket address.
pub open spec fn all_parsed(parsed: Seq<Option<SockAddr>>) -> bool {
    forall|i: int| 0 <= i < parsed.len() ==> (#[trigger] parsed[i]) is Some
}

/// Index `i` holds the first address text that is no socket address.
pub open spec fn first_bad_addr(parsed: Seq<Option<SockAddr>>, i: int) -> bool {
    &&& 0 <= i < parsed.len()
    &&& parsed[i] is None
    &&& forall|k: int| 0 <= k < i ==> (#[trigger] parsed[k]) is Some
}

/// The entry at index `j` repeats the key of an earlier entry.
pub open spec fn dup_at(entries: Seq<RouteEntry>, j: int) -> bool {
    exists|i: int| 0 <= i < j && (#[trigger] entries[i]).url@ == entries[j].url@
}

/// No two entries share a key.
pub open spec fn no_dup(entries: Seq<RouteEntry>) -> bool {
    forall|j: int| 0 <= j < entries.len() ==> !#[trigger] dup_at(entries, j)
}

/// Index `j` holds the first entry that repeats an earlier key.
pub open spec fn first_dup(entries: Seq<RouteEntry>, j: int) -> bool {
    &&& 0 <= j < entries.len()
    &&& dup_at(entries, j)
    &&& forall|k: int| 0 <= k < j ==> !#[trigger] dup_at(entries, k)
}

/// `c` is what `doc` describes, with the addresses read as `parsed`.
pub open spec fn matches_document(c: Config, doc: Document, parsed: Seq<Option<SockAddr>>) -> bool {
    &&& c.keep_alive == doc.setting.keep_alive
    &&& c.follow_links == doc.setting.follow_links
    &&& c.cache_secs == doc.setting.cache_secs
    &&& c.magic_limit == doc.setting.magic_limit
    &&& c.addrs@.len() == parsed.len()
    &&& forall|i: int| 0 <= i < parsed.len() ==> parsed[i] == Some(#[trigger] c.addrs@[i])
    &&& c.routes@.len() == doc.routes@.len()
    &&& forall|i: int|
        0 <= i < doc.routes@.len() ==> {
            &&& (#[trigger] c.routes@[i]).url@ == doc.routes@[i].url@
            &&& c.routes@[i].path@ == doc.routes@[i].path@
            &&& c.routes@[i].redirect_html == doc.routes@[i].redirect_html
        }
}

impl Config {
    /// Turns a configuration document read from `file_name` into a validated
    /// configuration; `parsed[i]` is the socket address that the text
    /// `doc.setting.addrs[i]` denotes, if any. The first malformed address,
    /// then the first repeated route key, then an empty address list, then an
    /// empty route table, is the error.
    pub fn load_from_document(
        file_name: &str,
        doc: &Document,
        parsed: &Vec<Option<SockAddr>>,
    ) -> (r: Result<Config, ConfigError>)
        requires
            parsed@.len() == doc.setting.addrs@.len(),
        ensures
            match r {
                Ok(c) => {
                    &&& all_parsed(parsed@)
                    &&& no_dup(doc.routes@)
                    &&& c.wf()
                    &&& matches_document(c, *doc, parsed@)
                },
                Err(ConfigError::BadAddr { file, addr }) => {
                    &&& file@ == file_name@
                    &&& exists|i: int|
                        #[trigger] first_bad_addr(parsed@, i) && addr@ == doc.setting.addrs@[i]@
                },
                Err(ConfigError::DuplicateRoute { file, url }) => {
                    &&& file@ == file_name@
                    &&& all_parsed(parsed@)
                    &&& exists|j: int| #[trigger] first_dup(doc.routes@, j) && url@ == doc.routes@[j].url@
                },
                Err(ConfigError::EmptyAddrs { file }) => {
                    &&& file@ == file_name@
                    &&& no_dup(doc.routes@)
                    &&& doc.setting.addrs@.len() == 0
                },
                Err(ConfigError::EmptyRoutes { file }) => {
                    &&& file@ == file_name@
                    &&& all_parsed(parsed@)
                    &&& doc.setting.addrs@.len() > 0
                    &&& doc.routes@.len() == 0
                },
                Err(_) => false,
            },
            !all_parsed(parsed@) ==> r matches Err(ConfigError::BadAddr { .. }),
            all_parsed(parsed@) && !no_dup(doc.routes@) ==> r matches Err(
                ConfigError::DuplicateRoute { .. },
            ),
            doc.setting.addrs@.len() == 0 || (all_parsed(parsed@) && doc.routes@.len() == 0) ==> (
            r matches Err(e) && e.spec_kind() == ErrorKind::Validation),
    {
        let mut addrs: Vec<SockAddr> = Vec::new();
        let mut i: usize = 0;
        while i < parsed.len()
            invariant
                i <= parsed@.len(),
                parsed@.len() == doc.setting.addrs@.len(),
                addrs@.len() == i,
                forall|k: int| 0 <= k < i ==> (#[trigger] parsed@[k]) is Some,
                forall|k: int| 0 <= k < i ==> parsed@[k] == Some(#[trigger] addrs@[k]),
            decreases parsed.len() - i,
        {
            match parsed[i] {
                Some(a) => addrs.push(a),
                None => {
                    assert(first_bad_addr(parsed@, i as int));
                    return Err(
                        ConfigError::BadAddr {
                            file: file_name.to_owned(),
                            addr: doc.setting.addrs[i].clone(),
                        },
                    );
                },
            }
            i += 1;
        }
        assert(all_parsed(parsed@));
        let mut routes: Vec<Route> = Vec::new();
        let mut j: usize = 0;
        while j < doc.routes.len()
            invariant
                j <= doc.routes@.len(),
                all_parsed(parsed@),
                parsed@.len() == doc.setting.addrs@.len(),
                addrs@.len() == parsed@.len(),
                routes@.len() == j,
                forall|k: int|
                    0 <= k < j ==> {
                        &&& (#[trigger] routes@[k]).url@ == doc.routes@[k].url@
                        &&& routes@[k].path@ == doc.routes@[k].path@
                        &&& routes@[k].redirect_html == doc.routes@[k].redirect_html
                    },
                forall|k: int| 0 <= k < j ==> !#[trigger] dup_at(doc.routes@, k),
                urls_distinct(routes@),
            decreases doc.routes.len() - j,
        {
            let entry = &doc.routes[j];
            let route = Route::new(entry.url.as_str(), entry.path.as_str(), entry.redirect_html);
            let ghost before = routes@;
            if !insert_route(&mut routes, route) {
                proof {
                    let k = choose|k: int|
                        0 <= k < before.len() && #[trigger] before[k].url@ == entry.url@;
                    assert(doc.routes@[k].url@ == doc.routes@[j as int].url@);
                    assert(dup_at(doc.routes@, j as int));
                    assert(first_dup(doc.routes@, j as int));
                }
                return Err(ConfigError::DuplicateRoute { file: file_name.to_owned(), url: entry.url.clone() });
            }
            assert forall|k: int| 0 <= k < j implies doc.routes@[k].url@ != doc.routes@[j as int].url@ by {
                assert(before[k].url@ == doc.routes@[k].url@);
            }
            assert(!dup_at(doc.routes@, j as int));
            j += 1;
        }
        assert(no_dup(doc.routes@));
        if addrs.len() == 0 {
            return Err(ConfigError::EmptyAddrs { file: file_name.to_owned() });
        }
        if routes.len() == 0 {
            return Err(ConfigError::EmptyRoutes { file: file_name.to_owned() });
        }
        Ok(
            Config {
                keep_alive: doc.setting.keep_alive,
                follow_links: doc.setting.follow_links,
                cache_secs: doc.setting.cache_secs,
                magic_limit: doc.setting.magic_limit,
                addrs,
                routes,
            },
        )
    }
}

} // verus!
