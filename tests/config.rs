use fht2p_config::addr::{IpAddr, SockAddr};
use fht2p_config::config::{
    Config, Document, RouteEntry, Setting, DEFAULT_CACHE_SECS, DEFAULT_CONFIG_NAME,
    DEFAULT_CONFIG_TEXT, DEFAULT_MAGIC_LIMIT,
};
use fht2p_config::error::{ConfigError, ErrorKind};

fn entry(url: &str, path: &str) -> RouteEntry {
    RouteEntry { url: url.to_string(), path: path.to_string(), redirect_html: false }
}

fn local(port: u16) -> SockAddr {
    SockAddr::new(IpAddr::V4(127, 0, 0, 1), port)
}

fn document(addrs: &[&str], routes: Vec<RouteEntry>) -> Document {
    Document {
        setting: Setting {
            keep_alive: false,
            magic_limit: 4096,
            follow_links: false,
            cache_secs: 5,
            addrs: addrs.iter().map(|a| a.to_string()).collect(),
        },
        routes,
    }
}

#[test]
fn default_config_has_one_route_and_one_address() {
    let c = Config::default();
    assert_eq!(c.routes.len(), 1);
    assert_eq!(c.routes[0].url, "/");
    assert_eq!(c.routes[0].path, ".");
    assert!(!c.routes[0].redirect_html);
    assert_eq!(c.addrs, vec![local(8080)]);
    assert!(c.keep_alive);
    assert!(c.follow_links);
    assert_eq!(c.cache_secs, DEFAULT_CACHE_SECS);
    assert_eq!(c.magic_limit, 10485760);
    assert_eq!(DEFAULT_MAGIC_LIMIT, 10485760);
}

// Reads "a.b.c.d:port"; enough for the addresses these tests write.
fn parse_v4(text: &str) -> Option<SockAddr> {
    let (ip, port) = text.split_once(':')?;
    let octets: Vec<u8> = ip.split('.').map(|o| o.parse::<u8>().ok()).collect::<Option<Vec<u8>>>()?;
    if octets.len() != 4 {
        return None;
    }
    let port = port.parse::<u16>().ok()?;
    Some(SockAddr::new(IpAddr::V4(octets[0], octets[1], octets[2], octets[3]), port))
}

#[test]
fn default_text_loads_like_the_default() {
    let table: toml::Table = toml::from_str(DEFAULT_CONFIG_TEXT).unwrap();
    let setting = table["setting"].as_table().unwrap();
    let addrs: Vec<String> = setting["addrs"]
        .as_array()
        .unwrap()
        .iter()
        .map(|v| v.as_str().unwrap().to_string())
        .collect();
    let routes: Vec<RouteEntry> = table["routes"]
        .as_array()
        .unwrap()
        .iter()
        .map(|r| RouteEntry {
            url: r["url"].as_str().unwrap().to_string(),
            path: r["path"].as_str().unwrap().to_string(),
            redirect_html: r["redirect-html"].as_bool().unwrap(),
        })
        .collect();
    let doc = Document {
        setting: Setting {
            keep_alive: setting["keep-alive"].as_bool().unwrap(),
            magic_limit: setting["magic-limit"].as_integer().unwrap() as u64,
            follow_links: setting["follow-links"].as_bool().unwrap(),
            cache_secs: setting["cache-secs"].as_integer().unwrap() as u32,
            addrs,
        },
        routes,
    };
    let parsed: Vec<Option<SockAddr>> = doc.setting.addrs.iter().map(|a| parse_v4(a)).collect();
    let loaded = Config::load_from_document(DEFAULT_CONFIG_NAME, &doc, &parsed).unwrap();
    let default = Config::default();
    assert_eq!(loaded.addrs, default.addrs);
    assert_eq!(loaded.routes.len(), default.routes.len());
    assert_eq!(loaded.routes[0].url, default.routes[0].url);
    assert_eq!(loaded.routes[0].path, default.routes[0].path);
    assert_eq!(loaded.routes[0].redirect_html, default.routes[0].redirect_html);
    assert_eq!(loaded.keep_alive, default.keep_alive);
    assert_eq!(loaded.follow_links, default.follow_links);
    assert_eq!(loaded.cache_secs, default.cache_secs);
    assert_eq!(loaded.magic_limit, default.magic_limit);
}

#[test]
fn document_loads_settings_addresses_and_routes() {
    let doc = document(&["127.0.0.1:80", "127.0.0.1:81"], vec![entry("/", "."), entry("/docs/", "/srv/docs")]);
    let parsed = vec![Some(local(80)), Some(local(81))];
    let c = Config::load_from_document("a.toml", &doc, &parsed).unwrap();
    assert!(!c.keep_alive);
    assert!(!c.follow_links);
    assert_eq!(c.magic_limit, 4096);
    assert_eq!(c.cache_secs, 5);
    assert_eq!(c.addrs, vec![local(80), local(81)]);
    assert_eq!(c.routes.len(), 2);
    assert_eq!(c.routes[1].url, "/docs/");
    assert_eq!(c.routes[1].path, "/srv/docs");
}

#[test]
fn duplicate_route_urls_are_rejected() {
    let doc = document(&["127.0.0.1:80"], vec![entry("/a", "x"), entry("/b", "y"), entry("/a", "z")]);
    let r = Config::load_from_document("dup.toml", &doc, &vec![Some(local(80))]);
    match r {
        Err(e) => {
            assert_eq!(e.kind(), ErrorKind::Validation);
            match e {
                ConfigError::DuplicateRoute { file, url } => {
                    assert_eq!(file, "dup.toml");
                    assert_eq!(url, "/a");
                }
                other => panic!("unexpected error {:?}", other),
            }
        }
        Ok(_) => panic!("duplicate routes accepted"),
    }
}

#[test]
fn empty_addrs_are_rejected() {
    let doc = document(&[], vec![entry("/", ".")]);
    let e = Config::load_from_document("e.toml", &doc, &vec![]).unwrap_err();
    assert_eq!(e.kind(), ErrorKind::Validation);
    assert!(matches!(e, ConfigError::EmptyAddrs { .. }));
}

#[test]
fn missing_routes_are_rejected() {
    let doc = document(&["127.0.0.1:80"], vec![]);
    let e = Config::load_from_document("e.toml", &doc, &vec![Some(local(80))]).unwrap_err();
    assert_eq!(e.kind(), ErrorKind::Validation);
    assert!(matches!(e, ConfigError::EmptyRoutes { .. }));
}

#[test]
fn malformed_address_is_a_parse_error() {
    let doc = document(&["127.0.0.1:80", "not-an-address"], vec![entry("/", ".")]);
    let e = Config::load_from_document("p.toml", &doc, &vec![Some(local(80)), None]).unwrap_err();
    assert_eq!(e.kind(), ErrorKind::Parse);
    match e {
        ConfigError::BadAddr { file, addr } => {
            assert_eq!(file, "p.toml");
            assert_eq!(addr, "not-an-address");
        }
        other => panic!("unexpected error {:?}", other),
    }
}

#[test]
fn malformed_address_wins_over_duplicate_routes() {
    let doc = document(&["bad"], vec![entry("/", "."), entry("/", ".")]);
    let e = Config::load_from_document("p.toml", &doc, &vec![None]).unwrap_err();
    assert_eq!(e.kind(), ErrorKind::Parse);
}

#[test]
fn io_error_kind() {
    let e = ConfigError::Io { path: "x.toml".to_string(), reason: "missing".to_string() };
    assert_eq!(e.kind(), ErrorKind::Io);
}
