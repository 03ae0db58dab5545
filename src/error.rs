use vstd::prelude::*;

verus! {

/// The three classes of fatal failure.
#[derive(Clone, Copy, Debug, PartialEq, Eq, Structural)]
pub enum ErrorKind {
    /// A configuration file could not be opened or read.
    Io,
    /// Malformed TOML, or a malformed socket address.
    Parse,
    /// An empty or colliding route table, empty addresses, or a nameless path.
    Validation,
}

/// Why no configuration could be produced.
#[derive(Clone, Debug)]
pub enum ConfigError {
    /// The file at `path` could not be opened or read.
    Io { path: String, reason: String },
    /// The text of `file` is not a well-formed configuration document.
    Parse { file: String, message: String },
    /// An entry of `addrs` in `file` is not a socket address.
    BadAddr { file: String, addr: String },
    /// Two routes of `file` share the key `url`.
    DuplicateRoute { file: String, url: String },
    /// `file` lists no address to bind.
    EmptyAddrs { file: String },
    /// `file` lists no route.
    EmptyRoutes { file: String },
    /// No route can be made: the command line names no path.
    NoPaths,
    /// The command-line path `path` has no base name to derive a key from.
    NoBaseName { path: String },
    /// Two command-line paths derive the same key `url`.
    DuplicatePath { url: String },
}

impl ConfigError {
    pub open spec fn spec_kind(&self) -> ErrorKind {
        match self {
            ConfigError::Io { .. } => ErrorKind::Io,
            ConfigError::Parse { .. } => ErrorKind::Parse,
            ConfigError::BadAddr { .. } => ErrorKind::Parse,
            _ => ErrorKind::Validation,
        }
    }

    /// The class of this failure.
    pub fn kind(&self) -> (k: ErrorKind)
        ensures
            k == self.spec_kind(),
    {
        match self {
            ConfigError::Io { .. } => ErrorKind::Io,
            ConfigError::Parse { .. } => ErrorKind::Parse,
            ConfigError::BadAddr { .. } => ErrorKind::Parse,
            _ => ErrorKind::Validation,
        }
    }
}

} // verus!
