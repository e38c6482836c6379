//! The settings a server starts with, and where they come from.

use vstd::prelude::*;
use vstd::string::*;

verus! {

/// The port that is listened on where none is asked for.
pub const DEFAULT_PORT: u16 = 8008;

/// The directory that is served where a settings file names none.
pub const DEFAULT_PUBLIC: &'static str = "./";

/// An IP address, by its parts.
#[derive(Debug, Clone, Copy, PartialEq, Eq)]
pub enum Host {
    /// An IPv4 address, by its four octets.
    V4 { octets: [u8; 4] },
    /// An IPv6 address, by its eight groups of sixteen bits.
    V6 { segments: [u16; 8] },
}

/// The address `127.0.0.1`.
pub open spec fn loopback() -> Host {
    Host::V4 { octets: [127u8, 0u8, 0u8, 1u8] }
}

impl Host {
    /// The address `127.0.0.1`, on which a server listens unless a settings
    /// file says otherwise.
    pub fn localhost() -> (host: Host)
        ensures
            host == loopback(),
    {
        Host::V4 { octets: [127u8, 0u8, 0u8, 1u8] }
    }
}

/// A header to add to responses, as a settings file gives it.
#[derive(Debug)]
pub struct Header {
    pub key: String,
    pub value: String,
}

/// The mathematical value of a [`Header`].
pub ghost struct HeaderView {
    pub key: Seq<char>,
    pub value: Seq<char>,
}

impl View for Header {
    type V = HeaderView;

    open spec fn view(&self) -> HeaderView {
        HeaderView { key: self.key@, value: self.value@ }
    }
}

/// What the command line gave.
#[derive(Debug)]
pub struct Cli {
    /// The directory to serve.
    pub path: Option<String>,
    /// The settings file to read in place of the other arguments.
    pub config: Option<String>,
    /// Whether to show debugging information.
    pub debug: bool,
    /// The address on which to listen.
    pub host: Option<String>,
    /// The port on which to listen.
    pub port: u16,
}

/// Where the settings are taken from.
#[derive(Debug)]
pub enum ConfigSource {
    /// From the settings file at `path`.
    File { path: String },
    /// From the command line's own arguments.
    Arguments,
}

/// The mathematical value of a [`ConfigSource`].
pub ghost enum ConfigSourceView {
    File { path: Seq<char> },
    Arguments,
}

impl View for ConfigSource {
    type V = ConfigSourceView;

    open spec fn view(&self) -> ConfigSourceView {
        match *self {
            ConfigSource::File { path } => ConfigSourceView::File { path: path@ },
            ConfigSource::Arguments => ConfigSourceView::Arguments,
        }
    }
}

impl Cli {
    /// Where the settings are to come from: a settings file, where one is
    /// named, takes the place of every other argument.
    pub fn source(&self) -> (source: ConfigSource)
        ensures
            source@ == match self.config {
                Some(path) => ConfigSourceView::File { path: path@ },
                None => ConfigSourceView::Arguments,
            },
    {
        match &self.config {
            Some(path) => ConfigSource::File { path: path.clone() },
            None => ConfigSource::Arguments,
        }
    }
}

/// The settings of a server. They are made once and never change.
#[derive(Debug)]
pub struct Config {
    /// The directory whose files are served.
    pub public: String,
    /// The port on which to listen.
    pub port: u16,
    /// The address on which to listen.
    pub host: Host,
    /// Headers to add to responses. They are kept and not applied.
    pub headers: Vec<Header>,
}

/// The mathematical value of a [`Config`].
pub ghost struct ConfigView {
    pub public: Seq<char>,
    pub port: int,
    pub host: Host,
    pub headers: Seq<HeaderView>,
}

impl View for Config {
    type V = ConfigView;

    open spec fn view(&self) -> ConfigView {
        ConfigView {
            public: self.public@,
            port: self.port as int,
            host: self.host,
            headers: Seq::new(self.headers@.len(), |i: int| self.headers@[i]@),
        }
    }
}

/// The settings of a server that was told nothing: the directory `./` on
/// `127.0.0.1`, port 8008, no headers.
pub open spec fn default_config() -> ConfigView {
    ConfigView {
        public: DEFAULT_PUBLIC@,
        port: DEFAULT_PORT as int,
        host: loopback(),
        headers: Seq::empty(),
    }
}

/// The settings that the arguments `cli` ask for, in the working directory
/// `working_dir`: the directory named, or else the working directory; the
/// port named; always `127.0.0.1`; no headers.
pub open spec fn config_of_arguments(cli: Cli, working_dir: Seq<char>) -> ConfigView {
    ConfigView {
        public: match cli.path {
            Some(path) => path@,
            None => working_dir,
        },
        port: cli.port as int,
        host: loopback(),
        headers: Seq::empty(),
    }
}

impl Default for Config {
    fn default() -> (config: Config)
        ensures
            config@ == default_config(),
    {
        let config = Config {
            public: String::from_str(DEFAULT_PUBLIC),
            port: DEFAULT_PORT,
            host: Host::localhost(),
            headers: Vec::new(),
        };
        assert(config@.headers =~= Seq::empty());
        config
    }
}

impl Config {
    /// Whether the port is one that can be listened on.
    pub open spec fn wf(&self) -> bool {
        self.port >= 1
    }

    /// The settings that the arguments ask for. `working_dir` is the
    /// directory the process runs in; it is served where the arguments name
    /// no directory.
    pub fn from_cli(cli: Cli, working_dir: String) -> (config: Config)
        ensures
            config@ == config_of_arguments(cli, working_dir@),
            config.wf() <==> cli.port >= 1,
    {
        let public = match cli.path {
            Some(path) => path,
            None => working_dir,
        };
        let config = Config {
            public,
            port: cli.port,
            host: Host::localhost(),
            headers: Vec::new(),
        };
        assert(config@.headers =~= Seq::empty());
        config
    }
}

/// The settings to run with once a settings file was read: what it held, or
/// the default settings where it could not be read or understood.
pub fn load_config(loaded: Option<Config>) -> (config: Config)
    ensures
        match loaded {
            Some(read) => config == read,
            None => config@ == default_config(),
        },
{
    match loaded {
        Some(read) => read,
        None => Config::default(),
    }
}

} // verus!
