//! Server configuration and the plan for loading it: which dotenv files to
//! read and which configuration file wins.

use vstd::prelude::*;
use crate::environment::Environment;
use crate::text::{has_prefix, lower_of, lowercase, push_char, same_chars, starts_with};

verus! {

/// What `std::time::Duration::from_secs` gives for a number of seconds.
pub uninterp spec fn duration_of_secs(secs: u64) -> std::time::Duration;

/// Relies on `Duration::from_secs`: a duration of `secs` whole seconds.
#[verifier::external_body]
pub(crate) fn duration_from_secs(secs: u64) -> (r: std::time::Duration)
    ensures
        r == duration_of_secs(secs),
{
    std::time::Duration::from_secs(secs)
}

/// Seconds as an optional duration.
pub fn optional_secs(s: Option<u64>) -> (r: Option<std::time::Duration>)
    ensures
        s is None ==> r is None,
        s is Some ==> r == Some(duration_of_secs(s->Some_0)),
{
    match s {
        Some(n) => Some(duration_from_secs(n)),
        None => None,
    }
}

/// The character of a decimal digit.
pub open spec fn digit_char(d: nat) -> char {
    if d == 0 { '0' } else if d == 1 { '1' } else if d == 2 { '2' } else if d == 3 { '3' }
    else if d == 4 { '4' } else if d == 5 { '5' } else if d == 6 { '6' } else if d == 7 { '7' }
    else if d == 8 { '8' } else { '9' }
}

/// The decimal digits of `n`, most significant first, without leading zeros.
pub open spec fn decimal(n: nat) -> Seq<char>
    decreases n,
{
    if n < 10 {
        seq![digit_char(n)]
    } else {
        decimal(n / 10).push(digit_char(n % 10))
    }
}

fn digit(d: u64) -> (c: char)
    requires
        d < 10,
    ensures
        c == digit_char(d as nat),
{
    if d == 0 { '0' } else if d == 1 { '1' } else if d == 2 { '2' } else if d == 3 { '3' }
    else if d == 4 { '4' } else if d == 5 { '5' } else if d == 6 { '6' } else if d == 7 { '7' }
    else if d == 8 { '8' } else { '9' }
}

/// Appends the decimal digits of `n`.
pub fn push_decimal(out: &mut String, n: u64)
    ensures
        final(out)@ == old(out)@ + decimal(n as nat),
    decreases n,
{
    if n >= 10 {
        push_decimal(out, n / 10);
    }
    push_char(out, digit(n % 10));
    proof {
        if n < 10 {
            assert(decimal(n as nat) == seq![digit_char(n as nat)]);
        }
    }
}

/// `host:port`.
pub open spec fn host_port(host: Seq<char>, port: u16) -> Seq<char> {
    host + seq![':'] + decimal(port as nat)
}

/// `host:port` as text.
pub fn format_addr(host: &str, port: u16) -> (r: String)
    ensures
        r@ == host_port(host@, port),
{
    let mut out = host.to_owned();
    push_char(&mut out, ':');
    push_decimal(&mut out, port as u64);
    out
}

/// Why configuration could not be loaded.
#[derive(Clone, Debug)]
pub enum ConfigError {
    /// The configuration file does not exist.
    NotFound(String),
    /// The configuration could not be parsed.
    Parse(String),
}

impl ConfigError {
    /// The error as text, naming the path or the parser's message.
    pub fn message(&self) -> (r: String)
        ensures
            self is NotFound ==> r@ == "Config file not found: "@ + self->NotFound_0@,
            self is Parse ==> r@ == "Failed to parse config: "@ + self->Parse_0@,
    {
        match self {
            ConfigError::NotFound(p) => {
                let mut s = "Config file not found: ".to_owned();
                s.append(p.as_str());
                s
            },
            ConfigError::Parse(m) => {
                let mut s = "Failed to parse config: ".to_owned();
                s.append(m.as_str());
                s
            },
        }
    }
}

/// HTTP server configuration.
#[derive(Clone, Debug)]
pub struct ServerConfig {
    pub environment: Environment,
    pub host: String,
    pub port: u16,
    pub request_timeout_secs: u64,
    /// Allowed CORS origins; empty disables CORS.
    pub cors_origins: Vec<String>,
}

impl Default for ServerConfig {
    fn default() -> (r: ServerConfig)
        ensures
            r.environment == Environment::Development,
            r.host@ == "0.0.0.0"@,
            r.port == 3000,
            r.request_timeout_secs == 30,
            r.cors_origins@.len() == 0,
    {
        ServerConfig {
            environment: Environment::Development,
            host: "0.0.0.0".to_owned(),
            port: 3000,
            request_timeout_secs: 30,
            cors_origins: Vec::new(),
        }
    }
}

impl ServerConfig {
    pub fn builder() -> (r: ConfigBuilder)
        ensures
            r.is_empty(),
    {
        ConfigBuilder::new()
    }

    pub fn request_timeout(&self) -> (r: std::time::Duration)
        ensures
            r == duration_of_secs(self.request_timeout_secs),
    {
        duration_from_secs(self.request_timeout_secs)
    }

    /// The address to bind: `host:port`.
    pub fn addr(&self) -> (r: String)
        ensures
            r@ == host_port(self.host@, self.port),
    {
        format_addr(self.host.as_str(), self.port)
    }
}

/// Configuration file formats, told apart by extension.
#[derive(Clone, Copy, Debug, PartialEq, Eq, Structural)]
pub enum ConfigFormat {
    DotEnv,
    Toml,
    Yaml,
    Json,
}

/// The last position of `c` in `s`, or -1.
pub open spec fn last_index_of(s: Seq<char>, c: char) -> int
    decreases s.len(),
{
    if s.len() == 0 {
        -1
    } else if s.last() == c {
        s.len() - 1
    } else {
        last_index_of(s.drop_last(), c)
    }
}

/// The last `/`-separated component of a path.
pub open spec fn file_name_of(p: Seq<char>) -> Seq<char> {
    p.subrange(last_index_of(p, '/') + 1, p.len() as int)
}

/// The extension of a path: what follows the last dot of its file name,
/// none when the name has no dot but at its start, or is `..`.
pub open spec fn extension_of(p: Seq<char>) -> Option<Seq<char>> {
    let f = file_name_of(p);
    let i = last_index_of(f, '.');
    if f == ".."@ || i <= 0 {
        None
    } else {
        Some(f.subrange(i + 1, f.len() as int))
    }
}

/// The format that a lower-cased extension names.
pub open spec fn format_named(e: Seq<char>) -> Option<ConfigFormat> {
    if e == "env"@ {
        Some(ConfigFormat::DotEnv)
    } else if e == "toml"@ {
        Some(ConfigFormat::Toml)
    } else if e == "yaml"@ || e == "yml"@ {
        Some(ConfigFormat::Yaml)
    } else if e == "json"@ {
        Some(ConfigFormat::Json)
    } else {
        None
    }
}

/// The format of a path, by its extension in any case.
pub open spec fn format_of(p: Seq<char>) -> Option<ConfigFormat> {
    match extension_of(p) {
        Some(e) => format_named(lower_of(e)),
        None => None,
    }
}

fn last_index(s: &str, c: char) -> (r: Option<usize>)
    ensures
        r is None ==> last_index_of(s@, c) == -1,
        r is Some ==> last_index_of(s@, c) == r->Some_0 as int && r->Some_0 < s@.len(),
{
    let n = s.unicode_len();
    let mut i: usize = n;
    assert(s@.subrange(0, n as int) == s@);
    while i > 0
        invariant
            n == s@.len(),
            i <= n,
            last_index_of(s@, c) == last_index_of(s@.subrange(0, i as int), c),
        decreases i,
    {
        let ghost pre = s@.subrange(0, i as int);
        assert(pre.drop_last() == s@.subrange(0, i - 1));
        if s.get_char(i - 1) == c {
            return Some(i - 1);
        }
        i = i - 1;
    }
    None
}

/// The file name of a path, as [`file_name_of`] describes it.
pub fn file_name(p: &str) -> (r: String)
    ensures
        r@ == file_name_of(p@),
{
    proof {
        assert(p@.subrange(0, p@.len() as int) == p@);
    }
    let n = p.unicode_len();
    match last_index(p, '/') {
        Some(i) => p.substring_char(i + 1, n).to_owned(),
        None => p.substring_char(0, n).to_owned(),
    }
}

/// The extension of a path, as [`extension_of`] describes it.
pub fn extension(p: &str) -> (r: Option<String>)
    ensures
        r.deep_view() == extension_of(p@),
{
    let f = file_name(p);
    if same_chars(f.as_str(), "..") {
        return None;
    }
    let n = f.unicode_len();
    match last_index(f.as_str(), '.') {
        Some(i) => if i == 0 {
            None
        } else {
            Some(f.as_str().substring_char(i + 1, n).to_owned())
        },
        None => None,
    }
}

impl ConfigFormat {
    /// The format that an already lower-cased extension names.
    pub fn from_extension(e: &str) -> (r: Option<ConfigFormat>)
        ensures
            r == format_named(e@),
    {
        if same_chars(e, "env") {
            Some(ConfigFormat::DotEnv)
        } else if same_chars(e, "toml") {
            Some(ConfigFormat::Toml)
        } else if same_chars(e, "yaml") || same_chars(e, "yml") {
            Some(ConfigFormat::Yaml)
        } else if same_chars(e, "json") {
            Some(ConfigFormat::Json)
        } else {
            None
        }
    }

    /// The format of a path from its extension, in any case.
    pub fn from_path(p: &str) -> (r: Option<ConfigFormat>)
        ensures
            r == format_of(p@),
    {
        match extension(p) {
            Some(e) => {
                let l = lowercase(e.as_str());
                Self::from_extension(l.as_str())
            },
            None => None,
        }
    }
}

/// Whether a path names a dotenv file: `.env` extension, or, with no known
/// extension, a name starting with `.env` or equal to `env`.
pub open spec fn is_dotenv_path(p: Seq<char>) -> bool {
    match format_of(p) {
        Some(ConfigFormat::DotEnv) => true,
        Some(_) => false,
        None => has_prefix(file_name_of(p), ".env"@) || file_name_of(p) == "env"@,
    }
}

/// The dotenv files among `ps`, in order.
pub open spec fn dotenv_files_of(ps: Seq<Seq<char>>) -> Seq<Seq<char>>
    decreases ps.len(),
{
    if ps.len() == 0 {
        ps
    } else if is_dotenv_path(ps.last()) {
        dotenv_files_of(ps.drop_last()).push(ps.last())
    } else {
        dotenv_files_of(ps.drop_last())
    }
}

/// The configuration file that wins: the last one with a known format other
/// than dotenv.
pub open spec fn main_file_of(ps: Seq<Seq<char>>) -> Option<Seq<char>>
    decreases ps.len(),
{
    if ps.len() == 0 {
        None
    } else if format_of(ps.last()) is Some && format_of(ps.last()) != Some(ConfigFormat::DotEnv) {
        Some(ps.last())
    } else {
        main_file_of(ps.drop_last())
    }
}

/// Collects configuration sources.
#[derive(Clone, Debug)]
pub struct ConfigBuilder {
    pub load_default_dotenv: bool,
    pub config_files: Vec<String>,
    pub init_logging: bool,
}

/// What loading does: which dotenv files to read (each when it exists),
/// which configuration file to parse, and whether to start logging.
#[derive(Clone, Debug)]
pub struct LoadPlan {
    pub load_default_dotenv: bool,
    pub dotenv_files: Vec<String>,
    pub main_config_file: Option<String>,
    pub init_logging: bool,
}

impl ConfigBuilder {
    /// A builder with no sources.
    pub open spec fn is_empty(self) -> bool {
        !self.load_default_dotenv && self.config_files@.len() == 0 && !self.init_logging
    }

    pub fn new() -> (r: ConfigBuilder)
        ensures
            r.is_empty(),
    {
        ConfigBuilder { load_default_dotenv: false, config_files: Vec::new(), init_logging: false }
    }

    /// Also read `.env` from the working directory.
    pub fn with_dotenv(self) -> (r: ConfigBuilder)
        ensures
            r.load_default_dotenv,
            r.config_files == self.config_files,
            r.init_logging == self.init_logging,
    {
        ConfigBuilder { load_default_dotenv: true, ..self }
    }

    /// Adds a file; its format comes from its extension.
    pub fn with_config_file(self, path: &str) -> (r: ConfigBuilder)
        ensures
            r.load_default_dotenv == self.load_default_dotenv,
            r.config_files.deep_view() == self.config_files.deep_view().push(path@),
            r.init_logging == self.init_logging,
    {
        let ConfigBuilder { load_default_dotenv, mut config_files, init_logging } = self;
        config_files.push(path.to_owned());
        proof {
            assert(config_files.deep_view() == self.config_files.deep_view().push(path@));
        }
        ConfigBuilder { load_default_dotenv, config_files, init_logging }
    }

    /// Also start logging, with format and filter from the environment.
    pub fn with_logging_from_env(self) -> (r: ConfigBuilder)
        ensures
            r.load_default_dotenv == self.load_default_dotenv,
            r.config_files == self.config_files,
            r.init_logging,
    {
        ConfigBuilder { init_logging: true, ..self }
    }

    /// Whether a path names a dotenv file.
    pub fn is_dotenv_file(path: &str) -> (r: bool)
        ensures
            r == is_dotenv_path(path@),
    {
        match ConfigFormat::from_path(path) {
            Some(ConfigFormat::DotEnv) => true,
            Some(_) => false,
            None => {
                let f = file_name(path);
                starts_with(f.as_str(), ".env") || same_chars(f.as_str(), "env")
            },
        }
    }

    /// What loading these sources does.
    pub fn plan(&self) -> (r: LoadPlan)
        ensures
            r.load_default_dotenv == self.load_default_dotenv,
            r.init_logging == self.init_logging,
            r.dotenv_files.deep_view() == dotenv_files_of(self.config_files.deep_view()),
            r.main_config_file.deep_view() == main_file_of(self.config_files.deep_view()),
    {
        let ghost ps = self.config_files.deep_view();
        let mut dotenv_files: Vec<String> = Vec::new();
        let mut main: Option<String> = None;
        let mut i: usize = 0;
        while i < self.config_files.len()
            invariant
                ps == self.config_files.deep_view(),
                i <= ps.len(),
                dotenv_files.deep_view() == dotenv_files_of(ps.take(i as int)),
                main.deep_view() == main_file_of(ps.take(i as int)),
            decreases ps.len() - i,
        {
            let p = &self.config_files[i];
            proof {
                assert(ps.take(i + 1).drop_last() == ps.take(i as int));
                assert(ps.take(i + 1).last() == ps[i as int]);
                assert(ps[i as int] == p@);
            }
            let ghost before = dotenv_files.deep_view();
            match ConfigFormat::from_path(p.as_str()) {
                Some(ConfigFormat::DotEnv) => {
                    dotenv_files.push(p.clone());
                    assert(dotenv_files.deep_view() == before.push(p@));
                },
                Some(_) => {
                    main = Some(p.clone());
                },
                None => {
                    if Self::is_dotenv_file(p.as_str()) {
                        dotenv_files.push(p.clone());
                        assert(dotenv_files.deep_view() == before.push(p@));
                    }
                },
            }
            i = i + 1;
        }
        proof {
            assert(ps.take(ps.len() as int) == ps);
        }
        LoadPlan {
            load_default_dotenv: self.load_default_dotenv,
            dotenv_files,
            main_config_file: main,
            init_logging: self.init_logging,
        }
    }
}

impl LoadPlan {
    /// Whether loading can go on: it cannot when the configuration file that
    /// wins does not exist. `main_file_exists` answers for that file.
    pub fn check_main_file(&self, main_file_exists: bool) -> (r: Result<(), ConfigError>)
        ensures
            self.main_config_file is None || main_file_exists ==> r is Ok,
            self.main_config_file is Some && !main_file_exists ==> r is Err && r->Err_0 is NotFound
                && r->Err_0->NotFound_0 == self.main_config_file->Some_0,
    {
        match &self.main_config_file {
            Some(p) => if main_file_exists {
                Ok(())
            } else {
                Err(ConfigError::NotFound(p.clone()))
            },
            None => Ok(()),
        }
    }
}

} // verus!
