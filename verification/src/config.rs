use vstd::prelude::*;
use crate::text::{decimal, decimal_text};

verus! {

/// What a look at a path on disk found.
#[derive(Debug, Clone, Copy, PartialEq, Eq, Structural)]
pub enum PathKind {
    /// Nothing exists at the path.
    Missing,
    /// Something exists at the path, but it is not a directory.
    NotDirectory,
    /// The path names a directory.
    Directory,
}

/// Why a path was refused.
#[derive(Debug, Clone, Copy, PartialEq, Eq, Structural)]
pub enum PathProblem {
    DoesNotExist,
    NotADirectory,
}

/// The options of the configuration file, by name.
#[derive(Debug, Clone, Copy, PartialEq, Eq, Structural)]
pub enum ConfigShadowFieldName {
    WebPort,
    SocketPort,
    WebPath,
    PollRate,
}

pub open spec fn field_name_spec(f: ConfigShadowFieldName) -> Seq<char> {
    match f {
        ConfigShadowFieldName::WebPort => "web_port"@,
        ConfigShadowFieldName::SocketPort => "socket_port"@,
        ConfigShadowFieldName::WebPath => "web_path"@,
        ConfigShadowFieldName::PollRate => "poll_rate"@,
    }
}

impl ConfigShadowFieldName {
    /// The option's name as it is written in the configuration file.
    pub fn name(&self) -> (r: &'static str)
        ensures
            r@ == field_name_spec(*self),
    {
        match self {
            ConfigShadowFieldName::WebPort => "web_port",
            ConfigShadowFieldName::SocketPort => "socket_port",
            ConfigShadowFieldName::WebPath => "web_path",
            ConfigShadowFieldName::PollRate => "poll_rate",
        }
    }
}

/// A configuration that was refused.
#[derive(Debug, Clone, PartialEq, Eq)]
pub enum ConfigError {
    /// "socket_port and web_port cannot be the same"
    SamePorts,
    /// "Config option \"{option}\" is out of range (min: {min}, max: {max}, val: {value})"
    OutOfRange { option: ConfigShadowFieldName, min: u16, max: u16, value: u16 },
    /// With a field: "Config option \"{option}\" is not a valid path: \"{path}\" does not
    /// exist" (or "is not a directory"); without one, for the built-in web path:
    /// "\"{path}\" does not exist" (or "is not a directory").
    InvalidPath { field: Option<ConfigShadowFieldName>, path: String, problem: PathProblem },
}

/// A `ConfigError` with its path as a sequence of characters.
pub enum ConfigErrorView {
    SamePorts,
    OutOfRange { option: ConfigShadowFieldName, min: u16, max: u16, value: u16 },
    InvalidPath { field: Option<ConfigShadowFieldName>, path: Seq<char>, problem: PathProblem },
}

impl View for ConfigError {
    type V = ConfigErrorView;

    open spec fn view(&self) -> ConfigErrorView {
        match self {
            ConfigError::SamePorts => ConfigErrorView::SamePorts,
            ConfigError::OutOfRange { option, min, max, value } => ConfigErrorView::OutOfRange {
                option: *option,
                min: *min,
                max: *max,
                value: *value,
            },
            ConfigError::InvalidPath { field, path, problem } => ConfigErrorView::InvalidPath {
                field: *field,
                path: path@,
                problem: *problem,
            },
        }
    }
}

/// The words for a refused path.
pub open spec fn problem_text(p: PathProblem) -> Seq<char> {
    match p {
        PathProblem::DoesNotExist => "does not exist"@,
        PathProblem::NotADirectory => "is not a directory"@,
    }
}

/// The message of a refused configuration, numbers written in decimal.
pub open spec fn config_error_text(e: ConfigErrorView) -> Seq<char> {
    match e {
        ConfigErrorView::SamePorts => "socket_port and web_port cannot be the same"@,
        ConfigErrorView::OutOfRange { option, min, max, value } => "Config option \""@
            + field_name_spec(option) + "\" is out of range (min: "@ + decimal_text(min as nat)
            + ", max: "@ + decimal_text(max as nat) + ", val: "@ + decimal_text(value as nat)
            + ")"@,
        ConfigErrorView::InvalidPath { field: Some(f), path, problem } => "Config option \""@
            + field_name_spec(f) + "\" is not a valid path: \""@ + path + "\" "@ + problem_text(
            problem,
        ),
        ConfigErrorView::InvalidPath { field: None, path, problem } => "\""@ + path + "\" "@
            + problem_text(problem),
    }
}

impl PathProblem {
    /// The words for this problem.
    pub fn text(&self) -> (r: &'static str)
        ensures
            r@ == problem_text(*self),
    {
        match self {
            PathProblem::DoesNotExist => "does not exist",
            PathProblem::NotADirectory => "is not a directory",
        }
    }
}

impl ConfigError {
    /// The message of this error, as the program reports it.
    pub fn message(&self) -> (r: String)
        ensures
            r@ == config_error_text(self@),
    {
        match self {
            ConfigError::SamePorts => {
                let mut m = String::from_str(ConfigShadowFieldName::SocketPort.name());
                m.append(" and ");
                m.append(ConfigShadowFieldName::WebPort.name());
                m.append(" cannot be the same");
                proof {
                    reveal_strlit("socket_port");
                    reveal_strlit("web_port");
                    reveal_strlit(" and ");
                    reveal_strlit(" cannot be the same");
                    reveal_strlit("socket_port and web_port cannot be the same");
                    assert(m@ =~= "socket_port and web_port cannot be the same"@);
                }
                m
            },
            ConfigError::OutOfRange { option, min, max, value } => {
                let mut m = String::from_str("Config option \"");
                m.append(option.name());
                m.append("\" is out of range (min: ");
                m.append(decimal(*min).as_str());
                m.append(", max: ");
                m.append(decimal(*max).as_str());
                m.append(", val: ");
                m.append(decimal(*value).as_str());
                m.append(")");
                m
            },
            ConfigError::InvalidPath { field, path, problem } => {
                let mut m = match field {
                    Some(f) => {
                        let mut m = String::from_str("Config option \"");
                        m.append(f.name());
                        m.append("\" is not a valid path: \"");
                        m
                    },
                    None => String::from_str("\""),
                };
                m.append(path.as_str());
                m.append("\" ");
                m.append(problem.text());
                m
            },
        }
    }
}

/// The lowest and highest port the web server may use.
pub const PORT_MIN: u16 = 8000;
pub const PORT_MAX: u16 = 65535;
/// The lowest and highest poll rate, in Hz.
pub const POLL_MIN: u16 = 1;
pub const POLL_MAX: u16 = 1000;
/// Web path of the built-in configuration.
pub const DEFAULT_WEB_PATH: &'static str = "./web";

/// The options as read from a configuration file; an option that the file
/// leaves out has its default value.
#[derive(Debug, Clone)]
pub struct ConfigShadow {
    pub web_port: u16,
    pub socket_port: u16,
    pub web_path: String,
    pub poll_rate: u16,
}

/// The abstract content of a configuration.
pub struct ConfigView {
    pub web_port: u16,
    pub socket_port: u16,
    pub web_path: Seq<char>,
    pub poll_rate: u16,
}

impl ConfigView {
    /// What every configuration that the library hands out satisfies.
    pub open spec fn valid(self) -> bool {
        &&& self.web_port != self.socket_port
        &&& PORT_MIN <= self.web_port <= PORT_MAX
        &&& POLL_MIN <= self.poll_rate <= POLL_MAX
    }
}

impl View for ConfigShadow {
    type V = ConfigView;

    open spec fn view(&self) -> ConfigView {
        ConfigView {
            web_port: self.web_port,
            socket_port: self.socket_port,
            web_path: self.web_path@,
            poll_rate: self.poll_rate,
        }
    }
}

/// The default options: web port 8000, websocket port 8001, web path
/// "./web", poll rate 60.
pub open spec fn default_config_view() -> ConfigView {
    ConfigView { web_port: 8000, socket_port: 8001, web_path: "./web"@, poll_rate: 60 }
}

impl Default for ConfigShadow {
    fn default() -> (r: ConfigShadow)
        ensures
            r@ == default_config_view(),
    {
        ConfigShadow {
            web_port: 8000,
            socket_port: 8001,
            web_path: String::from_str(DEFAULT_WEB_PATH),
            poll_rate: 60,
        }
    }
}

/// A checked configuration.
#[derive(Debug, PartialEq)]
pub struct Config {
    /// Port to run the http server on
    web_port: u16,
    /// Port to run the websocket on
    socket_port: u16,
    /// Path to static web files (index.html etc.)
    web_path: String,
    /// How often the DMA thread should poll for data in one second (in Hz)
    poll_rate: u16,
}

impl View for Config {
    type V = ConfigView;

    closed spec fn view(&self) -> ConfigView {
        ConfigView {
            web_port: self.web_port,
            socket_port: self.socket_port,
            web_path: self.web_path@,
            poll_rate: self.poll_rate,
        }
    }
}

impl Config {
    /// Every configuration value is valid.
    #[verifier::type_invariant]
    spec fn inv(&self) -> bool {
        self@.valid()
    }
}

impl Clone for Config {
    fn clone(&self) -> (r: Config)
        ensures
            r@ == self@,
    {
        proof {
            use_type_invariant(self);
        }
        Config {
            web_port: self.web_port,
            socket_port: self.socket_port,
            web_path: self.web_path.clone(),
            poll_rate: self.poll_rate,
        }
    }
}

impl Default for Config {
    fn default() -> (r: Config)
        ensures
            r@ == default_config_view(),
            r@.valid(),
    {
        Config {
            web_port: 8000,
            socket_port: 8001,
            web_path: String::from_str(DEFAULT_WEB_PATH),
            poll_rate: 60,
        }
    }
}

/// The abstract form of a configuration result.
pub open spec fn config_result_view(r: Result<Config, ConfigError>) -> Result<ConfigView, ConfigErrorView> {
    match r {
        Ok(c) => Ok(c@),
        Err(e) => Err(e@),
    }
}

/// Error for a path that is not a directory, if it is not one.
pub open spec fn path_problem(kind: PathKind) -> Option<PathProblem> {
    match kind {
        PathKind::Missing => Some(PathProblem::DoesNotExist),
        PathKind::NotDirectory => Some(PathProblem::NotADirectory),
        PathKind::Directory => None,
    }
}

/// What checking the options of a configuration file gives, the web path
/// being of kind `kind`: the first rule broken, in this order, is reported:
/// the two ports must differ; the web port must lie in 8000..=65535 (it is
/// checked a second time under the name of the websocket port, which itself
/// is not range-checked); the poll rate must lie in 1..=1000; the web path
/// must be a directory.
pub open spec fn check_shadow(s: ConfigView, kind: PathKind) -> Result<ConfigView, ConfigErrorView> {
    if s.web_port == s.socket_port {
        Err(ConfigErrorView::SamePorts)
    } else if !(PORT_MIN <= s.web_port <= PORT_MAX) {
        Err(
            ConfigErrorView::OutOfRange {
                option: ConfigShadowFieldName::WebPort,
                min: PORT_MIN,
                max: PORT_MAX,
                value: s.web_port,
            },
        )
    } else if !(POLL_MIN <= s.poll_rate <= POLL_MAX) {
        Err(
            ConfigErrorView::OutOfRange {
                option: ConfigShadowFieldName::PollRate,
                min: POLL_MIN,
                max: POLL_MAX,
                value: s.poll_rate,
            },
        )
    } else if let Some(p) = path_problem(kind) {
        Err(
            ConfigErrorView::InvalidPath {
                field: Some(ConfigShadowFieldName::WebPath),
                path: s.web_path,
                problem: p,
            },
        )
    } else {
        Ok(s)
    }
}

/// What loading the configuration gives: the checked options of the file if
/// one was found, else the default options, provided their web path is a
/// directory.
pub open spec fn load_config(found: Option<ConfigView>, kind: PathKind) -> Result<ConfigView, ConfigErrorView> {
    match found {
        Some(s) => check_shadow(s, kind),
        None => match path_problem(kind) {
            Some(p) => Err(
                ConfigErrorView::InvalidPath { field: None, path: "./web"@, problem: p },
            ),
            None => Ok(default_config_view()),
        },
    }
}

/// The defaults are web port 8000, websocket port 8001, web path "./web"
/// and poll rate 60, and they are a valid configuration; the web port must
/// lie in 8000..=65535 and the poll rate in 1..=1000.
pub proof fn lemma_defaults_and_ranges()
    ensures
        default_config_view().web_port == 8000,
        default_config_view().socket_port == 8001,
        default_config_view().web_path == "./web"@,
        default_config_view().poll_rate == 60,
        default_config_view().valid(),
        DEFAULT_WEB_PATH@ == "./web"@,
        PORT_MIN == 8000 && PORT_MAX == 65535,
        POLL_MIN == 1 && POLL_MAX == 1000,
        forall|c: ConfigView| #[trigger] c.valid() ==> c.web_port >= 8000 && c.web_port
            != c.socket_port && 1 <= c.poll_rate <= 1000,
{
}

/// Loading succeeds exactly when the web path is a directory and, if a
/// configuration file was found, its options are valid; the configuration
/// loaded is then the file's options, or the defaults when there is no file.
/// A found file whose valid options name a web path that is not a directory
/// is refused for that path.
pub proof fn lemma_load_config(found: Option<ConfigView>, kind: PathKind)
    ensures
        load_config(found, kind) is Ok <==> (kind == PathKind::Directory && (found matches Some(s)
            ==> s.valid())),
        load_config(found, kind) matches Ok(c) ==> c == (match found {
            Some(s) => s,
            None => default_config_view(),
        }),
        load_config(found, kind) matches Ok(c) ==> c.valid(),
        found matches Some(s) && s.web_port == s.socket_port ==> load_config(found, kind) == Err::<
            ConfigView,
            ConfigErrorView,
        >(ConfigErrorView::SamePorts),
        found matches Some(s) && s.valid() && kind != PathKind::Directory ==> load_config(
            found,
            kind,
        ) == Err::<ConfigView, ConfigErrorView>(
            ConfigErrorView::InvalidPath {
                field: Some(ConfigShadowFieldName::WebPath),
                path: found->0.web_path,
                problem: if kind == PathKind::Missing {
                    PathProblem::DoesNotExist
                } else {
                    PathProblem::NotADirectory
                },
            },
        ),
{
}

/// Checks that `min <= value <= max`.
pub fn check_in_range(option: ConfigShadowFieldName, value: u16, min: u16, max: u16) -> (r: Result<(), ConfigError>)
    ensures
        min <= value <= max ==> r is Ok,
        !(min <= value <= max) ==> r == Err::<(), ConfigError>(
            ConfigError::OutOfRange { option, min, max, value },
        ),
{
    if min <= value && value <= max {
        Ok(())
    } else {
        Err(ConfigError::OutOfRange { option, min, max, value })
    }
}

/// Checks that `path`, of kind `kind`, is a directory.
pub fn check_valid_path(option: ConfigShadowFieldName, path: &str, kind: PathKind) -> (r: Result<(), ConfigError>)
    ensures
        path_problem(kind) is None ==> r is Ok,
        path_problem(kind) matches Some(p) ==> (r matches Err(e) && e@ == ConfigErrorView::InvalidPath {
            field: Some(option),
            path: path@,
            problem: p,
        }),
{
    match kind {
        PathKind::Missing => Err(
            ConfigError::InvalidPath {
                field: Some(option),
                path: path.to_owned(),
                problem: PathProblem::DoesNotExist,
            },
        ),
        PathKind::NotDirectory => Err(
            ConfigError::InvalidPath {
                field: Some(option),
                path: path.to_owned(),
                problem: PathProblem::NotADirectory,
            },
        ),
        PathKind::Directory => Ok(()),
    }
}

impl Config {
    /// Checks the options of a configuration file; `web_path` says what is
    /// found on disk at `shadow.web_path`.
    pub fn try_from(shadow: ConfigShadow, web_path: PathKind) -> (r: Result<Config, ConfigError>)
        ensures
            config_result_view(r) == check_shadow(shadow@, web_path),
            r matches Ok(c) ==> c@.valid(),
    {
        if shadow.web_port == shadow.socket_port {
            return Err(ConfigError::SamePorts);
        }
        check_in_range(ConfigShadowFieldName::WebPort, shadow.web_port, PORT_MIN, PORT_MAX)?;
        check_in_range(ConfigShadowFieldName::SocketPort, shadow.web_port, PORT_MIN, PORT_MAX)?;
        check_in_range(ConfigShadowFieldName::PollRate, shadow.poll_rate, POLL_MIN, POLL_MAX)?;
        check_valid_path(ConfigShadowFieldName::WebPath, shadow.web_path.as_str(), web_path)?;
        Ok(
            Config {
                web_port: shadow.web_port,
                web_path: shadow.web_path,
                socket_port: shadow.socket_port,
                poll_rate: shadow.poll_rate,
            },
        )
    }

    /// Loads the configuration: `found` holds the options of the
    /// configuration file when one exists, and `web_path` says what is found
    /// on disk at the web path that applies (that of the file, else "./web").
    /// Without a file the default configuration is used.
    pub fn from_file(found: Option<ConfigShadow>, web_path: PathKind) -> (r: Result<Config, ConfigError>)
        ensures
            config_result_view(r) == load_config(
                match found {
                    Some(s) => Some(s@),
                    None => None,
                },
                web_path,
            ),
            r matches Ok(c) ==> c@.valid(),
    {
        match found {
            Some(shadow) => Config::try_from(shadow, web_path),
            None => {
                let cfg = Config::default();
                match web_path {
                    PathKind::Missing => Err(
                        ConfigError::InvalidPath {
                            field: None,
                            path: String::from_str(DEFAULT_WEB_PATH),
                            problem: PathProblem::DoesNotExist,
                        },
                    ),
                    PathKind::NotDirectory => Err(
                        ConfigError::InvalidPath {
                            field: None,
                            path: String::from_str(DEFAULT_WEB_PATH),
                            problem: PathProblem::NotADirectory,
                        },
                    ),
                    PathKind::Directory => Ok(cfg),
                }
            },
        }
    }

    pub fn web_port(&self) -> (r: u16)
        ensures
            r == self@.web_port,
            self@.valid(),
    {
        proof {
            use_type_invariant(self);
        }
        self.web_port
    }

    pub fn websocket_port(&self) -> (r: u16)
        ensures
            r == self@.socket_port,
            self@.valid(),
    {
        proof {
            use_type_invariant(self);
        }
        self.socket_port
    }

    pub fn web_path(&self) -> (r: &str)
        ensures
            r@ == self@.web_path,
            self@.valid(),
    {
        proof {
            use_type_invariant(self);
        }
        self.web_path.as_str()
    }

    pub fn poll_rate(&self) -> (r: u16)
        ensures
            r == self@.poll_rate,
            self@.valid(),
    {
        proof {
            use_type_invariant(self);
        }
        self.poll_rate
    }
}

} // verus!
