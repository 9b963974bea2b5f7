//! The configuration: its shape, its defaults, its checks, where it is
//! read from, and which buttons apply to the running desktop.
use vstd::prelude::*;
use crate::error::ConfigError;
use crate::path::{joined_path, path_join};

verus! {

/// The system-wide configuration file.
pub const SYSTEM_CONFIG_PATH: &'static str = "/usr/share/fin/config.toml";

/// The directory of the system-wide stylesheets.
pub const SYSTEM_CSS_DIR: &'static str = "/usr/share/fin";

/// The persistent vector of `im` that holds the buttons of a configuration.
#[verifier::external_type_specification]
#[verifier::external_body]
#[verifier::reject_recursive_types(A)]
pub struct ImVector<A>(im::Vector<A>);

/// The persistent hash map of `im` that holds the commands of each desktop.
#[verifier::external_type_specification]
#[verifier::external_body]
#[verifier::reject_recursive_types(K)]
#[verifier::reject_recursive_types(V)]
#[verifier::reject_recursive_types(S)]
pub struct ImHashMap<K, V, S>(im::HashMap<K, V, S>);

/// `Clone` of `im::Vector`, which shares the vector's nodes with the copy.
/// Trusted, not proved; nothing is stated of the copy.
pub assume_specification<A: Clone>[<im::Vector<A> as Clone>::clone](vector: &im::Vector<A>) -> im::Vector<A>;

/// `Clone` of `im::HashMap`, which shares the map's nodes with the copy.
/// Trusted, not proved; nothing is stated of the copy.
pub assume_specification<K: Clone, V: Clone, S>[<im::HashMap<K, V, S> as Clone>::clone](map: &im::HashMap<K, V, S>) -> im::HashMap<K, V, S>;

/// The configuration for a set of action buttons, as stored in the config file.
pub type ButtonConfigs = im::Vector<ButtonConfig>;

/// The commands of each desktop environment, by the environment's name.
pub type CommandsByDesktop = im::HashMap<String, DECommands>;

/// Represents the configuration for an individual button.
#[derive(Debug, Clone)]
pub struct ButtonConfig {
    pub label: String,
    pub command: String,
    /// Optional list of extra CSS classes for styling.
    pub css_classes: Option<Vec<String>>,
    /// Optional widget name (ID) for unique styling.
    pub widget_name: Option<String>,
}

/// Represents commands and button configuration for a specific desktop environment.
#[derive(Debug, Clone)]
pub struct DECommands {
    pub columns: usize,
    pub buttons: ButtonConfigs,
}

/// Main configuration structure. The window layout ratios of the
/// configuration file are floating-point numbers and are kept by the
/// program around this library.
#[derive(Debug, Clone, Default)]
pub struct Config {
    /// The title of the application window.
    pub title: String,
    pub columns: usize,
    /// A list of button configurations.
    pub buttons: ButtonConfigs,
    /// Flag indicating whether to use the system GTK theme.
    pub use_gtk_theme: bool,
    /// Optional user-specified stylesheet path.
    pub css_path: Option<String>,
    /// Default commands mapped by desktop environment.
    pub default_commands: CommandsByDesktop,
    /// The name of the theme to load (e.g., "default").
    pub theme: Option<String>,
}

/// What a map of desktop commands holds: the commands of each desktop name.
pub uninterp spec fn commands_by_desktop(map: CommandsByDesktop) -> Map<Seq<char>, DECommands>;

/// `im::HashMap::get`: the commands stored under `desktop`, if any.
/// Trusted, not proved: it returns the value stored under an equal key,
/// and `None` when no key is equal.
#[verifier::external_body]
fn commands_get<'a>(map: &'a CommandsByDesktop, desktop: &str) -> (found: Option<&'a DECommands>)
    ensures
        match found {
            Some(commands) => commands_by_desktop(*map).contains_key(desktop@) && *commands
                == commands_by_desktop(*map)[desktop@],
            None => !commands_by_desktop(*map).contains_key(desktop@),
        },
{
    map.get(desktop)
}

/// Returns the default number of columns.
pub fn default_columns() -> (columns: usize)
    ensures
        columns == 1,
{
    1
}

/// Returns the default value for the `use_gtk_theme` flag.
pub fn default_use_gtk_theme() -> (use_gtk_theme: bool)
    ensures
        !use_gtk_theme,
{
    false
}

impl Config {
    /// Returns a copy of this config with `columns` replaced.
    pub fn with_columns(self, columns: usize) -> (config: Self)
        ensures
            config == (Config { columns, ..self }),
    {
        Self { columns, ..self }
    }
}

/// The message of the check on the number of columns.
pub open spec fn zero_columns_message() -> Seq<char> {
    "columns must be greater than 0"@
}

/// Checks a configuration just read: it must have at least one column.
pub fn validate_config(config: Config) -> (checked: Result<Config, ConfigError>)
    ensures
        config.columns > 0 ==> checked == Ok::<Config, ConfigError>(config),
        config.columns == 0 ==> (checked matches Err(ConfigError::Validation(message))
            && message@ == zero_columns_message()),
{
    if config.columns == 0 {
        return Err(ConfigError::Validation(String::from_str("columns must be greater than 0")));
    }
    Ok(config)
}

// ---------------------------------------------------------------------
// Config path resolution
// ---------------------------------------------------------------------

/// Where a user configuration lives below the home directory.
pub open spec fn home_config_suffix() -> Seq<char> {
    ".config/fin/config.toml"@
}

/// The user configuration below `$XDG_CONFIG_HOME`: `fin/config.toml`.
pub open spec fn xdg_config_file(xdg_config_home: Seq<char>) -> Seq<char> {
    joined_path(joined_path(xdg_config_home, "fin"@), "config.toml"@)
}

/// The user configuration below `$HOME`: `.config/fin/config.toml`.
pub open spec fn home_config_file(home: Seq<char>) -> Seq<char> {
    joined_path(home, home_config_suffix())
}

/// The user configuration files to try, first the one below
/// `$XDG_CONFIG_HOME`, then the one below `$HOME`; each is there when its
/// variable is set.
pub open spec fn config_candidates(xdg_config_home: Option<Seq<char>>, home: Option<Seq<char>>) -> (
    Option<Seq<char>>,
    Option<Seq<char>>,
) {
    (
        match xdg_config_home {
            Some(xdg) => Some(xdg_config_file(xdg)),
            None => None,
        },
        match home {
            Some(home) => Some(home_config_file(home)),
            None => None,
        },
    )
}

/// With `XDG_CONFIG_HOME` and `HOME` given without a trailing `/`, the
/// candidates are `$XDG_CONFIG_HOME/fin/config.toml` and
/// `$HOME/.config/fin/config.toml`; an unset variable gives no candidate.
pub proof fn lemma_config_candidate_locations(xdg_config_home: Seq<char>, home: Seq<char>)
    requires
        xdg_config_home.len() > 0,
        xdg_config_home.last() != '/',
        home.len() > 0,
        home.last() != '/',
    ensures
        config_candidates(Some(xdg_config_home), Some(home)) == (
            Some(xdg_config_home + "/fin/config.toml"@),
            Some(home + "/.config/fin/config.toml"@),
        ),
        config_candidates(None, None) == (None::<Seq<char>>, None::<Seq<char>>),
{
    reveal_strlit("fin");
    reveal_strlit("config.toml");
    reveal_strlit("/fin/config.toml");
    reveal_strlit(".config/fin/config.toml");
    reveal_strlit("/.config/fin/config.toml");
    let fin_dir = joined_path(xdg_config_home, "fin"@);
    assert(fin_dir =~= xdg_config_home + seq!['/'] + "fin"@);
    assert(xdg_config_file(xdg_config_home) =~= xdg_config_home + "/fin/config.toml"@);
    assert(home_config_file(home) =~= home + "/.config/fin/config.toml"@);
}

/// The user configuration files to try, given the values of the
/// `XDG_CONFIG_HOME` and `HOME` environment variables: the XDG one first,
/// then the one below the home directory.
pub fn config_path_candidates(xdg_config_home: Option<String>, home: Option<String>) -> (candidates: (
    Option<String>,
    Option<String>,
))
    ensures
        (candidates.0.deep_view(), candidates.1.deep_view()) == config_candidates(
            xdg_config_home.deep_view(),
            home.deep_view(),
        ),
{
    let xdg_file = match xdg_config_home {
        Some(xdg) => {
            let fin_dir = path_join(xdg.as_str(), "fin");
            Some(path_join(fin_dir.as_str(), "config.toml"))
        },
        None => None,
    };
    let home_file = match home {
        Some(home) => Some(path_join(home.as_str(), ".config/fin/config.toml")),
        None => None,
    };
    (xdg_file, home_file)
}

/// The system-wide configuration path.
pub fn system_config_path() -> (path: String)
    ensures
        path@ == SYSTEM_CONFIG_PATH@,
{
    String::from_str(SYSTEM_CONFIG_PATH)
}

/// The configuration file used: the XDG candidate when it is a file, else
/// the home candidate when it is a file, else the system configuration.
pub open spec fn chosen_config(
    xdg_candidate: Option<Seq<char>>,
    xdg_is_file: bool,
    home_candidate: Option<Seq<char>>,
    home_is_file: bool,
) -> Seq<char> {
    if xdg_candidate is Some && xdg_is_file {
        xdg_candidate->0
    } else if home_candidate is Some && home_is_file {
        home_candidate->0
    } else {
        SYSTEM_CONFIG_PATH@
    }
}

/// A user candidate is used only when it is a file, the XDG one before the
/// one below `$HOME`; when no candidate that is there is a file, the system
/// configuration is used.
pub proof fn lemma_config_choice(
    xdg_candidate: Option<Seq<char>>,
    xdg_is_file: bool,
    home_candidate: Option<Seq<char>>,
    home_is_file: bool,
)
    ensures
        xdg_candidate is Some && xdg_is_file ==> chosen_config(
            xdg_candidate,
            xdg_is_file,
            home_candidate,
            home_is_file,
        ) == xdg_candidate->0,
        !(xdg_candidate is Some && xdg_is_file) && home_candidate is Some && home_is_file
            ==> chosen_config(xdg_candidate, xdg_is_file, home_candidate, home_is_file)
            == home_candidate->0,
        !(xdg_candidate is Some && xdg_is_file) && !(home_candidate is Some && home_is_file)
            ==> chosen_config(xdg_candidate, xdg_is_file, home_candidate, home_is_file)
            == SYSTEM_CONFIG_PATH@,
{
}

/// Resolve the configuration path, preferring the XDG configuration, then
/// the one below `$HOME`, then the system path; a user candidate is taken
/// only when it exists and is a file.
pub fn determine_config_path(
    xdg_candidate: Option<String>,
    xdg_is_file: bool,
    home_candidate: Option<String>,
    home_is_file: bool,
) -> (path: String)
    ensures
        path@ == chosen_config(
            xdg_candidate.deep_view(),
            xdg_is_file,
            home_candidate.deep_view(),
            home_is_file,
        ),
        xdg_candidate is Some && xdg_is_file ==> path == xdg_candidate->0,
        !(xdg_candidate is Some && xdg_is_file) && home_candidate is Some && home_is_file ==> path
            == home_candidate->0,
        !(xdg_candidate is Some && xdg_is_file) && !(home_candidate is Some && home_is_file)
            ==> path@ == SYSTEM_CONFIG_PATH@,
{
    if let Some(xdg) = xdg_candidate {
        if xdg_is_file {
            return xdg;
        }
    }
    if let Some(home) = home_candidate {
        if home_is_file {
            return home;
        }
    }
    system_config_path()
}

// ---------------------------------------------------------------------
// Commands of the running desktop
// ---------------------------------------------------------------------

/// The name under which the default commands are stored.
pub open spec fn default_desktop() -> Seq<char> {
    "default"@
}

/// The name under which the common commands, the fallback for every
/// desktop, are stored.
pub open spec fn common_desktop() -> Seq<char> {
    "common"@
}

/// The buttons and columns that apply to desktop `de`: those stored for
/// `de`, else those stored under `default`, else those stored under
/// `common`, else the top-level ones.
pub open spec fn commands_for(de: Seq<char>, config: Config) -> (ButtonConfigs, usize) {
    let map = commands_by_desktop(config.default_commands);
    if map.contains_key(de) {
        (map[de].buttons, map[de].columns)
    } else if map.contains_key(default_desktop()) {
        (map[default_desktop()].buttons, map[default_desktop()].columns)
    } else if map.contains_key(common_desktop()) {
        (map[common_desktop()].buttons, map[common_desktop()].columns)
    } else {
        (config.buttons, config.columns)
    }
}

/// A desktop's own entry always wins; without one, the `default` entry is
/// used, then the `common` entry, then the top-level buttons and columns.
pub proof fn lemma_commands_choice(de: Seq<char>, config: Config)
    ensures
        ({
            let map = commands_by_desktop(config.default_commands);
            &&& map.contains_key(de) ==> commands_for(de, config) == (map[de].buttons, map[de].columns)
            &&& !map.contains_key(de) && map.contains_key("default"@) ==> commands_for(de, config)
                == (map["default"@].buttons, map["default"@].columns)
            &&& !map.contains_key(de) && !map.contains_key("default"@) && map.contains_key(
                "common"@,
            ) ==> commands_for(de, config) == (map["common"@].buttons, map["common"@].columns)
            &&& !map.contains_key(de) && !map.contains_key("default"@) && !map.contains_key(
                "common"@,
            ) ==> commands_for(de, config) == (config.buttons, config.columns)
        }),
{
}

/// Returns the desktop environment-specific commands and columns, falling back
/// to the default commands, then to the common commands, then to the
/// top-level config.
pub fn get_commands_for_de<'a>(de: &str, config: &'a Config) -> (chosen: (&'a ButtonConfigs, usize))
    ensures
        (*chosen.0, chosen.1) == commands_for(de@, *config),
        commands_by_desktop(config.default_commands).contains_key(de@) ==> (*chosen.0, chosen.1)
            == (commands_by_desktop(config.default_commands)[de@].buttons, commands_by_desktop(
            config.default_commands,
        )[de@].columns),
        !commands_by_desktop(config.default_commands).contains_key(de@) && commands_by_desktop(
            config.default_commands,
        ).contains_key("default"@) ==> (*chosen.0, chosen.1) == (commands_by_desktop(
            config.default_commands,
        )["default"@].buttons, commands_by_desktop(config.default_commands)["default"@].columns),
        !commands_by_desktop(config.default_commands).contains_key(de@) && !commands_by_desktop(
            config.default_commands,
        ).contains_key("default"@) && commands_by_desktop(config.default_commands).contains_key(
            "common"@,
        ) ==> (*chosen.0, chosen.1) == (commands_by_desktop(config.default_commands)["common"@].buttons,
        commands_by_desktop(config.default_commands)["common"@].columns),
        !commands_by_desktop(config.default_commands).contains_key(de@) && !commands_by_desktop(
            config.default_commands,
        ).contains_key("default"@) && !commands_by_desktop(config.default_commands).contains_key(
            "common"@,
        ) ==> (*chosen.0, chosen.1) == (config.buttons, config.columns),
{
    match commands_get(&config.default_commands, de) {
        Some(de_cmd) => (&de_cmd.buttons, de_cmd.columns),
        None => match commands_get(&config.default_commands, "default") {
            Some(de_cmd) => (&de_cmd.buttons, de_cmd.columns),
            None => match commands_get(&config.default_commands, "common") {
                Some(de_cmd) => (&de_cmd.buttons, de_cmd.columns),
                None => (&config.buttons, config.columns),
            },
        },
    }
}

} // verus!
