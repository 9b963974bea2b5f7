//! Errors of the library. Each carries the message that explains it.
use vstd::prelude::*;

verus! {

/// Errors while reading or checking the configuration.
#[derive(Debug)]
pub enum ConfigError {
    /// The configuration file could not be read.
    Read(String),
    /// The configuration file is not valid TOML for a configuration.
    Parse(String),
    /// The configuration was read but breaks a rule.
    Validation(String),
}

/// Errors while reading a colour theme.
#[derive(Debug)]
pub enum ThemeError {
    /// The theme file could not be read.
    Read(String),
    /// The theme file is not valid TOML for a theme.
    Parse(String),
}

/// Errors of the application as a whole.
#[derive(Debug)]
pub enum AppError {
    Config(ConfigError),
    Theme(ThemeError),
    Css(String),
    Ui(String),
    Command(String),
}

} // verus!
