//! Finë: the verified core of a small session controller (log out, lock,
//! reboot, power off). This crate holds the decisions the program makes:
//! keyboard navigation over the button grid, which configuration file and
//! stylesheet are used, which commands apply to the running desktop, and the
//! CSS that a colour theme turns into.
pub mod config;
pub mod css;
pub mod error;
pub mod nav;
pub mod path;
pub mod theme;
pub mod ui;

pub use config::{
    determine_config_path, get_commands_for_de, ButtonConfig, Config, SYSTEM_CONFIG_PATH,
    SYSTEM_CSS_DIR,
};
pub use css::select_css_path;
pub use error::AppError;
pub use nav::{Arrow, FocusState, KeyEvent};
pub use theme::{generate_theme_css, ThemeColors};
