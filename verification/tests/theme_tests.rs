use fin::config::{ButtonConfig, Config};
use fin::theme::{
    generate_theme_css, resolve_theme_path, system_theme_path, theme_name, user_theme_path,
    ThemeColors,
};

fn sample_theme() -> ThemeColors {
    ThemeColors {
        palette0: "#000000".to_string(),
        palette1: "#010101".to_string(),
        palette2: "#020202".to_string(),
        palette3: "#030303".to_string(),
        palette4: "#040404".to_string(),
        palette5: "#050505".to_string(),
        palette6: "#060606".to_string(),
        palette7: "#070707".to_string(),
        palette8: "#080808".to_string(),
        palette9: "#090909".to_string(),
        palette10: "#0a0a0a".to_string(),
        palette11: "#0b0b0b".to_string(),
        palette12: "#0c0c0c".to_string(),
        palette13: "#0d0d0d".to_string(),
        palette14: "#0e0e0e".to_string(),
        palette15: "#0f0f0f".to_string(),
        background: "#101010".to_string(),
        foreground: "#111111".to_string(),
        button_focus_text: "#121212".to_string(),
        button_focus_background: "#131313".to_string(),
        button_hover_background: "#141414".to_string(),
        button_hover_text: "#151515".to_string(),
        button_normal_background: "#161616".to_string(),
        button_normal_text: "#171717".to_string(),
    }
}

#[test]
fn theme_css_declares_every_colour() {
    let theme = sample_theme();
    let expected = format!(
        ":root {{
  --palette0: {};
  --palette1: {};
  --palette2: {};
  --palette3: {};
  --palette4: {};
  --palette5: {};
  --palette6: {};
  --palette7: {};
  --palette8: {};
  --palette9: {};
  --palette10: {};
  --palette11: {};
  --palette12: {};
  --palette13: {};
  --palette14: {};
  --palette15: {};

  --background: {};
  --foreground: {};

  --button-focus-text: {};
  --button-focus-background: {};
  --button-hover-background: {};
  --button-hover-text: {};
  --button-normal-background: {};
  --button-normal-text: {};
}}
button {{
  background: var(--button-normal-background);
  color: var(--button-focus-text);
}}
",
        theme.palette0,
        theme.palette1,
        theme.palette2,
        theme.palette3,
        theme.palette4,
        theme.palette5,
        theme.palette6,
        theme.palette7,
        theme.palette8,
        theme.palette9,
        theme.palette10,
        theme.palette11,
        theme.palette12,
        theme.palette13,
        theme.palette14,
        theme.palette15,
        theme.background,
        theme.foreground,
        theme.button_focus_text,
        theme.button_focus_background,
        theme.button_hover_background,
        theme.button_hover_text,
        theme.button_normal_background,
        theme.button_normal_text,
    );
    assert_eq!(generate_theme_css(&theme), expected);
}

#[test]
fn theme_css_declares_normal_button_text() {
    let css = generate_theme_css(&sample_theme());
    assert!(css.contains("  --button-normal-background: #161616;\n  --button-normal-text: #171717;\n}\n"));
}

#[test]
fn theme_css_starts_with_root_block() {
    let css = generate_theme_css(&sample_theme());
    assert!(css.starts_with(":root {\n  --palette0: #000000;\n"));
    assert!(css.contains("  --palette15: #0f0f0f;\n\n  --background: #101010;\n"));
    assert!(css.ends_with("button {\n  background: var(--button-normal-background);\n  color: var(--button-focus-text);\n}\n"));
}

fn config_with_theme(theme: Option<String>) -> Config {
    let mut buttons = im::Vector::new();
    buttons.push_back(ButtonConfig {
        label: "Lock".to_string(),
        command: "loginctl lock-session".to_string(),
        css_classes: None,
        widget_name: None,
    });
    Config {
        title: "Finë".to_string(),
        columns: 1,
        buttons,
        use_gtk_theme: false,
        css_path: None,
        default_commands: im::HashMap::new(),
        theme,
    }
}

#[test]
fn theme_name_defaults_to_default() {
    assert_eq!(theme_name(&config_with_theme(None)), "default");
    assert_eq!(theme_name(&config_with_theme(Some("rose-pine".to_string()))), "rose-pine");
}

#[test]
fn theme_paths() {
    assert_eq!(user_theme_path("/home/u/.config", "dark"), "/home/u/.config/fin/themes/dark.toml");
    assert_eq!(system_theme_path("default"), "/usr/share/fin/themes/default.toml");
}

#[test]
fn user_theme_takes_precedence() {
    let user = Some("/home/u/.config/fin/themes/dark.toml".to_string());
    let system = "/usr/share/fin/themes/dark.toml".to_string();
    assert_eq!(resolve_theme_path(user.clone(), true, system.clone(), true), user);
    assert_eq!(resolve_theme_path(user.clone(), false, system.clone(), true), Some(system.clone()));
    assert_eq!(resolve_theme_path(None, false, system.clone(), true), Some(system.clone()));
    assert_eq!(resolve_theme_path(user, false, system, false), None);
}
