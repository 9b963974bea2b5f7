use fin::css::{css_candidate, select_css_path, system_config_location, system_css_path};

#[test]
fn relative_css_is_resolved_against_the_config_directory() {
    let candidate = css_candidate(Some("user_style.css"), "/home/u/.config/fin");
    assert_eq!(candidate, Some("/home/u/.config/fin/user_style.css".to_string()));
}

#[test]
fn absolute_css_is_kept() {
    let candidate = css_candidate(Some("/etc/fin/style.css"), "/home/u/.config/fin");
    assert_eq!(candidate, Some("/etc/fin/style.css".to_string()));
}

#[test]
fn no_configured_css_gives_no_candidate() {
    assert_eq!(css_candidate(None, "/home/u/.config/fin"), None);
}

#[test]
fn missing_user_css_falls_back_to_default() {
    let candidate = css_candidate(Some("nonexistent.css"), "/tmp/t");
    let result = select_css_path(candidate, false, "/tmp/t/default.css", true, false);
    assert_eq!(result, Some("/tmp/t/default.css".to_string()));
}

#[test]
fn existing_user_css_is_chosen() {
    let candidate = css_candidate(Some("user_style.css"), "/tmp/t");
    let result = select_css_path(candidate, true, "/tmp/t/default.css", true, false);
    assert_eq!(result, Some("/tmp/t/user_style.css".to_string()));
}

#[test]
fn neither_existing_gives_none() {
    let candidate = css_candidate(Some("nonexistent.css"), "/tmp/t");
    let result = select_css_path(candidate, false, "/tmp/t/nonexistent_default.css", false, false);
    assert_eq!(result, None);
}

#[test]
fn gtk_theme_uses_no_stylesheet() {
    let candidate = css_candidate(Some("user_style.css"), "/tmp/t");
    let result = select_css_path(candidate, true, "/tmp/t/default.css", true, true);
    assert_eq!(result, None);
}

#[test]
fn no_candidate_uses_default_when_it_exists() {
    assert_eq!(
        select_css_path(None, true, "/usr/share/fin/style.css", true, false),
        Some("/usr/share/fin/style.css".to_string())
    );
    assert_eq!(select_css_path(None, true, "/usr/share/fin/style.css", false, false), None);
}

#[test]
fn system_configuration_location() {
    assert_eq!(system_config_location(None), "/usr/share/fin/config.toml");
    assert_eq!(system_config_location(Some("/tmp/sys.toml".to_string())), "/tmp/sys.toml");
}

#[test]
fn system_css_lives_in_the_system_directory() {
    assert_eq!(system_css_path("does_not_exist.css"), "/usr/share/fin/does_not_exist.css");
}
