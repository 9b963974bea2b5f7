//! Colour themes: the colours a theme file defines, the CSS custom
//! properties they become, and where theme files are looked up.
use vstd::prelude::*;
use crate::config::Config;
use crate::path::{is_absolute_path, joined_path, path_join};

verus! {

/// The directory of the system-wide themes.
pub const SYSTEM_THEME_DIR: &'static str = "/usr/share/fin/themes";

/// The colours of a theme. The theme file uses the hyphenated names of the
/// CSS custom properties (`button-focus-text` for `button_focus_text`).
#[derive(Debug)]
pub struct ThemeColors {
    /// Base.
    pub palette0: String,
    /// Surface.
    pub palette1: String,
    /// Overlay.
    pub palette2: String,
    /// Muted.
    pub palette3: String,
    /// Subtle.
    pub palette4: String,
    /// Text.
    pub palette5: String,
    /// Love.
    pub palette6: String,
    /// Gold.
    pub palette7: String,
    /// Rose.
    pub palette8: String,
    /// Pine.
    pub palette9: String,
    /// Foam.
    pub palette10: String,
    /// Iris.
    pub palette11: String,
    /// Highlight Low.
    pub palette12: String,
    /// Highlight Med.
    pub palette13: String,
    /// Highlight High.
    pub palette14: String,
    /// Highlight Text.
    pub palette15: String,
    /// Window background.
    pub background: String,
    /// Window foreground.
    pub foreground: String,
    /// Button focus text color.
    pub button_focus_text: String,
    /// Button focus background.
    pub button_focus_background: String,
    /// Button hover background.
    pub button_hover_background: String,
    /// Button hover text.
    pub button_hover_text: String,
    /// Normal button background.
    pub button_normal_background: String,
    /// Normal button text color.
    pub button_normal_text: String,
}

/// One declaration of a CSS custom property: `  --name: value;` and a newline.
pub open spec fn css_property(name: Seq<char>, value: Seq<char>) -> Seq<char> {
    "  --"@ + name + ": "@ + value + ";\n"@
}

/// The CSS that a theme becomes: a `:root` block that declares one custom
/// property per colour (palette, then window, then button colours, the
/// groups separated by an empty line), then a `button` rule that uses the
/// normal button background and the focus text colour.
pub open spec fn theme_css(theme: ThemeColors) -> Seq<char> {
    ":root {\n"@
        + css_property("palette0"@, theme.palette0@)
        + css_property("palette1"@, theme.palette1@)
        + css_property("palette2"@, theme.palette2@)
        + css_property("palette3"@, theme.palette3@)
        + css_property("palette4"@, theme.palette4@)
        + css_property("palette5"@, theme.palette5@)
        + css_property("palette6"@, theme.palette6@)
        + css_property("palette7"@, theme.palette7@)
        + css_property("palette8"@, theme.palette8@)
        + css_property("palette9"@, theme.palette9@)
        + css_property("palette10"@, theme.palette10@)
        + css_property("palette11"@, theme.palette11@)
        + css_property("palette12"@, theme.palette12@)
        + css_property("palette13"@, theme.palette13@)
        + css_property("palette14"@, theme.palette14@)
        + css_property("palette15"@, theme.palette15@)
        + "\n"@
        + css_property("background"@, theme.background@)
        + css_property("foreground"@, theme.foreground@)
        + "\n"@
        + css_property("button-focus-text"@, theme.button_focus_text@)
        + css_property("button-focus-background"@, theme.button_focus_background@)
        + css_property("button-hover-background"@, theme.button_hover_background@)
        + css_property("button-hover-text"@, theme.button_hover_text@)
        + css_property("button-normal-background"@, theme.button_normal_background@)
        + css_property("button-normal-text"@, theme.button_normal_text@)
        + "}\nbutton {\n  background: var(--button-normal-background);\n  color: var(--button-focus-text);\n}\n"@
}

/// `d` occurs in `s`: some stretch of `s` is `d`.
pub open spec fn occurs(s: Seq<char>, d: Seq<char>) -> bool {
    exists|i: int| 0 <= i && i + d.len() <= s.len() && #[trigger] s.subrange(i, i + d.len()) == d
}

/// Appending keeps what occurs, and what is appended occurs.
proof fn lemma_occurs_in_sum(a: Seq<char>, b: Seq<char>)
    ensures
        occurs(a + b, b),
        forall|d: Seq<char>| occurs(a, d) ==> #[trigger] occurs(a + b, d),
{
    assert((a + b).subrange(a.len() as int, (a.len() + b.len()) as int) =~= b);
    assert forall|d: Seq<char>| occurs(a, d) implies #[trigger] occurs(a + b, d) by {
        let i = choose|i: int| 0 <= i && i + d.len() <= a.len() && #[trigger] a.subrange(i, i + d.len()) == d;
        assert((a + b).subrange(i, i + d.len()) =~= a.subrange(i, i + d.len()));
    }
}

/// The CSS of a theme declares every colour of the theme as the custom
/// property of the same name: `  --<name>: <value>;` on a line of its own.
pub proof fn lemma_theme_css_declares_every_colour(theme: ThemeColors)
    ensures
        occurs(theme_css(theme), "  --"@ + "palette0"@ + ": "@ + theme.palette0@ + ";\n"@),
        occurs(theme_css(theme), "  --"@ + "palette1"@ + ": "@ + theme.palette1@ + ";\n"@),
        occurs(theme_css(theme), "  --"@ + "palette2"@ + ": "@ + theme.palette2@ + ";\n"@),
        occurs(theme_css(theme), "  --"@ + "palette3"@ + ": "@ + theme.palette3@ + ";\n"@),
        occurs(theme_css(theme), "  --"@ + "palette4"@ + ": "@ + theme.palette4@ + ";\n"@),
        occurs(theme_css(theme), "  --"@ + "palette5"@ + ": "@ + theme.palette5@ + ";\n"@),
        occurs(theme_css(theme), "  --"@ + "palette6"@ + ": "@ + theme.palette6@ + ";\n"@),
        occurs(theme_css(theme), "  --"@ + "palette7"@ + ": "@ + theme.palette7@ + ";\n"@),
        occurs(theme_css(theme), "  --"@ + "palette8"@ + ": "@ + theme.palette8@ + ";\n"@),
        occurs(theme_css(theme), "  --"@ + "palette9"@ + ": "@ + theme.palette9@ + ";\n"@),
        occurs(theme_css(theme), "  --"@ + "palette10"@ + ": "@ + theme.palette10@ + ";\n"@),
        occurs(theme_css(theme), "  --"@ + "palette11"@ + ": "@ + theme.palette11@ + ";\n"@),
        occurs(theme_css(theme), "  --"@ + "palette12"@ + ": "@ + theme.palette12@ + ";\n"@),
        occurs(theme_css(theme), "  --"@ + "palette13"@ + ": "@ + theme.palette13@ + ";\n"@),
        occurs(theme_css(theme), "  --"@ + "palette14"@ + ": "@ + theme.palette14@ + ";\n"@),
        occurs(theme_css(theme), "  --"@ + "palette15"@ + ": "@ + theme.palette15@ + ";\n"@),
        occurs(theme_css(theme), "  --"@ + "background"@ + ": "@ + theme.background@ + ";\n"@),
        occurs(theme_css(theme), "  --"@ + "foreground"@ + ": "@ + theme.foreground@ + ";\n"@),
        occurs(theme_css(theme), "  --"@ + "button-focus-text"@ + ": "@ + theme.button_focus_text@ + ";\n"@),
        occurs(theme_css(theme), "  --"@ + "button-focus-background"@ + ": "@ + theme.button_focus_background@ + ";\n"@),
        occurs(theme_css(theme), "  --"@ + "button-hover-background"@ + ": "@ + theme.button_hover_background@ + ";\n"@),
        occurs(theme_css(theme), "  --"@ + "button-hover-text"@ + ": "@ + theme.button_hover_text@ + ";\n"@),
        occurs(theme_css(theme), "  --"@ + "button-normal-background"@ + ": "@ + theme.button_normal_background@ + ";\n"@),
        occurs(theme_css(theme), "  --"@ + "button-normal-text"@ + ": "@ + theme.button_normal_text@ + ";\n"@),
{
    let s0 = ":root {\n"@;
    let s1 = s0 + css_property("palette0"@, theme.palette0@);
    lemma_occurs_in_sum(s0, css_property("palette0"@, theme.palette0@));
    assert(css_property("palette0"@, theme.palette0@) =~= "  --"@ + "palette0"@ + ": "@ + theme.palette0@ + ";\n"@);
    let s2 = s1 + css_property("palette1"@, theme.palette1@);
    lemma_occurs_in_sum(s1, css_property("palette1"@, theme.palette1@));
    assert(css_property("palette1"@, theme.palette1@) =~= "  --"@ + "palette1"@ + ": "@ + theme.palette1@ + ";\n"@);
    let s3 = s2 + css_property("palette2"@, theme.palette2@);
    lemma_occurs_in_sum(s2, css_property("palette2"@, theme.palette2@));
    assert(css_property("palette2"@, theme.palette2@) =~= "  --"@ + "palette2"@ + ": "@ + theme.palette2@ + ";\n"@);
    let s4 = s3 + css_property("palette3"@, theme.palette3@);
    lemma_occurs_in_sum(s3, css_property("palette3"@, theme.palette3@));
    assert(css_property("palette3"@, theme.palette3@) =~= "  --"@ + "palette3"@ + ": "@ + theme.palette3@ + ";\n"@);
    let s5 = s4 + css_property("palette4"@, theme.palette4@);
    lemma_occurs_in_sum(s4, css_property("palette4"@, theme.palette4@));
    assert(css_property("palette4"@, theme.palette4@) =~= "  --"@ + "palette4"@ + ": "@ + theme.palette4@ + ";\n"@);
    let s6 = s5 + css_property("palette5"@, theme.palette5@);
    lemma_occurs_in_sum(s5, css_property("palette5"@, theme.palette5@));
    assert(css_property("palette5"@, theme.palette5@) =~= "  --"@ + "palette5"@ + ": "@ + theme.palette5@ + ";\n"@);
    let s7 = s6 + css_property("palette6"@, theme.palette6@);
    lemma_occurs_in_sum(s6, css_property("palette6"@, theme.palette6@));
    assert(css_property("palette6"@, theme.palette6@) =~= "  --"@ + "palette6"@ + ": "@ + theme.palette6@ + ";\n"@);
    let s8 = s7 + css_property("palette7"@, theme.palette7@);
    lemma_occurs_in_sum(s7, css_property("palette7"@, theme.palette7@));
    assert(css_property("palette7"@, theme.palette7@) =~= "  --"@ + "palette7"@ + ": "@ + theme.palette7@ + ";\n"@);
    let s9 = s8 + css_property("palette8"@, theme.palette8@);
    lemma_occurs_in_sum(s8, css_property("palette8"@, theme.palette8@));
    assert(css_property("palette8"@, theme.palette8@) =~= "  --"@ + "palette8"@ + ": "@ + theme.palette8@ + ";\n"@);
    let s10 = s9 + css_property("palette9"@, theme.palette9@);
    lemma_occurs_in_sum(s9, css_property("palette9"@, theme.palette9@));
    assert(css_property("palette9"@, theme.palette9@) =~= "  --"@ + "palette9"@ + ": "@ + theme.palette9@ + ";\n"@);
    let s11 = s10 + css_property("palette10"@, theme.palette10@);
    lemma_occurs_in_sum(s10, css_property("palette10"@, theme.palette10@));
    assert(css_property("palette10"@, theme.palette10@) =~= "  --"@ + "palette10"@ + ": "@ + theme.palette10@ + ";\n"@);
    let s12 = s11 + css_property("palette11"@, theme.palette11@);
    lemma_occurs_in_sum(s11, css_property("palette11"@, theme.palette11@));
    assert(css_property("palette11"@, theme.palette11@) =~= "  --"@ + "palette11"@ + ": "@ + theme.palette11@ + ";\n"@);
    let s13 = s12 + css_property("palette12"@, theme.palette12@);
    lemma_occurs_in_sum(s12, css_property("palette12"@, theme.palette12@));
    assert(css_property("palette12"@, theme.palette12@) =~= "  --"@ + "palette12"@ + ": "@ + theme.palette12@ + ";\n"@);
    let s14 = s13 + css_property("palette13"@, theme.palette13@);
    lemma_occurs_in_sum(s13, css_property("palette13"@, theme.palette13@));
    assert(css_property("palette13"@, theme.palette13@) =~= "  --"@ + "palette13"@ + ": "@ + theme.palette13@ + ";\n"@);
    let s15 = s14 + css_property("palette14"@, theme.palette14@);
    lemma_occurs_in_sum(s14, css_property("palette14"@, theme.palette14@));
    assert(css_property("palette14"@, theme.palette14@) =~= "  --"@ + "palette14"@ + ": "@ + theme.palette14@ + ";\n"@);
    let s16 = s15 + css_property("palette15"@, theme.palette15@);
    lemma_occurs_in_sum(s15, css_property("palette15"@, theme.palette15@));
    assert(css_property("palette15"@, theme.palette15@) =~= "  --"@ + "palette15"@ + ": "@ + theme.palette15@ + ";\n"@);
    let s17 = s16 + "\n"@;
    lemma_occurs_in_sum(s16, "\n"@);
    let s18 = s17 + css_property("background"@, theme.background@);
    lemma_occurs_in_sum(s17, css_property("background"@, theme.background@));
    assert(css_property("background"@, theme.background@) =~= "  --"@ + "background"@ + ": "@ + theme.background@ + ";\n"@);
    let s19 = s18 + css_property("foreground"@, theme.foreground@);
    lemma_occurs_in_sum(s18, css_property("foreground"@, theme.foreground@));
    assert(css_property("foreground"@, theme.foreground@) =~= "  --"@ + "foreground"@ + ": "@ + theme.foreground@ + ";\n"@);
    let s20 = s19 + "\n"@;
    lemma_occurs_in_sum(s19, "\n"@);
    let s21 = s20 + css_property("button-focus-text"@, theme.button_focus_text@);
    lemma_occurs_in_sum(s20, css_property("button-focus-text"@, theme.button_focus_text@));
    assert(css_property("button-focus-text"@, theme.button_focus_text@) =~= "  --"@ + "button-focus-text"@ + ": "@ + theme.button_focus_text@ + ";\n"@);
    let s22 = s21 + css_property("button-focus-background"@, theme.button_focus_background@);
    lemma_occurs_in_sum(s21, css_property("button-focus-background"@, theme.button_focus_background@));
    assert(css_property("button-focus-background"@, theme.button_focus_background@) =~= "  --"@ + "button-focus-background"@ + ": "@ + theme.button_focus_background@ + ";\n"@);
    let s23 = s22 + css_property("button-hover-background"@, theme.button_hover_background@);
    lemma_occurs_in_sum(s22, css_property("button-hover-background"@, theme.button_hover_background@));
    assert(css_property("button-hover-background"@, theme.button_hover_background@) =~= "  --"@ + "button-hover-background"@ + ": "@ + theme.button_hover_background@ + ";\n"@);
    let s24 = s23 + css_property("button-hover-text"@, theme.button_hover_text@);
    lemma_occurs_in_sum(s23, css_property("button-hover-text"@, theme.button_hover_text@));
    assert(css_property("button-hover-text"@, theme.button_hover_text@) =~= "  --"@ + "button-hover-text"@ + ": "@ + theme.button_hover_text@ + ";\n"@);
    let s25 = s24 + css_property("button-normal-background"@, theme.button_normal_background@);
    lemma_occurs_in_sum(s24, css_property("button-normal-background"@, theme.button_normal_background@));
    assert(css_property("button-normal-background"@, theme.button_normal_background@) =~= "  --"@ + "button-normal-background"@ + ": "@ + theme.button_normal_background@ + ";\n"@);
    let s26 = s25 + css_property("button-normal-text"@, theme.button_normal_text@);
    lemma_occurs_in_sum(s25, css_property("button-normal-text"@, theme.button_normal_text@));
    assert(css_property("button-normal-text"@, theme.button_normal_text@) =~= "  --"@ + "button-normal-text"@ + ": "@ + theme.button_normal_text@ + ";\n"@);
    lemma_occurs_in_sum(s26, "}\nbutton {\n  background: var(--button-normal-background);\n  color: var(--button-focus-text);\n}\n"@);
    assert(theme_css(theme) == s26 + "}\nbutton {\n  background: var(--button-normal-background);\n  color: var(--button-focus-text);\n}\n"@);
}

/// Appends the declaration of the custom property `name` with `value`.
fn push_property(css: &mut String, name: &str, value: &str)
    ensures
        final(css)@ == old(css)@ + css_property(name@, value@),
{
    css.append("  --");
    css.append(name);
    css.append(": ");
    css.append(value);
    css.append(";\n");
    assert(final(css)@ =~= old(css)@ + css_property(name@, value@));
}

/// Generates a CSS string that maps the theme colors to CSS custom properties.
pub fn generate_theme_css(theme: &ThemeColors) -> (css: String)
    ensures
        css@ == theme_css(*theme),
{
    let mut css = String::from_str(":root {\n");
    push_property(&mut css, "palette0", theme.palette0.as_str());
    push_property(&mut css, "palette1", theme.palette1.as_str());
    push_property(&mut css, "palette2", theme.palette2.as_str());
    push_property(&mut css, "palette3", theme.palette3.as_str());
    push_property(&mut css, "palette4", theme.palette4.as_str());
    push_property(&mut css, "palette5", theme.palette5.as_str());
    push_property(&mut css, "palette6", theme.palette6.as_str());
    push_property(&mut css, "palette7", theme.palette7.as_str());
    push_property(&mut css, "palette8", theme.palette8.as_str());
    push_property(&mut css, "palette9", theme.palette9.as_str());
    push_property(&mut css, "palette10", theme.palette10.as_str());
    push_property(&mut css, "palette11", theme.palette11.as_str());
    push_property(&mut css, "palette12", theme.palette12.as_str());
    push_property(&mut css, "palette13", theme.palette13.as_str());
    push_property(&mut css, "palette14", theme.palette14.as_str());
    push_property(&mut css, "palette15", theme.palette15.as_str());
    css.append("\n");
    push_property(&mut css, "background", theme.background.as_str());
    push_property(&mut css, "foreground", theme.foreground.as_str());
    css.append("\n");
    push_property(&mut css, "button-focus-text", theme.button_focus_text.as_str());
    push_property(&mut css, "button-focus-background", theme.button_focus_background.as_str());
    push_property(&mut css, "button-hover-background", theme.button_hover_background.as_str());
    push_property(&mut css, "button-hover-text", theme.button_hover_text.as_str());
    push_property(&mut css, "button-normal-background", theme.button_normal_background.as_str());
    push_property(&mut css, "button-normal-text", theme.button_normal_text.as_str());
    css.append("}\nbutton {\n  background: var(--button-normal-background);\n  color: var(--button-focus-text);\n}\n");
    assert(css@ =~= theme_css(*theme));
    css
}

// ---------------------------------------------------------------------
// Where a theme is read from
// ---------------------------------------------------------------------

/// The theme that a configuration names, `default` when it names none.
pub open spec fn configured_theme(config: Config) -> Seq<char> {
    match config.theme {
        Some(name) => name@,
        None => "default"@,
    }
}

/// The name of the theme to load for `config`.
pub fn theme_name(config: &Config) -> (name: &str)
    ensures
        name@ == configured_theme(*config),
        config.theme matches Some(theme) ==> name@ == theme@,
        config.theme is None ==> name@ == "default"@,
{
    match &config.theme {
        Some(name) => name.as_str(),
        None => "default",
    }
}

/// The file name of theme `name`: the name followed by `.toml`.
pub open spec fn theme_file_name(name: Seq<char>) -> Seq<char> {
    name + ".toml"@
}

/// The file that holds theme `name` among the user's themes, below the
/// user's configuration directory: `<config_dir>/fin/themes/<name>.toml`.
pub open spec fn user_theme_file(config_dir: Seq<char>, name: Seq<char>) -> Seq<char> {
    joined_path(joined_path(joined_path(config_dir, "fin"@), "themes"@), theme_file_name(name))
}

/// The file that holds theme `name` among the system's themes.
pub open spec fn system_theme_file(name: Seq<char>) -> Seq<char> {
    joined_path(SYSTEM_THEME_DIR@, theme_file_name(name))
}

/// On a configuration directory given without a trailing `/`, a user theme
/// lies at `<config_dir>/fin/themes/<name>.toml`, and a system theme at
/// `/usr/share/fin/themes/<name>.toml`.
pub proof fn lemma_theme_file_locations(config_dir: Seq<char>, name: Seq<char>)
    requires
        config_dir.len() > 0,
        config_dir.last() != '/',
        !(name.len() > 0 && name[0] == '/'),
    ensures
        user_theme_file(config_dir, name) == config_dir + "/fin/themes/"@ + name + ".toml"@,
        system_theme_file(name) == "/usr/share/fin/themes/"@ + name + ".toml"@,
{
    reveal_strlit("fin");
    reveal_strlit("themes");
    reveal_strlit(".toml");
    reveal_strlit("/fin/themes/");
    reveal_strlit("/usr/share/fin/themes");
    reveal_strlit("/usr/share/fin/themes/");
    let fin_dir = joined_path(config_dir, "fin"@);
    assert(fin_dir =~= config_dir + seq!['/'] + "fin"@);
    let themes_dir = joined_path(fin_dir, "themes"@);
    assert(themes_dir =~= fin_dir + seq!['/'] + "themes"@);
    let file = theme_file_name(name);
    assert(!is_absolute_path(file));
    assert(user_theme_file(config_dir, name) =~= config_dir + "/fin/themes/"@ + name + ".toml"@);
    assert(system_theme_file(name) =~= "/usr/share/fin/themes/"@ + name + ".toml"@);
}

fn file_name_of_theme(name: &str) -> (file: String)
    ensures
        file@ == theme_file_name(name@),
{
    let mut file = String::from_str(name);
    file.append(".toml");
    file
}

/// The path of theme `name` below the user's configuration directory.
pub fn user_theme_path(config_dir: &str, name: &str) -> (path: String)
    ensures
        path@ == user_theme_file(config_dir@, name@),
{
    let fin_dir = path_join(config_dir, "fin");
    let themes_dir = path_join(fin_dir.as_str(), "themes");
    let file = file_name_of_theme(name);
    path_join(themes_dir.as_str(), file.as_str())
}

/// The path of theme `name` in the system's theme directory.
pub fn system_theme_path(name: &str) -> (path: String)
    ensures
        path@ == system_theme_file(name@),
{
    let file = file_name_of_theme(name);
    path_join(SYSTEM_THEME_DIR, file.as_str())
}

/// Resolve the theme file: the user's file when there is one and it exists
/// (the user directory takes precedence), else the system's file when it
/// exists, else none.
pub fn resolve_theme_path(
    user_path: Option<String>,
    user_exists: bool,
    system_path: String,
    system_exists: bool,
) -> (path: Option<String>)
    ensures
        path == (if user_path is Some && user_exists {
            user_path
        } else if system_exists {
            Some(system_path)
        } else {
            None
        }),
{
    match user_path {
        Some(user) => if user_exists {
            Some(user)
        } else if system_exists {
            Some(system_path)
        } else {
            None
        },
        None => if system_exists {
            Some(system_path)
        } else {
            None
        },
    }
}

} // verus!
