//! Choosing the stylesheet: the one the user configured, resolved against
//! the configuration's directory, else the system's, else none.
use vstd::prelude::*;
use crate::config::{SYSTEM_CONFIG_PATH, SYSTEM_CSS_DIR};
use crate::path::{is_absolute_path, joined_path, path_is_absolute, path_join};

verus! {

/// Where a configured stylesheet path points: an absolute path as it is, a
/// relative one below the configuration's directory.
pub open spec fn resolved_css(css: Seq<char>, config_dir: Seq<char>) -> Seq<char> {
    if is_absolute_path(css) {
        css
    } else {
        joined_path(config_dir, css)
    }
}

/// An absolute stylesheet path is used as it is; a relative one is put
/// below the configuration directory (given without a trailing `/`), and the
/// system stylesheet below `/usr/share/fin`.
pub proof fn lemma_css_locations(css: Seq<char>, config_dir: Seq<char>)
    requires
        config_dir.len() > 0,
        config_dir.last() != '/',
    ensures
        css.len() > 0 && css[0] == '/' ==> resolved_css(css, config_dir) == css,
        !(css.len() > 0 && css[0] == '/') ==> resolved_css(css, config_dir) == config_dir + "/"@
            + css,
        !(css.len() > 0 && css[0] == '/') ==> joined_path(SYSTEM_CSS_DIR@, css)
            == "/usr/share/fin/"@ + css,
{
    reveal_strlit("/");
    reveal_strlit("/usr/share/fin");
    reveal_strlit("/usr/share/fin/");
    if !(css.len() > 0 && css[0] == '/') {
        assert(resolved_css(css, config_dir) =~= config_dir + "/"@ + css);
        assert(joined_path(SYSTEM_CSS_DIR@, css) =~= "/usr/share/fin/"@ + css);
    }
}

/// Determine the candidate stylesheet path without checking existence.
pub fn css_candidate(config_css: Option<&str>, config_dir: &str) -> (candidate: Option<String>)
    ensures
        match config_css {
            Some(css) => candidate matches Some(path) && path@ == resolved_css(css@, config_dir@),
            None => candidate is None,
        },
{
    match config_css {
        Some(css) => {
            if path_is_absolute(css) {
                Some(String::from_str(css))
            } else {
                Some(path_join(config_dir, css))
            }
        },
        None => None,
    }
}

/// The stylesheet chosen from a candidate and a default: none when the GTK
/// theme is used; else the candidate when it exists; else the default when
/// it exists; else none.
pub open spec fn chosen_css(
    candidate: Option<Seq<char>>,
    candidate_exists: bool,
    default_css: Seq<char>,
    default_exists: bool,
    use_gtk_theme: bool,
) -> Option<Seq<char>> {
    if use_gtk_theme {
        None
    } else if candidate is Some && candidate_exists {
        candidate
    } else if default_exists {
        Some(default_css)
    } else {
        None
    }
}

/// The GTK theme means no stylesheet; otherwise an existing candidate is
/// chosen whether or not the default exists, and the default is chosen,
/// when it exists, only in place of a missing candidate.
pub proof fn lemma_css_choice(
    candidate: Option<Seq<char>>,
    candidate_exists: bool,
    default_css: Seq<char>,
    default_exists: bool,
    use_gtk_theme: bool,
)
    ensures
        use_gtk_theme ==> chosen_css(candidate, candidate_exists, default_css, default_exists, true)
            is None,
        !use_gtk_theme && candidate is Some && candidate_exists ==> chosen_css(
            candidate,
            candidate_exists,
            default_css,
            default_exists,
            false,
        ) == candidate,
        !(candidate is Some && candidate_exists) ==> chosen_css(
            candidate,
            candidate_exists,
            default_css,
            default_exists,
            false,
        ) == (if default_exists {
            Some(default_css)
        } else {
            None
        }),
{
}

/// Select between candidate and default paths, given whether each exists.
pub fn select_css_path(
    candidate: Option<String>,
    candidate_exists: bool,
    default_css: &str,
    default_exists: bool,
    use_gtk_theme: bool,
) -> (chosen: Option<String>)
    ensures
        chosen.deep_view() == chosen_css(
            candidate.deep_view(),
            candidate_exists,
            default_css@,
            default_exists,
            use_gtk_theme,
        ),
        use_gtk_theme ==> chosen is None,
        !use_gtk_theme && candidate is Some && candidate_exists ==> chosen == candidate,
        !use_gtk_theme && !(candidate is Some && candidate_exists) && default_exists ==> (chosen matches Some(path)
            && path@ == default_css@),
        !use_gtk_theme && !(candidate is Some && candidate_exists) && !default_exists ==> chosen is None,
{
    if use_gtk_theme {
        return None;
    }
    match candidate {
        Some(path) => if candidate_exists {
            Some(path)
        } else if default_exists {
            Some(String::from_str(default_css))
        } else {
            None
        },
        None => if default_exists {
            Some(String::from_str(default_css))
        } else {
            None
        },
    }
}

/// The system configuration file that names the system stylesheet: the
/// value of `FIN_SYSTEM_CONFIG` when it is set, else the system path.
pub fn system_config_location(from_environment: Option<String>) -> (path: String)
    ensures
        path@ == (match from_environment {
            Some(p) => p@,
            None => SYSTEM_CONFIG_PATH@,
        }),
{
    match from_environment {
        Some(p) => p,
        None => String::from_str(SYSTEM_CONFIG_PATH),
    }
}

/// Where the stylesheet named in the system configuration lives: below the
/// system stylesheet directory.
pub fn system_css_path(css: &str) -> (path: String)
    ensures
        path@ == joined_path(SYSTEM_CSS_DIR@, css@),
{
    path_join(SYSTEM_CSS_DIR, css)
}

} // verus!
