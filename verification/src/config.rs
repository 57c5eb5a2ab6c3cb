//! User configuration and where it, the history and custom presets live.
use vstd::prelude::*;

use crate::enums::{Theme, UiMode};
use crate::i18n::Language;
use crate::text::{ends_with, join_path, owned, path_join, plain_name};

verus! {

/// Persisted user settings. Paths are carried as text.
#[derive(Debug, Clone)]
pub struct Config {
    pub ffmpeg_path: Option<String>,
    pub language: Language,
    pub theme: Theme,
    pub default_mode: UiMode,
    pub output_dir: Option<String>,
    pub default_preset: Option<String>,
    pub parallel_jobs: u32,
}

impl Default for Config {
    fn default() -> (r: Self)
        ensures
            r.ffmpeg_path is None,
            r.language == Language::EnUs,
            r.theme == Theme::Dark,
            r.default_mode == UiMode::Simple,
            r.output_dir is None,
            r.default_preset is None,
            r.parallel_jobs == 1,
    {
        Config {
            ffmpeg_path: None,
            language: Language::EnUs,
            theme: Theme::Dark,
            default_mode: UiMode::Simple,
            output_dir: None,
            default_preset: None,
            parallel_jobs: 1,
        }
    }
}

/// The configuration directory: `$XDG_CONFIG_HOME` when it is set, else
/// `$HOME/.config`, else the current directory.
pub open spec fn config_dir_of(xdg_config_home: Option<Seq<char>>, home: Option<Seq<char>>) -> Seq<
    char,
> {
    match xdg_config_home {
        Some(x) => x,
        None => match home {
            Some(h) => path_join(h, ".config"@),
            None => "."@,
        },
    }
}

/// A file under the library's own directory inside the configuration
/// directory.
pub open spec fn app_file_of(
    xdg_config_home: Option<Seq<char>>,
    home: Option<Seq<char>>,
    file: Seq<char>,
) -> Seq<char> {
    path_join(path_join(config_dir_of(xdg_config_home, home), "mediaforge"@), file)
}

/// The view of an optional string slice.
pub open spec fn opt_view(o: Option<&str>) -> Option<Seq<char>> {
    match o {
        Some(s) => Some(s@),
        None => None,
    }
}

impl Config {
    /// The configuration directory, given the values of `XDG_CONFIG_HOME`
    /// and `HOME` (each `None` when unset).
    pub fn config_dir(xdg_config_home: Option<&str>, home: Option<&str>) -> (r: String)
        ensures
            r@ == config_dir_of(opt_view(xdg_config_home), opt_view(home)),
    {
        match xdg_config_home {
            Some(x) => owned(x),
            None => match home {
                Some(h) => join_path(h, ".config"),
                None => owned("."),
            },
        }
    }

    /// `<config dir>/mediaforge/config.toml`.
    pub fn config_path(xdg_config_home: Option<&str>, home: Option<&str>) -> (r: String)
        ensures
            r@ == app_file_of(opt_view(xdg_config_home), opt_view(home), "config.toml"@),
            ends_with(r@, "config.toml"@),
    {
        proof {
            lemma_plain_config_toml();
        }
        app_file(xdg_config_home, home, "config.toml")
    }
}

proof fn lemma_plain_config_toml()
    ensures
        plain_name("config.toml"@),
{
    reveal_strlit("config.toml");
    assert("config.toml"@.len() == 11);
    assert("config.toml"@[0] == 'c');
    assert("config.toml"@[1] == 'o');
    assert("config.toml"@[2] == 'n');
    assert("config.toml"@[3] == 'f');
    assert("config.toml"@[4] == 'i');
    assert("config.toml"@[5] == 'g');
    assert("config.toml"@[6] == '.');
    assert("config.toml"@[7] == 't');
    assert("config.toml"@[8] == 'o');
    assert("config.toml"@[9] == 'm');
    assert("config.toml"@[10] == 'l');
}

proof fn lemma_plain_history_json()
    ensures
        plain_name("history.json"@),
{
    reveal_strlit("history.json");
    assert("history.json"@.len() == 12);
    assert("history.json"@[0] == 'h');
    assert("history.json"@[1] == 'i');
    assert("history.json"@[2] == 's');
    assert("history.json"@[3] == 't');
    assert("history.json"@[4] == 'o');
    assert("history.json"@[5] == 'r');
    assert("history.json"@[6] == 'y');
    assert("history.json"@[7] == '.');
    assert("history.json"@[8] == 'j');
    assert("history.json"@[9] == 's');
    assert("history.json"@[10] == 'o');
    assert("history.json"@[11] == 'n');
}

proof fn lemma_plain_presets_json()
    ensures
        plain_name("presets.json"@),
{
    reveal_strlit("presets.json");
    assert("presets.json"@.len() == 12);
    assert("presets.json"@[0] == 'p');
    assert("presets.json"@[1] == 'r');
    assert("presets.json"@[2] == 'e');
    assert("presets.json"@[3] == 's');
    assert("presets.json"@[4] == 'e');
    assert("presets.json"@[5] == 't');
    assert("presets.json"@[6] == 's');
    assert("presets.json"@[7] == '.');
    assert("presets.json"@[8] == 'j');
    assert("presets.json"@[9] == 's');
    assert("presets.json"@[10] == 'o');
    assert("presets.json"@[11] == 'n');
}

fn app_file(xdg_config_home: Option<&str>, home: Option<&str>, file: &str) -> (r: String)
    requires
        plain_name(file@),
    ensures
        r@ == app_file_of(opt_view(xdg_config_home), opt_view(home), file@),
        ends_with(r@, file@),
{
    let dir = Config::config_dir(xdg_config_home, home);
    let sub = join_path(dir.as_str(), "mediaforge");
    join_path(sub.as_str(), file)
}

/// `<config dir>/mediaforge/history.json`.
pub fn history_path(xdg_config_home: Option<&str>, home: Option<&str>) -> (r: String)
    ensures
        r@ == app_file_of(opt_view(xdg_config_home), opt_view(home), "history.json"@),
        ends_with(r@, "history.json"@),
{
    proof {
        lemma_plain_history_json();
    }
    app_file(xdg_config_home, home, "history.json")
}

/// `<config dir>/mediaforge/presets.json`.
pub fn custom_presets_path(xdg_config_home: Option<&str>, home: Option<&str>) -> (r: String)
    ensures
        r@ == app_file_of(opt_view(xdg_config_home), opt_view(home), "presets.json"@),
        ends_with(r@, "presets.json"@),
{
    proof {
        lemma_plain_presets_json();
    }
    app_file(xdg_config_home, home, "presets.json")
}

} // verus!
