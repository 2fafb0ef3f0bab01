use vstd::prelude::*;
use vstd::string::*;

use crate::config::ConfigError;
use crate::format::{format_of_extension, Format};
use crate::text::chars_equal;

verus! {

/// The extension of a path's final component, as `std::path::Path` reads it.
pub uninterp spec fn extension_of(path: Seq<char>) -> Option<Seq<char>>;

/// The directory that holds a path, as `std::path::Path` reads it.
pub uninterp spec fn parent_of(path: Seq<char>) -> Option<Seq<char>>;

/// Relies on `std::path::Path::extension`: the text after the last `.` of the
/// final component, which depends on the path alone.
#[verifier::external_body]
fn path_extension(path: &str) -> (r: Option<String>)
    ensures
        match r {
            Some(e) => extension_of(path@) == Some(e@),
            None => extension_of(path@) is None,
        },
{
    match std::path::Path::new(path).extension() {
        Some(e) => Some(e.to_string_lossy().into_owned()),
        None => None,
    }
}

/// Relies on `std::path::Path::parent`: the path without its final component,
/// which depends on the path alone.
#[verifier::external_body]
fn path_parent(path: &str) -> (r: Option<String>)
    ensures
        match r {
            Some(p) => parent_of(path@) == Some(p@),
            None => parent_of(path@) is None,
        },
{
    match std::path::Path::new(path).parent() {
        Some(p) => Some(p.to_string_lossy().into_owned()),
        None => None,
    }
}

/// Relies on `directories::ProjectDirs::from` and `ProjectDirs::config_dir`:
/// the per-user configuration directory of an application. It depends on the
/// environment (the home directory), so nothing is stated of it.
#[verifier::external_body]
pub(crate) fn project_config_dir(qualifier: &str, organization: &str, application: &str) -> (r:
    Option<String>) {
    match directories::ProjectDirs::from(qualifier, organization, application) {
        Some(dirs) => Some(dirs.config_dir().to_string_lossy().into_owned()),
        None => None,
    }
}

/// The views of a sequence of strings.
pub open spec fn names(v: Seq<String>) -> Seq<Seq<char>> {
    v.map_values(|s: String| s@)
}

pub open spec fn opt_view(o: Option<String>) -> Option<Seq<char>> {
    match o {
        Some(s) => Some(s@),
        None => None,
    }
}

/// The format that the extension of `path` selects.
pub open spec fn format_of_path(path: Seq<char>) -> Option<Format> {
    match extension_of(path) {
        Some(ext) => format_of_extension(ext),
        None => None,
    }
}

/// `name` inside the directory `dir`.
pub open spec fn in_dir(dir: Seq<char>, name: Seq<char>) -> Seq<char> {
    dir + "/"@ + name
}

/// The names a configuration file may have in the conventional directory, in
/// the order in which one is preferred over another (their lexical order).
pub open spec fn config_file_name(rank: int) -> Seq<char> {
    if rank == 0 {
        "config.json"@
    } else if rank == 1 {
        "config.toml"@
    } else if rank == 2 {
        "config.yaml"@
    } else {
        "config.yml"@
    }
}

pub open spec fn config_file_format(rank: int) -> Format {
    if rank == 0 {
        Format::Json
    } else if rank == 1 {
        Format::Toml
    } else {
        Format::Yaml
    }
}

/// Whether `name` is the name of a configuration file.
pub open spec fn is_config_name(name: Seq<char>) -> bool {
    exists|rank: int| 0 <= rank < 4 && name == config_file_name(rank)
}

/// The rank of the preferred configuration file among the directory
/// entries `entries`, if any is one.
pub open spec fn preferred_rank(entries: Seq<Seq<char>>) -> Option<int> {
    if entries.contains(config_file_name(0)) {
        Some(0)
    } else if entries.contains(config_file_name(1)) {
        Some(1)
    } else if entries.contains(config_file_name(2)) {
        Some(2)
    } else if entries.contains(config_file_name(3)) {
        Some(3)
    } else {
        None
    }
}

/// A configuration file: where it is, and the format its extension selects.
#[derive(Clone, Debug)]
pub struct ConfigFile {
    pub path: String,
    pub format: Option<Format>,
}

impl View for ConfigFile {
    type V = (Seq<char>, Option<Format>);

    open spec fn view(&self) -> (Seq<char>, Option<Format>) {
        (self.path@, self.format)
    }
}

impl ConfigFile {
    /// The format to read or write this file in; an unknown extension is an
    /// error.
    pub fn require_format(&self) -> (r: Result<Format, ConfigError>)
        ensures
            match self.format {
                Some(format) => r == Ok::<Format, ConfigError>(format),
                None => r == Err::<Format, ConfigError>(ConfigError::UnsupportedExtension),
            },
    {
        match self.format {
            Some(format) => Ok(format),
            None => Err(ConfigError::UnsupportedExtension),
        }
    }
}

/// What the file system showed of the candidate configuration files.
#[derive(Clone, Debug)]
pub struct Probe {
    /// Whether the explicitly given configuration path exists.
    pub explicit_exists: bool,
    /// The names of the entries of the conventional configuration directory;
    /// `None` when it does not exist or cannot be read.
    pub dir_entries: Option<Vec<String>>,
}

impl Probe {
    pub open spec fn entry_names_of(entries: Option<Vec<String>>) -> Option<Seq<Seq<char>>> {
        match entries {
            Some(v) => Some(names(v@)),
            None => None,
        }
    }

    pub open spec fn entry_names(&self) -> Option<Seq<Seq<char>>> {
        Probe::entry_names_of(self.dir_entries)
    }
}

/// The configuration file found in the conventional directory, if any.
pub open spec fn spec_find_in_dir(config_dir: Option<Seq<char>>, entries: Option<Seq<Seq<char>>>) -> Option<
    (Seq<char>, Option<Format>),
> {
    match (config_dir, entries) {
        (Some(dir), Some(entries)) => match preferred_rank(entries) {
            Some(rank) => Some(
                (in_dir(dir, config_file_name(rank)), Some(config_file_format(rank))),
            ),
            None => None,
        },
        _ => None,
    }
}

/// The configuration file: the explicit path if it exists, else the
/// preferred configuration file of the conventional directory, else none.
pub open spec fn spec_locate(
    config_path: Option<Seq<char>>,
    config_dir: Option<Seq<char>>,
    explicit_exists: bool,
    entries: Option<Seq<Seq<char>>>,
) -> Option<(Seq<char>, Option<Format>)> {
    match config_path {
        Some(path) if explicit_exists => Some((path, format_of_path(path))),
        _ => spec_find_in_dir(config_dir, entries),
    }
}

/// Where configuration is persisted: the explicit path if one is known, else
/// the preferred configuration file of the conventional directory, else
/// `config.toml` in that directory.
pub open spec fn spec_persist_target(
    config_path: Option<Seq<char>>,
    config_dir: Option<Seq<char>>,
    entries: Option<Seq<Seq<char>>>,
) -> Option<(Seq<char>, Option<Format>)> {
    match config_path {
        Some(path) => Some((path, format_of_path(path))),
        None => match spec_find_in_dir(config_dir, entries) {
            Some(found) => Some(found),
            None => match config_dir {
                Some(dir) => Some((in_dir(dir, "config.toml"@), Some(Format::Toml))),
                None => None,
            },
        },
    }
}

/// The directories to watch for changes: the one holding the explicit path
/// if one is known, else the conventional directory.
pub open spec fn spec_watch_dirs(config_path: Option<Seq<char>>, config_dir: Option<Seq<char>>) -> Seq<
    Seq<char>,
> {
    match config_path {
        Some(path) => match parent_of(path) {
            Some(parent) => seq![parent],
            None => seq![],
        },
        None => match config_dir {
            Some(dir) => seq![dir],
            None => seq![],
        },
    }
}

/// Whether `name` is the name of a configuration file: `config` with one of
/// the extensions `json`, `toml`, `yaml` or `yml`.
pub fn is_config_file(name: &str) -> (r: bool)
    ensures
        r == is_config_name(name@),
{
    let r = chars_equal(name, "config.json") || chars_equal(name, "config.toml") || chars_equal(
        name,
        "config.yaml",
    ) || chars_equal(name, "config.yml");
    assert(r ==> is_config_name(name@)) by {
        if name@ == config_file_name(0) {
        } else if name@ == config_file_name(1) {
        } else if name@ == config_file_name(2) {
        } else if name@ == config_file_name(3) {
        }
    }
    r
}

fn contains_name(entries: &Vec<String>, name: &str) -> (r: bool)
    ensures
        r == names(entries@).contains(name@),
{
    let mut i: usize = 0;
    while i < entries.len()
        invariant
            i <= entries@.len(),
            forall|j: int| 0 <= j < i ==> entries@[j]@ != name@,
        decreases entries@.len() - i,
    {
        if chars_equal(entries[i].as_str(), name) {
            assert(names(entries@)[i as int] == name@);
            return true;
        }
        i = i + 1;
    }
    assert(!names(entries@).contains(name@)) by {
        if names(entries@).contains(name@) {
            let j = choose|j: int| 0 <= j < names(entries@).len() && names(entries@)[j] == name@;
            assert(entries@[j]@ == name@);
        }
    }
    false
}

/// `name` inside the directory `dir`.
pub fn join_in_dir(dir: &str, name: &str) -> (r: String)
    ensures
        r@ == in_dir(dir@, name@),
{
    let mut r = String::from_str(dir);
    r.append("/");
    r.append(name);
    r
}

/// The configuration file that `path` names, with the format its extension
/// selects.
pub fn config_file_at(path: &str) -> (r: ConfigFile)
    ensures
        r@ == (path@, format_of_path(path@)),
{
    let format = match path_extension(path) {
        Some(ext) => Format::from_extension(ext.as_str()),
        None => None,
    };
    ConfigFile { path: String::from_str(path), format }
}

/// The preferred configuration file among the entries of the conventional
/// directory.
pub fn find_config_file_in_config_dir(config_dir: &Option<String>, entries: &Option<Vec<String>>) -> (r:
    Option<ConfigFile>)
    ensures
        match r {
            Some(f) => spec_find_in_dir(opt_view(*config_dir), Probe::entry_names_of(*entries))
                == Some(f@),
            None => spec_find_in_dir(opt_view(*config_dir), Probe::entry_names_of(*entries)) is None,
        },
{
    match (config_dir, entries) {
        (Some(dir), Some(entries)) => {
            let (name, format) = if contains_name(entries, "config.json") {
                ("config.json", Format::Json)
            } else if contains_name(entries, "config.toml") {
                ("config.toml", Format::Toml)
            } else if contains_name(entries, "config.yaml") {
                ("config.yaml", Format::Yaml)
            } else if contains_name(entries, "config.yml") {
                ("config.yml", Format::Yaml)
            } else {
                return None;
            };
            Some(ConfigFile { path: join_in_dir(dir.as_str(), name), format: Some(format) })
        },
        _ => None,
    }
}

/// Locates the configuration file (see `spec_locate`).
pub fn locate(config_path: &Option<String>, config_dir: &Option<String>, probe: &Probe) -> (r: Option<
    ConfigFile,
>)
    ensures
        match r {
            Some(f) => spec_locate(
                opt_view(*config_path),
                opt_view(*config_dir),
                probe.explicit_exists,
                probe.entry_names(),
            ) == Some(f@),
            None => spec_locate(
                opt_view(*config_path),
                opt_view(*config_dir),
                probe.explicit_exists,
                probe.entry_names(),
            ) is None,
        },
{
    if let Some(path) = config_path {
        if probe.explicit_exists {
            return Some(config_file_at(path.as_str()));
        }
    }
    find_config_file_in_config_dir(config_dir, &probe.dir_entries)
}

/// Where configuration is persisted (see `spec_persist_target`).
pub fn persist_target(config_path: &Option<String>, config_dir: &Option<String>, probe: &Probe) -> (r:
    Option<ConfigFile>)
    ensures
        match r {
            Some(f) => spec_persist_target(
                opt_view(*config_path),
                opt_view(*config_dir),
                probe.entry_names(),
            ) == Some(f@),
            None => spec_persist_target(
                opt_view(*config_path),
                opt_view(*config_dir),
                probe.entry_names(),
            ) is None,
        },
{
    if let Some(path) = config_path {
        return Some(config_file_at(path.as_str()));
    }
    match find_config_file_in_config_dir(config_dir, &probe.dir_entries) {
        Some(found) => Some(found),
        None => match config_dir {
            Some(dir) => Some(
                ConfigFile {
                    path: join_in_dir(dir.as_str(), "config.toml"),
                    format: Some(Format::Toml),
                },
            ),
            None => None,
        },
    }
}

/// The directories to watch for a reload.
#[derive(Clone, Debug)]
pub struct WatchPaths {
    pub dirs: Vec<String>,
    /// Whether a missing directory is to be created, so that a configuration
    /// file that appears in it later is noticed. Only the conventional
    /// directory is created.
    pub create_missing: bool,
}

/// The directories to watch (see `spec_watch_dirs`).
pub fn watch_dirs(config_path: &Option<String>, config_dir: &Option<String>) -> (r: WatchPaths)
    ensures
        names(r.dirs@) == spec_watch_dirs(opt_view(*config_path), opt_view(*config_dir)),
        r.create_missing == config_path is None,
{
    let mut dirs: Vec<String> = Vec::new();
    match config_path {
        Some(path) => {
            if let Some(parent) = path_parent(path.as_str()) {
                dirs.push(parent);
            }
        },
        None => {
            if let Some(dir) = config_dir {
                dirs.push(dir.clone());
            }
        },
    }
    assert(names(dirs@) =~= spec_watch_dirs(opt_view(*config_path), opt_view(*config_dir)));
    WatchPaths { dirs, create_missing: config_path.is_none() }
}

} // verus!
