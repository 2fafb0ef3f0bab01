use vstd::prelude::*;

use crate::format::{spec_startup, startup, Format, Startup};
use crate::level::LogLevel;
use crate::paths::{
    locate, opt_view, persist_target, project_config_dir, spec_locate, spec_persist_target,
    spec_watch_dirs, names, watch_dirs, ConfigFile, Probe, WatchPaths,
};

verus! {

/// Values that only command-line flags provide.
pub trait FromArgs: Sized {}

/// Values that environment variables provide.
pub trait FromEnv: Sized {
    /// Whether this is the value used when the environment cannot be read.
    spec fn is_env_default(&self) -> bool;

    fn default_env() -> (r: Self)
        ensures
            r.is_env_default(),
    ;
}

/// Values that the configuration file provides.
pub trait FromFile: Sized {}

/// A process's merged configuration: built from its argument and environment
/// partials, with a subset of its fields governed by the configuration file.
pub trait Values: Sized {
    type TArgs: FromArgs;

    type TEnv: FromEnv;

    type TFile: FromFile;

    /// The value built from the argument and environment partials.
    spec fn spec_new(args: Self::TArgs, env: Self::TEnv) -> Self;

    /// This value with its file-governed fields taken from `file`.
    spec fn spec_import(self, file: Self::TFile) -> Self;

    /// The file-governed fields of this value.
    spec fn spec_export(self) -> Self::TFile;

    /// Exporting after an import gives back the imported file partial.
    proof fn lemma_export_of_import(self, file: Self::TFile)
        ensures
            self.spec_import(file).spec_export() == file,
    ;

    /// Importing a value's own export changes nothing.
    proof fn lemma_import_own_export(self)
        ensures
            self.spec_import(self.spec_export()) == self,
    ;

    /// An import replaces whatever an earlier import brought.
    proof fn lemma_import_overwrites(self, first: Self::TFile, second: Self::TFile)
        ensures
            self.spec_import(first).spec_import(second) == self.spec_import(second),
    ;

    fn new(args: Self::TArgs, env: Self::TEnv) -> (r: Self)
        ensures
            r == Self::spec_new(args, env),
    ;

    fn import(&mut self, file: Self::TFile)
        ensures
            *final(self) == old(self).spec_import(file),
    ;

    fn export(&self) -> (r: Self::TFile)
        ensures
            r == self.spec_export(),
    ;

    /// A copy that readers may keep while the live value changes.
    fn duplicate(&self) -> (r: Self)
        ensures
            r == *self,
    ;
}

/// The argument partial, with the flags every process has.
pub struct ArgWrapper<A> {
    pub values: A,
    pub config_path: Option<String>,
    pub log_level: Option<LogLevel>,
    pub print_schema: bool,
    pub print_config: Option<String>,
}

/// The environment partial, with the variables every process reads.
pub struct EnvWrapper<E> {
    pub values: E,
    pub config_path: Option<String>,
    pub log_level: Option<LogLevel>,
}

/// The document of the configuration file.
pub struct FileWrapper<F> {
    pub values: F,
    pub log_level: Option<LogLevel>,
}

/// The live state: the merged value with its bookkeeping fields.
pub struct Wrapper<T> {
    pub values: T,
    /// The explicit configuration file path.
    pub config_path: Option<String>,
    /// The log level in force.
    pub log_level: Option<LogLevel>,
    /// The log level that arguments or environment set, which no file
    /// overrides.
    pub base_log_level: Option<LogLevel>,
    pub print_schema: bool,
    pub print_config: Option<String>,
}

/// Why configuration could not be read or persisted.
#[derive(Clone, Debug, PartialEq, Eq)]
pub enum ConfigError {
    /// The file's extension selects no known format.
    UnsupportedExtension,
    /// The file could not be read.
    Unreadable(String),
    /// The file's content does not parse in its format.
    Malformed(String),
    /// The document could not be serialized.
    Unserializable(String),
    /// The file could not be written.
    Unwritable(String),
}

/// What subscribers receive after a reload: the value in force, and the
/// error that kept the file from being applied, if any.
pub struct ConfigUpdate<T> {
    pub config: T,
    pub error: Option<ConfigError>,
}

/// The result of a reload: the update to publish, and the log level to hand
/// to the logging backend, if the file set one.
pub struct Reloaded<T> {
    pub update: ConfigUpdate<T>,
    pub log_level: Option<LogLevel>,
}

/// A document to persist: where, in which format, and what.
pub struct Persist<F> {
    pub path: String,
    pub format: Format,
    pub file: F,
}

pub open spec fn first_present<X>(a: Option<X>, b: Option<X>) -> Option<X> {
    match a {
        Some(_) => a,
        None => b,
    }
}

fn first_of<X>(a: Option<X>, b: Option<X>) -> (r: Option<X>)
    ensures
        r == first_present(a, b),
{
    match a {
        Some(x) => Some(x),
        None => b,
    }
}

/// The merged state: the value built from arguments and environment, with
/// the file's partial imported if a file was read; the configuration path
/// and the log level are taken from the first source that sets them, in the
/// order arguments, environment, file.
pub open spec fn spec_merge<T: Values>(
    args: ArgWrapper<T::TArgs>,
    env: EnvWrapper<T::TEnv>,
    file: Option<FileWrapper<T::TFile>>,
) -> Wrapper<T> {
    let base = T::spec_new(args.values, env.values);
    let base_log_level = first_present(args.log_level, env.log_level);
    Wrapper {
        values: match file {
            Some(f) => base.spec_import(f.values),
            None => base,
        },
        config_path: first_present(args.config_path, env.config_path),
        log_level: match file {
            Some(f) => first_present(base_log_level, f.log_level),
            None => base_log_level,
        },
        base_log_level,
        print_schema: args.print_schema,
        print_config: args.print_config,
    }
}

/// The environment partial, or the defaults when the environment could not
/// be read.
pub fn env_or_default<E: FromEnv>(env: Option<EnvWrapper<E>>) -> (r: EnvWrapper<E>)
    ensures
        match env {
            Some(e) => r == e,
            None => r.values.is_env_default() && r.config_path is None && r.log_level is None,
        },
{
    match env {
        Some(e) => e,
        None => EnvWrapper { values: E::default_env(), config_path: None, log_level: None },
    }
}

/// Merges the three sources (see `spec_merge`).
pub fn merge<T: Values>(
    args: ArgWrapper<T::TArgs>,
    env: EnvWrapper<T::TEnv>,
    file: Option<FileWrapper<T::TFile>>,
) -> (r: Wrapper<T>)
    ensures
        r == spec_merge::<T>(args, env, file),
{
    let mut values = T::new(args.values, env.values);
    let base_log_level = first_of(args.log_level, env.log_level);
    let log_level = match file {
        Some(f) => {
            values.import(f.values);
            first_of(base_log_level, f.log_level)
        },
        None => base_log_level,
    };
    Wrapper {
        values,
        config_path: first_of(args.config_path, env.config_path),
        log_level,
        base_log_level,
        print_schema: args.print_schema,
        print_config: args.print_config,
    }
}

impl<T: Values> Wrapper<T> {
    /// This state after a successful reload of `file`.
    pub open spec fn spec_reloaded(self, file: FileWrapper<T::TFile>) -> Wrapper<T> {
        Wrapper {
            values: self.values.spec_import(file.values),
            log_level: first_present(self.base_log_level, file.log_level),
            ..self
        }
    }

    /// This state after `file` was persisted.
    pub open spec fn spec_persisted(self, file: T::TFile) -> Wrapper<T> {
        Wrapper { values: self.values.spec_import(file), ..self }
    }

    /// This state after a reload whose reading and parsing gave `outcome`
    /// (`Ok(None)`: no configuration file was found).
    pub open spec fn spec_after_reload(
        self,
        outcome: Result<Option<FileWrapper<T::TFile>>, ConfigError>,
    ) -> Wrapper<T> {
        match outcome {
            Ok(Some(f)) => self.spec_reloaded(f),
            _ => self,
        }
    }
}

/// The error a reload reports for the outcome of reading and parsing.
pub open spec fn reload_error<F>(outcome: Result<Option<FileWrapper<F>>, ConfigError>) -> Option<
    ConfigError,
> {
    match outcome {
        Err(e) => Some(e),
        Ok(_) => None,
    }
}

/// The configuration context of a process: the live state, the identity of
/// the application and its conventional configuration directory.
pub struct Config<T: Values> {
    pub state: Wrapper<T>,
    pub prefix: String,
    pub qualifier: String,
    pub organization: String,
    pub application: String,
    pub config_dir: Option<String>,
}

/// Creates the configuration context from the argument and environment
/// partials; the configuration file is read afterwards and applied with
/// `Config::import`. The conventional directory is that of the application
/// in the user's environment.
pub fn new<T: Values>(
    prefix: &str,
    qualifier: &str,
    organization: &str,
    application: &str,
    args: ArgWrapper<T::TArgs>,
    env: EnvWrapper<T::TEnv>,
) -> (r: Config<T>)
    ensures
        r.state == spec_merge::<T>(args, env, None),
        r.prefix@ == prefix@,
        r.qualifier@ == qualifier@,
        r.organization@ == organization@,
        r.application@ == application@,
{
    let config_dir = project_config_dir(qualifier, organization, application);
    Config::with_config_dir(prefix, qualifier, organization, application, config_dir, args, env)
}

impl<T: Values> Config<T> {
    /// Creates the configuration context with `config_dir` as the
    /// conventional configuration directory.
    pub fn with_config_dir(
        prefix: &str,
        qualifier: &str,
        organization: &str,
        application: &str,
        config_dir: Option<String>,
        args: ArgWrapper<T::TArgs>,
        env: EnvWrapper<T::TEnv>,
    ) -> (r: Config<T>)
        ensures
            r.state == spec_merge::<T>(args, env, None),
            r.prefix@ == prefix@,
            r.qualifier@ == qualifier@,
            r.organization@ == organization@,
            r.application@ == application@,
            r.config_dir == config_dir,
    {
        Config {
            state: merge(args, env, None),
            prefix: prefix.to_owned(),
            qualifier: qualifier.to_owned(),
            organization: organization.to_owned(),
            application: application.to_owned(),
            config_dir,
        }
    }

    /// A copy of the value in force.
    pub fn values(&self) -> (r: T)
        ensures
            r == self.state.values,
    {
        self.state.values.duplicate()
    }

    /// The one-shot directive to act on at startup.
    pub fn startup(&self) -> (r: Startup)
        ensures
            r == spec_startup(self.state.print_schema, opt_view(self.state.print_config)),
    {
        startup(self.state.print_schema, &self.state.print_config)
    }

    /// The configuration file to read, given what the file system showed.
    pub fn find_config_file(&self, probe: &Probe) -> (r: Option<ConfigFile>)
        ensures
            match r {
                Some(f) => spec_locate(
                    opt_view(self.state.config_path),
                    opt_view(self.config_dir),
                    probe.explicit_exists,
                    probe.entry_names(),
                ) == Some(f@),
                None => spec_locate(
                    opt_view(self.state.config_path),
                    opt_view(self.config_dir),
                    probe.explicit_exists,
                    probe.entry_names(),
                ) is None,
            },
    {
        locate(&self.state.config_path, &self.config_dir, probe)
    }

    /// The directories whose changes trigger a reload.
    pub fn find_watch_paths(&self) -> (r: WatchPaths)
        ensures
            names(r.dirs@) == spec_watch_dirs(
                opt_view(self.state.config_path),
                opt_view(self.config_dir),
            ),
            r.create_missing == self.state.config_path is None,
    {
        watch_dirs(&self.state.config_path, &self.config_dir)
    }

    /// Applies a reload whose reading and parsing gave `outcome`. Only a
    /// parsed file changes the state, and then only its file-governed fields
    /// and the log level; a failure is reported with the unchanged value.
    pub fn import(&mut self, outcome: Result<Option<FileWrapper<T::TFile>>, ConfigError>) -> (r:
        Reloaded<T>)
        ensures
            final(self).state == old(self).state.spec_after_reload(outcome),
            final(self).prefix == old(self).prefix,
            final(self).qualifier == old(self).qualifier,
            final(self).organization == old(self).organization,
            final(self).application == old(self).application,
            final(self).config_dir == old(self).config_dir,
            r.update.config == final(self).state.values,
            r.update.error == reload_error(outcome),
            r.log_level == match outcome {
                Ok(Some(f)) => if f.log_level is Some {
                    final(self).state.log_level
                } else {
                    None
                },
                _ => None,
            },
    {
        let (error, log_level) = match outcome {
            Ok(Some(f)) => {
                let announced = f.log_level.is_some();
                self.state.values.import(f.values);
                self.state.log_level = first_of(self.state.base_log_level, f.log_level);
                (None, if announced {
                    self.state.log_level
                } else {
                    None
                })
            },
            Ok(None) => (None, None),
            Err(e) => (Some(e), None),
        };
        Reloaded { update: ConfigUpdate { config: self.state.values.duplicate(), error }, log_level }
    }

    /// Plans persisting `values`: the file partial it exports, and the file
    /// to write it to in the format that file's extension selects. `Ok(None)`
    /// when there is nowhere to persist to.
    pub fn export(&self, values: &T, probe: &Probe) -> (r: Result<Option<Persist<T::TFile>>, ConfigError>)
        ensures
            match spec_persist_target(
                opt_view(self.state.config_path),
                opt_view(self.config_dir),
                probe.entry_names(),
            ) {
                None => r matches Ok(None),
                Some((_, None)) => r == Err::<Option<Persist<T::TFile>>, ConfigError>(
                    ConfigError::UnsupportedExtension,
                ),
                Some((path, Some(format))) => r matches Ok(Some(p)) && p.path@ == path && p.format
                    == format && p.file == values.spec_export(),
            },
    {
        match persist_target(&self.state.config_path, &self.config_dir, probe) {
            None => Ok(None),
            Some(target) => {
                let format = target.require_format()?;
                Ok(Some(Persist { path: target.path, format, file: values.export() }))
            },
        }
    }

    /// Completes persisting `plan` once writing it gave `written`: on success
    /// the persisted partial is imported, so the state reflects the file.
    pub fn commit_export(&mut self, plan: Persist<T::TFile>, written: Result<(), ConfigError>) -> (r:
        Result<(), ConfigError>)
        ensures
            final(self).prefix == old(self).prefix,
            final(self).qualifier == old(self).qualifier,
            final(self).organization == old(self).organization,
            final(self).application == old(self).application,
            final(self).config_dir == old(self).config_dir,
            r == written,
            written is Ok ==> final(self).state == old(self).state.spec_persisted(plan.file),
            written is Err ==> final(self).state == old(self).state,
    {
        if let Ok(()) = &written {
            self.state.values.import(plan.file);
        }
        written
    }
}

} // verus!
