use vstd::prelude::*;

use crate::config::{
    reload_error, spec_merge, ArgWrapper, ConfigError, EnvWrapper, FileWrapper, Values, Wrapper,
};

verus! {

/// Merge precedence: a field that the arguments set is never overridden by
/// the environment or the file; one that the environment sets and the
/// arguments do not is overridden only by the file, and only where the file
/// governs it. The file decides exactly the file-governed fields.
pub proof fn merge_precedence<T: Values>(
    args: ArgWrapper<T::TArgs>,
    env: EnvWrapper<T::TEnv>,
    file: Option<FileWrapper<T::TFile>>,
)
    ensures
        ({
            let merged = spec_merge::<T>(args, env, file);
            let base = T::spec_new(args.values, env.values);
            &&& args.config_path is Some ==> merged.config_path == args.config_path
            &&& args.config_path is None ==> merged.config_path == env.config_path
            &&& args.log_level is Some ==> merged.log_level == args.log_level
            &&& args.log_level is None && env.log_level is Some ==> merged.log_level
                == env.log_level
            &&& file is None ==> merged.values == base
            &&& file matches Some(f) ==> merged.values.spec_export() == f.values
            &&& merged.values.spec_import(base.spec_export()) == base
        }),
{
    let base = T::spec_new(args.values, env.values);
    base.lemma_import_own_export();
    if let Some(f) = file {
        base.lemma_export_of_import(f.values);
        base.lemma_import_overwrites(f.values, base.spec_export());
    }
}

/// Persisting a value and reading back gives a value equal to it on every
/// file-governed field, whatever the state was; persisting what was read
/// changes nothing.
pub proof fn persist_round_trip<T: Values>(state: Wrapper<T>, value: T)
    ensures
        state.spec_persisted(value.spec_export()).values.spec_export() == value.spec_export(),
        state.spec_persisted(state.values.spec_export()) == state,
{
    state.values.lemma_export_of_import(value.spec_export());
    state.values.lemma_import_own_export();
}

/// A reload that could not read or parse the file leaves the state as it
/// was, and its update carries the error.
pub proof fn failed_reload_keeps_state<T: Values>(state: Wrapper<T>, error: ConfigError)
    ensures
        state.spec_after_reload(Err(error)) == state,
        reload_error::<T::TFile>(Err(error)) == Some(error),
{
}

/// A reload of a parsed file updates exactly the file-governed fields: they
/// become the file's, and restoring the earlier ones gives back the earlier
/// value. The path and the directives stay.
pub proof fn reload_updates_only_file_fields<T: Values>(
    state: Wrapper<T>,
    file: FileWrapper<T::TFile>,
)
    ensures
        ({
            let after = state.spec_after_reload(Ok(Some(file)));
            &&& after.values.spec_export() == file.values
            &&& after.values.spec_import(state.values.spec_export()) == state.values
            &&& after.config_path == state.config_path
            &&& after.base_log_level == state.base_log_level
            &&& after.print_schema == state.print_schema
            &&& after.print_config == state.print_config
        }),
{
    state.values.lemma_export_of_import(file.values);
    state.values.lemma_import_overwrites(file.values, state.values.spec_export());
    state.values.lemma_import_own_export();
}

/// Starting from arguments and environment and then reloading a parsed file
/// gives the same state as merging the three sources at once.
pub proof fn load_then_reload_is_merge<T: Values>(
    args: ArgWrapper<T::TArgs>,
    env: EnvWrapper<T::TEnv>,
    file: FileWrapper<T::TFile>,
)
    ensures
        spec_merge::<T>(args, env, None).spec_after_reload(Ok(Some(file))) == spec_merge::<T>(
            args,
            env,
            Some(file),
        ),
{
}

} // verus!
