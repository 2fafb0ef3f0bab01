//! Configuration of the inference process.
use vstd::prelude::*;

use crate::config::Values;
use crate::nebulon::ClientConfig;
use crate::orbitus::{default_palette, UiConfig};

verus! {

pub struct FromArgs {}

impl crate::config::FromArgs for FromArgs {}

pub struct FromEnv {
    pub db: ClientConfig,
}

impl crate::config::FromEnv for FromEnv {
    open spec fn is_env_default(&self) -> bool {
        self.db.is_default()
    }

    fn default_env() -> (r: Self) {
        FromEnv { db: ClientConfig::default() }
    }
}

pub struct FromFile {
    /// Orbitus UI config
    pub ui: UiConfig,
}

impl crate::config::FromFile for FromFile {}

pub struct Config {
    pub db: ClientConfig,
    pub ui: UiConfig,
}

impl Values for Config {
    type TArgs = FromArgs;

    type TEnv = FromEnv;

    type TFile = FromFile;

    open spec fn spec_new(args: FromArgs, env: FromEnv) -> Config {
        Config { db: env.db, ui: UiConfig { palette: default_palette() } }
    }

    open spec fn spec_import(self, file: FromFile) -> Config {
        Config { ui: file.ui, ..self }
    }

    open spec fn spec_export(self) -> FromFile {
        FromFile { ui: self.ui }
    }

    proof fn lemma_export_of_import(self, file: FromFile) {
    }

    proof fn lemma_import_own_export(self) {
    }

    proof fn lemma_import_overwrites(self, first: FromFile, second: FromFile) {
    }

    fn new(args: FromArgs, env: FromEnv) -> (r: Config) {
        Config { db: env.db, ui: UiConfig::default() }
    }

    fn import(&mut self, file: FromFile) {
        self.ui = file.ui;
    }

    fn export(&self) -> (r: FromFile) {
        FromFile { ui: self.ui }
    }

    fn duplicate(&self) -> (r: Config) {
        Config { db: self.db.duplicate(), ui: self.ui }
    }
}

} // verus!
