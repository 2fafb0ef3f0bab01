//! Configuration of the UI process.
use vstd::prelude::*;
use vstd::string::*;

use crate::config::Values;

verus! {

pub struct FromArgs {}

impl crate::config::FromArgs for FromArgs {}

pub struct FromEnv {
    pub websocket: WebsocketConfig,
}

impl crate::config::FromEnv for FromEnv {
    open spec fn is_env_default(&self) -> bool {
        self.websocket.is_default()
    }

    fn default_env() -> (r: Self) {
        FromEnv { websocket: WebsocketConfig::default() }
    }
}

pub struct FromFile {
    /// UI config
    pub ui: UiConfig,
}

impl crate::config::FromFile for FromFile {}

pub struct Config {
    pub websocket: WebsocketConfig,
    pub ui: UiConfig,
}

impl Values for Config {
    type TArgs = FromArgs;

    type TEnv = FromEnv;

    type TFile = FromFile;

    open spec fn spec_new(args: FromArgs, env: FromEnv) -> Config {
        Config { websocket: env.websocket, ui: UiConfig { palette: default_palette() } }
    }

    open spec fn spec_import(self, file: FromFile) -> Config {
        Config { ui: file.ui, ..self }
    }

    open spec fn spec_export(self) -> FromFile {
        FromFile { ui: self.ui }
    }

    proof fn lemma_export_of_import(self, file: FromFile) {
    }

    proof fn lemma_import_own_export(self) {
    }

    proof fn lemma_import_overwrites(self, first: FromFile, second: FromFile) {
    }

    fn new(args: FromArgs, env: FromEnv) -> (r: Config) {
        Config { websocket: env.websocket, ui: UiConfig::default() }
    }

    fn import(&mut self, file: FromFile) {
        self.ui = file.ui;
    }

    fn export(&self) -> (r: FromFile) {
        FromFile { ui: self.ui }
    }

    fn duplicate(&self) -> (r: Config) {
        Config { websocket: self.websocket.duplicate(), ui: self.ui }
    }
}

/// Where the UI reaches the inference service.
#[derive(Clone, Debug)]
pub struct WebsocketConfig {
    pub host: String,
    pub port: u16,
    pub ssl: bool,
}

impl WebsocketConfig {
    pub open spec fn is_default(&self) -> bool {
        self.host@ == "localhost"@ && self.port == 5000 && self.ssl
    }

    pub fn duplicate(&self) -> (r: WebsocketConfig)
        ensures
            r == *self,
    {
        WebsocketConfig { host: self.host.clone(), port: self.port, ssl: self.ssl }
    }
}

impl Default for WebsocketConfig {
    fn default() -> (r: WebsocketConfig)
        ensures
            r.is_default(),
    {
        WebsocketConfig { host: String::from_str("localhost"), port: 5000, ssl: true }
    }
}

/// A colour in sRGB with alpha, one byte per channel.
#[derive(Clone, Copy, Debug, PartialEq, Eq, Structural)]
pub struct Color {
    pub red: u8,
    pub green: u8,
    pub blue: u8,
    pub alpha: u8,
}

#[derive(Clone, Copy, Debug, PartialEq, Eq, Structural)]
pub struct UiConfig {
    /// UI colors
    pub palette: UiPaletteConfig,
}

#[derive(Clone, Copy, Debug, PartialEq, Eq, Structural)]
pub struct UiPaletteConfig {
    /// Dark mode UI colors
    pub dark: UiPaletteModeConfig,
    /// Light mode UI colors
    pub light: UiPaletteModeConfig,
}

#[derive(Clone, Copy, Debug, PartialEq, Eq, Structural)]
pub struct UiPaletteModeConfig {
    /// Background color
    pub background: Color,
    /// Text color
    pub text: Color,
    /// Primary color
    pub primary: Color,
    /// Success color
    pub success: Color,
    /// Failure color
    pub danger: Color,
}

pub open spec fn opaque_rgb(red: u8, green: u8, blue: u8) -> Color {
    Color { red, green, blue, alpha: 255 }
}

/// The colours of the toolkit's built-in dark and light themes.
pub open spec fn default_palette() -> UiPaletteConfig {
    UiPaletteConfig {
        dark: UiPaletteModeConfig {
            background: opaque_rgb(0x2b, 0x2d, 0x31),
            text: opaque_rgb(0xe6, 0xe6, 0xe6),
            primary: opaque_rgb(0x58, 0x65, 0xf2),
            success: opaque_rgb(0x12, 0x66, 0x4f),
            danger: opaque_rgb(0xc3, 0x42, 0x3f),
        },
        light: UiPaletteModeConfig {
            background: opaque_rgb(0xff, 0xff, 0xff),
            text: opaque_rgb(0x00, 0x00, 0x00),
            primary: opaque_rgb(0x58, 0x65, 0xf2),
            success: opaque_rgb(0x12, 0x66, 0x4f),
            danger: opaque_rgb(0xc3, 0x42, 0x3f),
        },
    }
}

impl Color {
    pub fn rgb(red: u8, green: u8, blue: u8) -> (r: Color)
        ensures
            r == opaque_rgb(red, green, blue),
    {
        Color { red, green, blue, alpha: 255 }
    }
}

impl Default for UiPaletteConfig {
    fn default() -> (r: UiPaletteConfig)
        ensures
            r == default_palette(),
    {
        UiPaletteConfig {
            dark: UiPaletteModeConfig {
                background: Color::rgb(0x2b, 0x2d, 0x31),
                text: Color::rgb(0xe6, 0xe6, 0xe6),
                primary: Color::rgb(0x58, 0x65, 0xf2),
                success: Color::rgb(0x12, 0x66, 0x4f),
                danger: Color::rgb(0xc3, 0x42, 0x3f),
            },
            light: UiPaletteModeConfig {
                background: Color::rgb(0xff, 0xff, 0xff),
                text: Color::rgb(0x00, 0x00, 0x00),
                primary: Color::rgb(0x58, 0x65, 0xf2),
                success: Color::rgb(0x12, 0x66, 0x4f),
                danger: Color::rgb(0xc3, 0x42, 0x3f),
            },
        }
    }
}

impl Default for UiConfig {
    fn default() -> (r: UiConfig)
        ensures
            r.palette == default_palette(),
    {
        UiConfig { palette: UiPaletteConfig::default() }
    }
}

} // verus!
