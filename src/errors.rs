//! The error kinds of each layer: glyphs, settings, the state registry,
//! plugins, and the operations that combine them.
use vstd::prelude::*;

verus! {

/// The two ways the tool can be set up.
#[derive(Debug, Clone, Copy, PartialEq, Eq, Structural)]
pub enum SettingsMode {
    Headless,
    Full,
}

impl SettingsMode {
    /// A readable name for the mode.
    pub fn to_string(&self) -> (r: String)
        ensures
            r@ == (match self {
                SettingsMode::Headless => "SettingsMode :: Headless"@,
                SettingsMode::Full => "SettingsMode :: Full"@,
            }),
    {
        match self {
            SettingsMode::Headless => String::from_str("SettingsMode :: Headless"),
            SettingsMode::Full => String::from_str("SettingsMode :: Full"),
        }
    }
}

#[derive(Debug, Clone, PartialEq, Eq)]
pub enum GlyphError {
    /// The text is not of the form `@tag/id`.
    InvalidGlyph { glyph: String },
}

#[derive(Debug, Clone, PartialEq, Eq)]
pub enum SettingsError {
    /// Neither the marker file nor the working directory exists.
    WorkingDirNotFound,
    /// The named file or directory that should hold the settings is missing.
    SettingsNotFound { file: String },
    /// Settings of the given mode are already in place.
    SettingsAlreadyExists { mode: SettingsMode },
    /// The named settings file could not be read as settings.
    InvalidSettings { file: String },
    /// The settings file does not exist and creating it was not allowed.
    DisallowedUpsert,
    /// The operation has no meaning in headless mode.
    DisallowedHeadless,
    /// A file system operation failed.
    IO { message: String },
    /// The pattern that looks for registry files is malformed.
    Pattern,
}

#[derive(Debug, Clone, PartialEq, Eq)]
pub enum StateError {
    /// The named registry file is missing.
    StateGraphNotFound { file: String },
    /// No tracked project matches the glyph.
    StateNotFound { state: String },
    /// A registry is already in place.
    StateGraphAlreadyExists,
    /// A tracked project already has this glyph or directory.
    StateAlreadyExists { state: String },
    /// The named registry file could not be read as a registry.
    InvalidStateGraph { file: String },
    /// The named project entry is malformed.
    InvalidState { state: String },
    /// The registry tracks no project.
    EmptyStateList,
    /// A file system operation failed.
    IO { message: String },
    /// The settings could not be resolved.
    Settings { source: SettingsError },
}

#[derive(Debug, Clone, PartialEq, Eq)]
pub enum PluginError {
    /// The plugin's process ended in failure, with this error output.
    NonZeroExit { message: String },
    /// No plugin of this name is configured.
    PluginNotFound { plugin: String },
    /// Starting the plugin's process failed.
    IO { message: String },
    /// The settings could not be resolved.
    Settings { source: SettingsError },
}

#[derive(Debug, Clone, PartialEq, Eq)]
pub enum CoreError {
    State { source: StateError },
    Plugin { source: PluginError },
    Settings { source: SettingsError },
}

} // verus!
