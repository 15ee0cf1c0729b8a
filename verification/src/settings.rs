//! The preferences record.

use vstd::prelude::*;

verus! {

/// The persisted preferences: at present the display theme alone.
#[derive(Clone, Copy, Debug, PartialEq, Eq, Structural)]
pub struct Settings {
    pub dark_mode: bool,
}

impl Settings {
    /// The settings of a first run: the light theme.
    pub open spec fn initial() -> Settings {
        Settings { dark_mode: false }
    }

    /// Chooses the theme. Says whether that changed the settings, which is
    /// when they are to be written out again.
    pub fn set_dark_mode(&mut self, dark_mode: bool) -> (changed: bool)
        ensures
            final(self).dark_mode == dark_mode,
            changed == (old(self).dark_mode != dark_mode),
    {
        let changed = self.dark_mode != dark_mode;
        self.dark_mode = dark_mode;
        changed
    }
}

impl Default for Settings {
    fn default() -> (settings: Settings)
        ensures
            settings == Settings::initial(),
    {
        Settings { dark_mode: false }
    }
}

/// What loading makes of a record read back from durable storage.
pub open spec fn loaded_settings(record: Option<Settings>) -> Settings {
    match record {
        Some(settings) => settings,
        None => Settings::initial(),
    }
}

/// The settings to start from, given what was read back from durable
/// storage: the record as it is, or the initial settings where there was
/// no file or its contents were not a settings record. Loading never fails.
pub fn load_settings(record: Option<Settings>) -> (settings: Settings)
    ensures
        settings == loaded_settings(record),
{
    match record {
        Some(settings) => settings,
        None => Settings { dark_mode: false },
    }
}

/// Saving and loading give the settings back.
pub proof fn lemma_saved_settings_load_back(settings: Settings)
    ensures
        loaded_settings(Some(settings)) == settings,
{
}

} // verus!
