//! The store of the settings in force.
//!
//! The store holds one whole set of settings. Readers get a copy, never a
//! view into the store, and a writer replaces the set in one piece, so that
//! no reader sees a set that is half old and half new. The program keeps the
//! store behind a lock and reads the settings file; what it read comes in
//! here as a value.

use vstd::prelude::*;
use crate::door::SettingsIOError;
use crate::settings::Settings;

verus! {

/// Holder of the settings in force.
#[derive(Debug)]
pub struct ConfigStore {
    current: Settings,
}

impl View for ConfigStore {
    type V = Settings;

    closed spec fn view(&self) -> Settings {
        self.current
    }
}

impl ConfigStore {
    /// A store that holds `initial`.
    pub fn new(initial: Settings) -> (store: ConfigStore)
        ensures
            store@ == initial,
    {
        ConfigStore { current: initial }
    }

    /// The store at the start of the program.
    ///
    /// `file` is `None` when there is no settings file, which is no error:
    /// the store then holds the initial settings. Otherwise `file` is what
    /// reading the file gave, and a file that could not be read or
    /// understood gives its error and no store.
    pub fn load_or_default(file: Option<Result<Settings, SettingsIOError>>) -> (loaded: Result<
        ConfigStore,
        SettingsIOError,
    >)
        ensures
            match file {
                None => loaded matches Ok(store) && store@ == Settings::initial(),
                Some(Ok(settings)) => loaded matches Ok(store) && store@ == settings,
                Some(Err(error)) => loaded matches Err(e) && e == error,
            },
    {
        match file {
            None => Ok(ConfigStore { current: Settings::default() }),
            Some(Ok(settings)) => Ok(ConfigStore { current: settings }),
            Some(Err(error)) => Err(error),
        }
    }

    /// A copy of the settings in force.
    pub fn get(&self) -> (settings: Settings)
        ensures
            settings == self@,
    {
        self.current
    }

    /// Puts `new` in force in place of the settings held.
    pub fn replace(&mut self, new: Settings)
        ensures
            final(self)@ == new,
    {
        self.current = new;
    }

    /// Takes what reading the settings file gave after the file was changed.
    ///
    /// Settings that were read take the place of those held. A file that
    /// could not be read or understood changes nothing: the settings held
    /// stay in force, and the error is handed back for the record.
    pub fn reload(&mut self, file: Result<Settings, SettingsIOError>) -> (refused: Option<
        SettingsIOError,
    >)
        ensures
            match file {
                Ok(settings) => final(self)@ == settings && refused is None,
                Err(error) => final(self)@ == old(self)@ && refused == Some(error),
            },
    {
        match file {
            Ok(settings) => {
                self.current = settings;
                None
            },
            Err(error) => Some(error),
        }
    }
}

} // verus!
