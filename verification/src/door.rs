//! The commands that the door takes from outside: open, close, read and
//! write the settings, read the light level.
//!
//! Each command is one request with one answer. What needs hardware, a file
//! or a lock is done by the program before the call, and its result is an
//! argument here.

use vstd::prelude::*;
use crate::actuator::Direction;
use crate::config::ConfigStore;
use crate::controller::{outcome_of, step, DoorController, DoorEvent, Outcome};
use crate::sensor::{level_units, sample_from_response, sample_of, LightLevel};
use crate::settings::Settings;

verus! {

/// `std::io::Error`, which is carried and never looked into.
#[verifier::external_type_specification]
#[verifier::external_body]
pub struct ExIoError(std::io::Error);

/// `toml::ser::Error`, which is carried and never looked into.
#[verifier::external_type_specification]
#[verifier::external_body]
pub struct ExTomlSerError(toml::ser::Error);

/// `toml::de::Error`, which is carried and never looked into.
#[verifier::external_type_specification]
#[verifier::external_body]
pub struct ExTomlDeError(toml::de::Error);

/// `rppal::spi::Error`, which is carried and never looked into.
#[verifier::external_type_specification]
#[verifier::external_body]
pub struct ExSpiError(rppal::spi::Error);

/// Why the settings could not be read or written.
#[derive(Debug)]
pub enum SettingsIOError {
    /// The settings file could not be read or written.
    FileAccess(std::io::Error),
    /// The settings could not be put into text.
    Serialize(toml::ser::Error),
    /// The text of the settings file is no set of settings.
    Deserialize(toml::de::Error),
}

/// Why the light level could not be read.
#[derive(Debug)]
pub enum LightLevelError {
    /// The serial bus could not be opened, or the transfer on it failed.
    SPI(rppal::spi::Error),
}

impl SettingsIOError {
    /// The error in words.
    pub fn message(&self) -> (text: &'static str)
        ensures
            text@ == match self {
                SettingsIOError::FileAccess(_) => "could not access settings.toml"@,
                SettingsIOError::Serialize(_) => "could not serialize settings"@,
                SettingsIOError::Deserialize(_) => "could deserialize settings.toml"@,
            },
    {
        match self {
            SettingsIOError::FileAccess(_) => "could not access settings.toml",
            SettingsIOError::Serialize(_) => "could not serialize settings",
            SettingsIOError::Deserialize(_) => "could deserialize settings.toml",
        }
    }
}

impl LightLevelError {
    /// The error in words.
    pub fn message(&self) -> (text: &'static str)
        ensures
            text@ == "could not access MCP3208"@,
    {
        "could not access MCP3208"
    }
}

impl From<std::io::Error> for SettingsIOError {
    fn from(error: std::io::Error) -> (wrapped: SettingsIOError) {
        SettingsIOError::FileAccess(error)
    }
}

impl vstd::std_specs::convert::FromSpecImpl<std::io::Error> for SettingsIOError {
    open spec fn obeys_from_spec() -> bool {
        true
    }

    open spec fn from_spec(error: std::io::Error) -> SettingsIOError {
        SettingsIOError::FileAccess(error)
    }
}

impl From<toml::ser::Error> for SettingsIOError {
    fn from(error: toml::ser::Error) -> (wrapped: SettingsIOError) {
        SettingsIOError::Serialize(error)
    }
}

impl vstd::std_specs::convert::FromSpecImpl<toml::ser::Error> for SettingsIOError {
    open spec fn obeys_from_spec() -> bool {
        true
    }

    open spec fn from_spec(error: toml::ser::Error) -> SettingsIOError {
        SettingsIOError::Serialize(error)
    }
}

impl From<toml::de::Error> for SettingsIOError {
    fn from(error: toml::de::Error) -> (wrapped: SettingsIOError) {
        SettingsIOError::Deserialize(error)
    }
}

impl vstd::std_specs::convert::FromSpecImpl<toml::de::Error> for SettingsIOError {
    open spec fn obeys_from_spec() -> bool {
        true
    }

    open spec fn from_spec(error: toml::de::Error) -> SettingsIOError {
        SettingsIOError::Deserialize(error)
    }
}

impl From<rppal::spi::Error> for LightLevelError {
    fn from(error: rppal::spi::Error) -> (wrapped: LightLevelError) {
        LightLevelError::SPI(error)
    }
}

impl vstd::std_specs::convert::FromSpecImpl<rppal::spi::Error> for LightLevelError {
    open spec fn obeys_from_spec() -> bool {
        true
    }

    open spec fn from_spec(error: rppal::spi::Error) -> LightLevelError {
        LightLevelError::SPI(error)
    }
}

/// Serves a command to close the door.
///
/// `lock` is the controller as the lock on it gave it, or `None` when the
/// lock could not be had. Without the lock nothing is done, and the door
/// stays in the state last known. With it the command is the controller's
/// [`DoorController::request_close`]: on `Actuate` the caller performs the
/// closing sequence and reports its end before it lets go of the lock.
pub fn close(lock: Option<&mut DoorController>) -> (outcome: Outcome)
    ensures
        match lock {
            Some(door) => {
                &&& outcome == outcome_of(door@, Direction::Closing)
                &&& final(door)@ == step(door@, DoorEvent::Requested(Direction::Closing))
            },
            None => outcome == Outcome::LockUnavailable,
        },
{
    match lock {
        Some(door) => door.request_close(),
        None => Outcome::LockUnavailable,
    }
}

/// Serves a command to open the door.
///
/// `lock` is the controller as the lock on it gave it, or `None` when the
/// lock could not be had. Without the lock nothing is done, and the door
/// stays in the state last known. With it the command is the controller's
/// [`DoorController::request_open`]: on `Actuate` the caller performs the
/// opening sequence and reports its end before it lets go of the lock.
pub fn open(lock: Option<&mut DoorController>) -> (outcome: Outcome)
    ensures
        match lock {
            Some(door) => {
                &&& outcome == outcome_of(door@, Direction::Opening)
                &&& final(door)@ == step(door@, DoorEvent::Requested(Direction::Opening))
            },
            None => outcome == Outcome::LockUnavailable,
        },
{
    match lock {
        Some(door) => door.request_open(),
        None => Outcome::LockUnavailable,
    }
}

/// The settings in force.
pub fn get_settings(store: &ConfigStore) -> (settings: Settings)
    ensures
        settings == store@,
{
    store.get()
}

/// Puts `settings` in force once they are written to the settings file.
///
/// `persisted` is what writing them gave. Settings that were written take
/// the place of those in the store. A write that failed changes nothing in
/// the store, and its error is the answer.
pub fn write_settings(
    store: &mut ConfigStore,
    settings: Settings,
    persisted: Result<(), SettingsIOError>,
) -> (written: Result<(), SettingsIOError>)
    ensures
        written == persisted,
        persisted is Ok ==> final(store)@ == settings,
        persisted is Err ==> final(store)@ == old(store)@,
{
    if persisted.is_ok() {
        store.replace(settings);
    }
    persisted
}

/// The light level that a transfer with the sensor's converter gave.
///
/// `transfer` is the converter's answer, or the error of the bus. The level
/// is that of the sample in the answer. An error of the bus is handed on;
/// nothing is tried again.
pub fn light_level(transfer: Result<[u8; 5], rppal::spi::Error>) -> (reading: Result<
    LightLevel,
    LightLevelError,
>)
    ensures
        match transfer {
            Ok(response) => reading matches Ok(level) && level.units == level_units(
                sample_of(response@),
            ),
            Err(error) => reading matches Err(LightLevelError::SPI(e)) && e == error,
        },
{
    match transfer {
        Ok(response) => Ok(LightLevel::from_sample(sample_from_response(&response))),
        Err(error) => Err(LightLevelError::SPI(error)),
    }
}

} // verus!
