//! The settings that are kept from one session to the next.

use vstd::prelude::*;

verus! {

/// The kept settings, as mathematical data.
pub struct PreferencesModel {
    pub last_path: Seq<char>,
    pub guid: u64,
    pub buffer_size: i32,
    pub rewind_first: bool,
}

/// The settings that are kept from one session to the next.
#[derive(Debug, PartialEq, Eq)]
pub struct Preferences {
    /// The destination that was chosen last.
    pub last_path: String,
    /// Identifier of the capture device.
    pub guid: u64,
    /// Size of the capture buffer.
    pub buffer_size: i32,
    /// Whether the tape is rewound before a capture unless the user says
    /// otherwise.
    pub rewind_first: bool,
}

impl View for Preferences {
    type V = PreferencesModel;

    open spec fn view(&self) -> PreferencesModel {
        PreferencesModel {
            last_path: self.last_path@,
            guid: self.guid,
            buffer_size: self.buffer_size,
            rewind_first: self.rewind_first,
        }
    }
}

/// The settings of a first session: no path, device zero, buffer size zero,
/// no rewinding.
pub open spec fn default_preferences() -> PreferencesModel {
    PreferencesModel { last_path: Seq::empty(), guid: 0, buffer_size: 0, rewind_first: false }
}

/// The settings a session starts with, given what the store gave back:
/// the stored settings where there were any, the defaults where the store
/// was missing or could not be read.
pub open spec fn restored(loaded: Option<PreferencesModel>) -> PreferencesModel {
    match loaded {
        Some(stored) => stored,
        None => default_preferences(),
    }
}

impl Default for Preferences {
    fn default() -> (preferences: Preferences)
        ensures
            preferences@ == default_preferences(),
    {
        Preferences { last_path: String::new(), guid: 0, buffer_size: 0, rewind_first: false }
    }
}

impl Clone for Preferences {
    /// The copy holds the same settings.
    fn clone(&self) -> (copy: Preferences)
        ensures
            copy@ == self@,
    {
        Preferences {
            last_path: self.last_path.clone(),
            guid: self.guid,
            buffer_size: self.buffer_size,
            rewind_first: self.rewind_first,
        }
    }
}

impl Preferences {
    /// Gives the settings to start a session with. `loaded` is what reading
    /// the store gave: `None` where the store was missing or unreadable.
    /// Starting never fails on that account: the defaults are used.
    pub fn restore(loaded: Option<Preferences>) -> (preferences: Preferences)
        ensures
            preferences@ == restored(
                match loaded {
                    Some(stored) => Some(stored@),
                    None => None,
                },
            ),
    {
        match loaded {
            Some(stored) => stored,
            None => Preferences::default(),
        }
    }
}

/// What the store gave back is what the session starts with, and where it
/// gave nothing the session starts with the defaults.
pub proof fn lemma_restored_cases(stored: PreferencesModel)
    ensures
        restored(Some(stored)) == stored,
        restored(None) == default_preferences(),
{
}

} // verus!
