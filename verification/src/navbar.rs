//! The navbar and its dark-mode toggle: parsing and writing the stored
//! setting, choosing the body classes, and the toggle state machine. The
//! browser-storage reads and writes themselves, and the system-theme
//! detection, happen outside; this module decides what they should do.

use vstd::prelude::*;
use crate::text::{lower_of, to_lowercase};

verus! {

/// The key under which the dark-mode setting is persisted in browser
/// storage.
pub const STORAGE_KEY_DARK_MODE: &'static str = "testTrackerDarkMode";

/// Dark mode or light mode.
#[derive(Clone, Copy, Debug, Eq, PartialEq, Structural)]
pub enum DarkMode {
    /// Light mode.
    Light,
    /// Dark mode.
    Dark,
}

impl Default for DarkMode {
    /// Light mode, when nothing is stored and nothing was detected.
    fn default() -> (r: Self)
        ensures
            r == DarkMode::Light,
    {
        DarkMode::Light
    }
}

impl DarkMode {
    /// The opposite mode.
    pub fn other(&self) -> (r: Self)
        ensures
            r == (match self {
                DarkMode::Light => DarkMode::Dark,
                DarkMode::Dark => DarkMode::Light,
            }),
    {
        match self {
            DarkMode::Light => DarkMode::Dark,
            DarkMode::Dark => DarkMode::Light,
        }
    }

    /// The mode a stored value names: "light" and "dark" in any case, and
    /// light mode for anything else.
    pub fn of_storage_value(value: &str) -> (r: Self)
        ensures
            lower_of(value@) == "dark"@ ==> r == DarkMode::Dark,
            lower_of(value@) != "dark"@ ==> r == DarkMode::Light,
            value@ == "dark"@ ==> r == DarkMode::Dark,
            value@ == "light"@ ==> r == DarkMode::Light,
    {
        let folded = to_lowercase(value);
        proof {
            if value@ == "dark"@ {
                reveal_strlit("dark");
                assert(forall|k: int|
                    0 <= k < value@.len() ==> 97 <= (#[trigger] value@[k]) as int <= 122);
            }
            if value@ == "light"@ {
                reveal_strlit("light");
                reveal_strlit("dark");
                assert(forall|k: int|
                    0 <= k < value@.len() ==> 97 <= (#[trigger] value@[k]) as int <= 122);
                assert(lower_of(value@) != "dark"@);
            }
        }
        let dark: String = "dark".to_owned();
        if folded == dark {
            DarkMode::Dark
        } else {
            DarkMode::Light
        }
    }

    /// The value that names this mode in storage.
    pub fn storage_value(&self) -> (r: &'static str)
        ensures
            r@ == (match self {
                DarkMode::Light => "light"@,
                DarkMode::Dark => "dark"@,
            }),
    {
        match self {
            DarkMode::Light => "light",
            DarkMode::Dark => "dark",
        }
    }
}

/// The mode named by what storage holds under the dark-mode key, if
/// anything.
pub fn storage_get_dark_mode(stored: Option<&str>) -> (r: Option<DarkMode>)
    ensures
        stored is None ==> r is None,
        stored matches Some(s) ==> ({
            &&& lower_of(s@) == "dark"@ ==> r == Some(DarkMode::Dark)
            &&& lower_of(s@) != "dark"@ ==> r == Some(DarkMode::Light)
            &&& s@ == "dark"@ ==> r == Some(DarkMode::Dark)
            &&& s@ == "light"@ ==> r == Some(DarkMode::Light)
        }),
{
    match stored {
        None => None,
        Some(s) => Some(DarkMode::of_storage_value(s)),
    }
}

/// The key and value to write so that storage holds the given mode.
pub fn storage_set_dark_mode(dark_mode: DarkMode) -> (r: (String, String))
    ensures
        r.0@ == "testTrackerDarkMode"@,
        r.1@ == (match dark_mode {
            DarkMode::Light => "light"@,
            DarkMode::Dark => "dark"@,
        }),
{
    (STORAGE_KEY_DARK_MODE.to_owned(), dark_mode.storage_value().to_owned())
}

/// The body class to remove and the class to add for the given mode.
pub fn set_dark_mode_on_body(dark_mode: DarkMode) -> (r: (&'static str, &'static str))
    ensures
        dark_mode == DarkMode::Light ==> r.0@ == "dark"@ && r.1@ == "light"@,
        dark_mode == DarkMode::Dark ==> r.0@ == "light"@ && r.1@ == "dark"@,
{
    match dark_mode {
        DarkMode::Light => ("dark", "light"),
        DarkMode::Dark => ("light", "dark"),
    }
}

/// The starting mode: the stored setting wins; otherwise the detected system
/// theme is used and must be persisted (the second component says so).
pub fn init_dark_mode(stored: Option<&str>, detected: DarkMode) -> (r: (DarkMode, bool))
    ensures
        stored is None ==> r == (detected, true),
        stored matches Some(s) ==> ({
            &&& !r.1
            &&& lower_of(s@) == "dark"@ ==> r.0 == DarkMode::Dark
            &&& lower_of(s@) != "dark"@ ==> r.0 == DarkMode::Light
            &&& s@ == "dark"@ ==> r.0 == DarkMode::Dark
            &&& s@ == "light"@ ==> r.0 == DarkMode::Light
        }),
{
    match storage_get_dark_mode(stored) {
        Some(mode) => (mode, false),
        None => (detected, true),
    }
}

/// A message to send to the navbar.
#[derive(Clone, Copy, Debug, PartialEq, Eq, Structural)]
pub enum NavbarMsg {
    /// Do nothing.
    Nothing,

    /// Toggle between light mode and dark mode.
    ToggleDarkMode,
}

/// A simple navbar that manages the dark/light mode toggle.
#[derive(Clone, Copy, Debug, PartialEq, Eq, Structural)]
pub struct Navbar {
    /// Are we using light mode or dark mode?
    pub dark_mode: DarkMode,
}

impl Navbar {
    /// A navbar showing the given starting mode.
    pub fn create(dark_mode: DarkMode) -> (r: Self)
        ensures
            r.dark_mode == dark_mode,
    {
        Navbar { dark_mode }
    }

    /// What a click on the toggle means: a click whose detail count is zero
    /// does nothing; any other click toggles the mode.
    pub fn click_msg(detail: i32) -> (r: NavbarMsg)
        ensures
            detail == 0 ==> r == NavbarMsg::Nothing,
            detail != 0 ==> r == NavbarMsg::ToggleDarkMode,
    {
        if detail == 0 {
            NavbarMsg::Nothing
        } else {
            NavbarMsg::ToggleDarkMode
        }
    }

    /// React to one message. The first component says whether the view
    /// changed; a toggle also names the mode to persist and to apply to the
    /// body.
    pub fn update(&mut self, msg: NavbarMsg) -> (r: (bool, Option<DarkMode>))
        ensures
            msg == NavbarMsg::Nothing ==> !r.0 && r.1 is None && *final(self) == *old(self),
            msg == NavbarMsg::ToggleDarkMode ==> ({
                &&& r.0
                &&& final(self).dark_mode == (match old(self).dark_mode {
                    DarkMode::Light => DarkMode::Dark,
                    DarkMode::Dark => DarkMode::Light,
                })
                &&& r.1 == Some(final(self).dark_mode)
            }),
    {
        match msg {
            NavbarMsg::Nothing => (false, None),
            NavbarMsg::ToggleDarkMode => {
                self.dark_mode = self.dark_mode.other();
                (true, Some(self.dark_mode))
            },
        }
    }
}

} // verus!
