//! The desktop environment: the session variables, then the search for
//! known desktop shells, asked in a fixed order until one gives an answer.

use vstd::prelude::*;
use vstd::string::*;
use crate::system_info::{stored, SystemInfo};
use crate::text::owned;

verus! {

/// What the sources of the desktop environment gave.
#[derive(Debug, Clone)]
pub struct DesktopSources {
    /// The variable that names the current desktop.
    pub current_desktop: Option<String>,
    /// The variable that names the desktop session.
    pub desktop_session: Option<String>,
    /// The variable that names the display manager's session.
    pub gdm_session: Option<String>,
    /// Whether the search for the GNOME shell among the executables
    /// reported success, if the search could be started.
    pub gnome_shell: Option<bool>,
    /// Whether the search for the KDE window manager among the executables
    /// reported success, if the search could be started.
    pub kwin: Option<bool>,
}

/// The sources of the desktop environment, in the order in which they are
/// asked.
#[derive(Debug, Clone, Copy, PartialEq, Eq, Structural)]
pub enum DesktopSource {
    SessionVariables,
    GnomeShell,
    Kwin,
}

/// The value of a session variable, unless it is unset or empty.
pub open spec fn session_name(variable: Option<Seq<char>>) -> Option<Seq<char>> {
    match variable {
        Some(value) => if value.len() > 0 {
            Some(value)
        } else {
            None
        },
        None => None,
    }
}

impl DesktopSource {
    /// The place of the source in the order of asking.
    pub open spec fn rank(self) -> nat {
        match self {
            DesktopSource::SessionVariables => 0,
            DesktopSource::GnomeShell => 1,
            DesktopSource::Kwin => 2,
        }
    }

    /// The source that is asked first.
    pub fn first() -> (source: DesktopSource)
        ensures
            source.rank() == 0,
    {
        DesktopSource::SessionVariables
    }

    /// The source that is asked when this one gave no answer, if one is
    /// left.
    pub fn next(self) -> (following: Option<DesktopSource>)
        ensures
            match following {
                Some(source) => source.rank() == self.rank() + 1,
                None => self.rank() == 2,
            },
    {
        match self {
            DesktopSource::SessionVariables => Some(DesktopSource::GnomeShell),
            DesktopSource::GnomeShell => Some(DesktopSource::Kwin),
            DesktopSource::Kwin => None,
        }
    }
}

impl DesktopSources {
    /// The answer of one source, if it gave one. The session variables
    /// answer with the first of them that is set and not empty.
    pub open spec fn answer(&self, source: DesktopSource) -> Option<Seq<char>> {
        match source {
            DesktopSource::SessionVariables => if session_name(stored(self.current_desktop))
                is Some {
                session_name(stored(self.current_desktop))
            } else if session_name(stored(self.desktop_session)) is Some {
                session_name(stored(self.desktop_session))
            } else {
                session_name(stored(self.gdm_session))
            },
            DesktopSource::GnomeShell => if self.gnome_shell == Some(true) {
                Some("GNOME"@)
            } else {
                None
            },
            DesktopSource::Kwin => if self.kwin == Some(true) {
                Some("KDE"@)
            } else {
                None
            },
        }
    }

    /// The desktop environment: the answer of the first source that gave
    /// one.
    pub open spec fn desktop_environment(&self) -> Seq<char> {
        if self.answer(DesktopSource::SessionVariables) is Some {
            self.answer(DesktopSource::SessionVariables)->0
        } else if self.answer(DesktopSource::GnomeShell) is Some {
            self.answer(DesktopSource::GnomeShell)->0
        } else if self.answer(DesktopSource::Kwin) is Some {
            self.answer(DesktopSource::Kwin)->0
        } else {
            "Unknown"@
        }
    }

    /// Whether no source gave anything: no session variable is set to
    /// more than the empty text, and no search ran with success.
    pub open spec fn nothing_read(&self) -> bool {
        &&& session_name(stored(self.current_desktop)) is None
        &&& session_name(stored(self.desktop_session)) is None
        &&& session_name(stored(self.gdm_session)) is None
        &&& self.gnome_shell != Some(true)
        &&& self.kwin != Some(true)
    }

    /// Sources of which none gave anything.
    pub fn unavailable() -> (sources: DesktopSources)
        ensures
            sources.nothing_read(),
            sources.current_desktop is None,
            sources.desktop_session is None,
            sources.gdm_session is None,
            sources.gnome_shell is None,
            sources.kwin is None,
    {
        DesktopSources {
            current_desktop: None,
            desktop_session: None,
            gdm_session: None,
            gnome_shell: None,
            kwin: None,
        }
    }

    /// An answer settles the fact whatever the sources behind it hold.
    pub proof fn lemma_first_answer_settles(&self, source: DesktopSource)
        requires
            self.answer(source) is Some,
            forall|earlier: DesktopSource|
                earlier.rank() < source.rank() ==> self.answer(earlier) is None,
        ensures
            self.desktop_environment() == self.answer(source)->0,
    {
        assert(DesktopSource::SessionVariables.rank() == 0);
        assert(DesktopSource::GnomeShell.rank() == 1);
    }
}

impl SystemInfo {
    /// The answer of one source of the desktop environment, if it gave
    /// one.
    pub fn desktop_answer(source: DesktopSource, sources: &DesktopSources) -> (name: Option<String>)
        ensures
            stored(name) == sources.answer(source),
    {
        match source {
            DesktopSource::SessionVariables => {
                let first = session_value(&sources.current_desktop);
                if first.is_some() {
                    return first;
                }
                let second = session_value(&sources.desktop_session);
                if second.is_some() {
                    return second;
                }
                session_value(&sources.gdm_session)
            },
            DesktopSource::GnomeShell => if found(sources.gnome_shell) {
                Some(owned("GNOME"))
            } else {
                None
            },
            DesktopSource::Kwin => if found(sources.kwin) {
                Some(owned("KDE"))
            } else {
                None
            },
        }
    }

    /// The desktop environment: the answer of the first source that gave
    /// one, in the order of asking.
    pub fn get_desktop_environment(sources: &DesktopSources) -> (name: String)
        ensures
            name@ == sources.desktop_environment(),
            sources.nothing_read() ==> name@ == "Unknown"@,
    {
        match Self::desktop_answer(DesktopSource::SessionVariables, sources) {
            Some(name) => {
                return name;
            },
            None => {},
        }
        match Self::desktop_answer(DesktopSource::GnomeShell, sources) {
            Some(name) => {
                return name;
            },
            None => {},
        }
        match Self::desktop_answer(DesktopSource::Kwin, sources) {
            Some(name) => name,
            None => owned("Unknown"),
        }
    }
}

/// Whether a search was started and reported success.
fn found(search: Option<bool>) -> (b: bool)
    ensures
        b == (search == Some(true)),
{
    match search {
        Some(success) => success,
        None => false,
    }
}

/// The value of a session variable, unless it is unset or empty.
fn session_value(variable: &Option<String>) -> (name: Option<String>)
    ensures
        stored(name) == session_name(stored(*variable)),
{
    match variable {
        Some(value) => if value.as_str().unicode_len() > 0 {
            Some(value.clone())
        } else {
            None
        },
        None => None,
    }
}

} // verus!
