//! Failure taxonomy of the library.

use vstd::prelude::*;

verus! {

/// Things that can go wrong while finding a backlight or resolving a
/// brightness change.
#[derive(Debug, PartialEq, Eq)]
pub enum Error {
    /// No candidate device qualified during discovery.
    EternalDarkness,
    /// The backlight directory itself could not be read; the payload is the
    /// reason the caller observed.
    SysAccess(String),
    /// A specific backlight's file could not be read: the file's path and
    /// the reason the caller observed.
    Access(String, String),
    /// A backlight file held something other than a non-negative number:
    /// the file's path and the offending bytes.
    Parsing(String, Vec<u8>),
    /// A device name that cannot be handed to the session broker's text
    /// encoding.
    NonRepresentableName,
    /// A strict-mode increase was requested with the device already at its
    /// maximum.
    AtUpperBound,
    /// A strict-mode decrease was requested with the device already at or
    /// below the configured floor.
    AtLowerBound,
    /// The session broker refused the brightness change; the payload is the
    /// reason it gave.
    Dbus(String),
}

impl Error {
    /// A fixed, nonempty description of the failure; payload details are
    /// the caller's to report alongside it.
    pub fn message(&self) -> (r: &'static str)
        ensures
            r@.len() > 0,
    {
        proof {
            reveal_strlit("no compatible backlights found on this system");
            reveal_strlit("can't access the backlight device directory");
            reveal_strlit("can't use backlight device");
            reveal_strlit("backlight device produced non-numeric output");
            reveal_strlit("backlight name is not representable as text");
            reveal_strlit("cannot increase brightness past range for device");
            reveal_strlit("cannot decrease brightness below the requested floor");
            reveal_strlit("problem changing brightness over DBus");
        }
        match self {
            Error::EternalDarkness => "no compatible backlights found on this system",
            Error::SysAccess(_) => "can't access the backlight device directory",
            Error::Access(_, _) => "can't use backlight device",
            Error::Parsing(_, _) => "backlight device produced non-numeric output",
            Error::NonRepresentableName => "backlight name is not representable as text",
            Error::AtUpperBound => "cannot increase brightness past range for device",
            Error::AtLowerBound => "cannot decrease brightness below the requested floor",
            Error::Dbus(_) => "problem changing brightness over DBus",
        }
    }
}

} // verus!
