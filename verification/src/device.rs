//! Choosing a backlight device from what the caller read off the system.
//!
//! The caller enumerates the backlight device class and reads each entry's
//! `brightness` and `max_brightness` files; this module decides which entry
//! is usable. Discovery takes the first candidate whose name is
//! representable and whose two readings both parse, skipping the rest; a
//! device asked for by name must be readable outright.

use vstd::prelude::*;
use crate::error::Error;
use crate::parse::{parses, digits_value, trimmed, parse_brightness_value};

verus! {

/// A backlight device found by this library: the name the session broker
/// wants, and the highest raw value the device supports.
#[derive(Debug, Clone, PartialEq, Eq)]
pub struct Backlight {
    /// Name of the backlight: the entry's directory name under the device
    /// class, and the name handed to the session broker.
    pub name: String,
    /// Highest raw value the backlight supports. Always "fully on", but
    /// drivers differ in unit and scale.
    pub max: u32,
}

/// One entry of the backlight device class, as the caller read it. `name`
/// is `None` when the entry's name is not representable as text; a reading
/// is `None` when its file could not be read.
#[derive(Debug)]
pub struct Candidate {
    pub name: Option<String>,
    pub brightness: Option<Vec<u8>>,
    pub max_brightness: Option<Vec<u8>>,
}

/// A candidate qualifies when its name is representable and both readings
/// are present and parse.
pub open spec fn candidate_valid(c: Candidate) -> bool {
    &&& c.name is Some
    &&& c.brightness matches Some(b) && parses(b@)
    &&& c.max_brightness matches Some(m) && parses(m@)
}

/// The current raw value a qualifying candidate reports.
pub open spec fn candidate_current(c: Candidate) -> int
    recommends
        candidate_valid(c),
{
    digits_value(trimmed(c.brightness->0@))
}

/// The raw ceiling a qualifying candidate reports.
pub open spec fn candidate_max(c: Candidate) -> int
    recommends
        candidate_valid(c),
{
    digits_value(trimmed(c.max_brightness->0@))
}

/// Decides whether one candidate qualifies; discovery warnings for the
/// entries that do not are the caller's to log.
pub fn candidate_is_valid(c: &Candidate) -> (r: bool)
    ensures
        r == candidate_valid(*c),
{
    match (&c.name, &c.brightness, &c.max_brightness) {
        (Some(_), Some(b), Some(m)) => {
            let cur = parse_brightness_value(b.as_slice());
            let mx = parse_brightness_value(m.as_slice());
            cur.is_some() && mx.is_some()
        },
        _ => false,
    }
}

/// Locates the first suitable backlight among the candidates, in the order
/// the caller listed them.
///
/// Returns the first candidate whose name is representable and whose two
/// readings parse, as a `Backlight` together with its current raw value;
/// every earlier candidate is skipped, not fatal. Fails only when no
/// candidate qualifies.
pub fn find_first_backlight(candidates: &Vec<Candidate>) -> (r: Result<(Backlight, u32), Error>)
    ensures
        (r is Ok <==> exists|idx: int|
            0 <= idx < candidates@.len() && candidate_valid(#[trigger] candidates@[idx])),
        r matches Ok(found) ==> exists|idx: int|
            {
                &&& 0 <= idx < candidates@.len()
                &&& candidate_valid(#[trigger] candidates@[idx])
                &&& forall|k: int| 0 <= k < idx ==> !candidate_valid(#[trigger] candidates@[k])
                &&& found.0.name@ == candidates@[idx].name->0@
                &&& found.0.max as int == candidate_max(candidates@[idx])
                &&& found.1 as int == candidate_current(candidates@[idx])
            },
        r is Err ==> r == Err::<(Backlight, u32), Error>(Error::EternalDarkness),
{
    let n = candidates.len();
    let mut i: usize = 0;
    while i < n
        invariant
            0 <= i <= n,
            n == candidates@.len(),
            forall|k: int| 0 <= k < i ==> !candidate_valid(#[trigger] candidates@[k]),
        decreases n - i,
    {
        let c = &candidates[i];
        match (&c.name, &c.brightness, &c.max_brightness) {
            (Some(name), Some(b), Some(m)) => {
                let cur = parse_brightness_value(b.as_slice());
                let mx = parse_brightness_value(m.as_slice());
                if let (Some(cur), Some(mx)) = (cur, mx) {
                    proof {
                        assert(candidate_valid(candidates@[i as int]));
                    }
                    return Ok((Backlight { name: name.clone(), max: mx }, cur));
                }
            },
            _ => {},
        }
        proof {
            assert(!candidate_valid(candidates@[i as int]));
        }
        i = i + 1;
    }
    Err(Error::EternalDarkness)
}

/// One file of a named device: where it was read from, and its bytes or
/// the reason it could not be read.
pub struct FileReading {
    pub path: String,
    pub contents: Result<Vec<u8>, String>,
}

/// What judging a named device's readings must come to: the `brightness`
/// reading is judged first, an unreadable file is fatal with its path and
/// the observed reason, contents that do not parse are fatal with the path
/// and the offending bytes, and only two good readings give a device.
pub open spec fn use_specific_spec(
    name: String,
    brightness: FileReading,
    max_brightness: FileReading,
) -> Result<(Backlight, u32), Error> {
    match brightness.contents {
        Err(e) => Err(Error::Access(brightness.path, e)),
        Ok(b) => if !parses(b@) {
            Err(Error::Parsing(brightness.path, b))
        } else {
            match max_brightness.contents {
                Err(e) => Err(Error::Access(max_brightness.path, e)),
                Ok(m) => if !parses(m@) {
                    Err(Error::Parsing(max_brightness.path, m))
                } else {
                    Ok(
                        (
                            Backlight { name, max: digits_value(trimmed(m@)) as u32 },
                            digits_value(trimmed(b@)) as u32,
                        ),
                    )
                },
            }
        },
    }
}

/// Validates the readings of an explicitly named backlight device.
///
/// Unlike discovery, nothing is skipped here: any failure is fatal, as
/// `use_specific_spec` lays out.
pub fn use_specific_backlight(
    name: String,
    brightness: FileReading,
    max_brightness: FileReading,
) -> (r: Result<(Backlight, u32), Error>)
    ensures
        r == use_specific_spec(name, brightness, max_brightness),
{
    let b = match brightness.contents {
        Ok(b) => b,
        Err(e) => {
            return Err(Error::Access(brightness.path, e));
        },
    };
    let cur = match parse_brightness_value(b.as_slice()) {
        Some(v) => v,
        None => {
            return Err(Error::Parsing(brightness.path, b));
        },
    };
    let m = match max_brightness.contents {
        Ok(m) => m,
        Err(e) => {
            return Err(Error::Access(max_brightness.path, e));
        },
    };
    let mx = match parse_brightness_value(m.as_slice()) {
        Some(v) => v,
        None => {
            return Err(Error::Parsing(max_brightness.path, m));
        },
    };
    Ok((Backlight { name, max: mx }, cur))
}

} // verus!
