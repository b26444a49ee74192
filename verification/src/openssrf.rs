//! The network description: locations, assignments and what they hold.
//!
//! A document is read once and never changed. Stations name their location
//! by serial, links name their station and configuration by id; the lookups
//! here resolve those names.

use vstd::prelude::*;
use vstd::string::*;

use crate::find::{
    all_distinct,
    distinct_keys_found,
    first_index,
    first_index_found,
    first_index_missing,
};
use crate::openssrf::assignment::Assignment;
use crate::openssrf::location::Location;
use crate::openssrf::serial::{format_serial, format_serial_spec, Serial, SerialView};

pub mod assignment;
pub mod coordinate;
pub mod location;
pub mod serial;

verus! {

/// What can go wrong with a document.
#[derive(Debug)]
pub enum OpenssrfErr {
    /// No assignment of the document has this serial.
    AssignmentNotFound { serial: Serial },
    /// No location of the document has this serial.
    LocationNotFound { serial: Serial },
    /// The assignment has no link with this id.
    LinkNotFound { link: String, assignment: Serial },
    /// The assignment has no station with this id.
    StationNotFound { station: String, assignment: Serial },
    /// The assignment has no configuration with this id.
    ConfigNotFound { config: String, assignment: Serial },
    /// A file could not be read or written; the text says why.
    IOError(String),
    /// A file does not hold a document; the text says why.
    DeserializeError(String),
}

/// `head`, then a serial in its canonical text, then `tail`.
pub open spec fn around_serial(head: Seq<char>, serial: SerialView, tail: Seq<char>) -> Seq<char> {
    head + format_serial_spec(serial) + tail
}

/// What the error says: for a missing item, its id and the serial of the
/// assignment that lacks it.
pub open spec fn openssrf_message(error: OpenssrfErr) -> Seq<char> {
    match error {
        OpenssrfErr::AssignmentNotFound { serial } => around_serial(
            "an assignment with serial `"@,
            serial@,
            "` could not be found"@,
        ),
        OpenssrfErr::LocationNotFound { serial } => around_serial(
            "a location with serial `"@,
            serial@,
            "` could not be found"@,
        ),
        OpenssrfErr::LinkNotFound { link, assignment } => around_serial(
            "a link with id `"@ + link@ + "` could not be found in the assignment with serial `"@,
            assignment@,
            "`"@,
        ),
        OpenssrfErr::StationNotFound { station, assignment } => around_serial(
            "a station with id `"@ + station@
                + "` could not be found in the assignment with serial `"@,
            assignment@,
            "`"@,
        ),
        OpenssrfErr::ConfigNotFound { config, assignment } => around_serial(
            "a config with id `"@ + config@
                + "` could not be found in the assignment with serial `"@,
            assignment@,
            "`"@,
        ),
        OpenssrfErr::IOError(_) => "io error"@,
        OpenssrfErr::DeserializeError(_) => "deserialize error"@,
    }
}

impl OpenssrfErr {
    fn missing_in(what: &str, id: &String, assignment: &Serial) -> (text: String)
        ensures
            text@ == around_serial(
                what@ + id@ + "` could not be found in the assignment with serial `"@,
                assignment@,
                "`"@,
            ),
    {
        let mut text = what.to_owned();
        text.append(id.as_str());
        text.append("` could not be found in the assignment with serial `");
        text.append(format_serial(assignment).as_str());
        text.append("`");
        text
    }

    fn missing(what: &str, serial: &Serial) -> (text: String)
        ensures
            text@ == around_serial(what@, serial@, "` could not be found"@),
    {
        let mut text = what.to_owned();
        text.append(format_serial(serial).as_str());
        text.append("` could not be found");
        text
    }

    /// The error in words.
    pub fn message(&self) -> (text: String)
        ensures
            text@ == openssrf_message(*self),
    {
        match self {
            OpenssrfErr::AssignmentNotFound { serial } => OpenssrfErr::missing(
                "an assignment with serial `",
                serial,
            ),
            OpenssrfErr::LocationNotFound { serial } => OpenssrfErr::missing(
                "a location with serial `",
                serial,
            ),
            OpenssrfErr::LinkNotFound { link, assignment } => OpenssrfErr::missing_in(
                "a link with id `",
                link,
                assignment,
            ),
            OpenssrfErr::StationNotFound { station, assignment } => OpenssrfErr::missing_in(
                "a station with id `",
                station,
                assignment,
            ),
            OpenssrfErr::ConfigNotFound { config, assignment } => OpenssrfErr::missing_in(
                "a config with id `",
                config,
                assignment,
            ),
            OpenssrfErr::IOError(_) => "io error".to_owned(),
            OpenssrfErr::DeserializeError(_) => "deserialize error".to_owned(),
        }
    }
}

/// A whole document.
#[derive(Debug)]
pub struct SSRF {
    pub locations: Vec<Location>,
    pub assignments: Vec<Assignment>,
}

impl SSRF {
    /// The serials of the assignments, in their order.
    pub open spec fn assignment_serials(&self) -> Seq<SerialView> {
        self.assignments@.map_values(|a: Assignment| a.serial@)
    }

    /// The serials of the locations, in their order.
    pub open spec fn location_serials(&self) -> Seq<SerialView> {
        self.locations@.map_values(|l: Location| l.serial@)
    }

    /// Every serial names one location at most and one assignment at most.
    pub open spec fn has_unique_serials(&self) -> bool {
        all_distinct(self.location_serials()) && all_distinct(self.assignment_serials())
    }

    /// Takes the locations and assignments of `other` in behind its own.
    pub fn absorb(&mut self, other: SSRF)
        ensures
            final(self).locations@ == old(self).locations@ + other.locations@,
            final(self).assignments@ == old(self).assignments@ + other.assignments@,
    {
        let mut other = other;
        self.locations.append(&mut other.locations);
        self.assignments.append(&mut other.assignments);
    }

    /// The first assignment with the given serial.
    pub fn get_assignment(&self, serial: &Serial) -> (found: Result<&Assignment, OpenssrfErr>)
        ensures
            match first_index(self.assignment_serials(), serial@) {
                Some(i) => found matches Ok(a) && *a == self.assignments[i],
                None => found matches Err(OpenssrfErr::AssignmentNotFound { serial: missing })
                    && missing == *serial,
            },
    {
        let mut i: usize = 0;
        while i < self.assignments.len()
            invariant
                i <= self.assignments.len(),
                forall|j: int| 0 <= j < i ==> self.assignment_serials()[j] != serial@,
            decreases self.assignments.len() - i,
        {
            if self.assignments[i].serial == *serial {
                proof {
                    first_index_found(self.assignment_serials(), serial@, i as int);
                }
                return Ok(&self.assignments[i]);
            }
            i += 1;
        }
        proof {
            first_index_missing(self.assignment_serials(), serial@);
        }
        Err(OpenssrfErr::AssignmentNotFound { serial: serial.clone() })
    }

    /// The first location with the given serial.
    pub fn get_location(&self, serial: &Serial) -> (found: Result<&Location, OpenssrfErr>)
        ensures
            match first_index(self.location_serials(), serial@) {
                Some(i) => found matches Ok(l) && *l == self.locations[i],
                None => found matches Err(OpenssrfErr::LocationNotFound { serial: missing })
                    && missing == *serial,
            },
    {
        let mut i: usize = 0;
        while i < self.locations.len()
            invariant
                i <= self.locations.len(),
                forall|j: int| 0 <= j < i ==> self.location_serials()[j] != serial@,
            decreases self.locations.len() - i,
        {
            if self.locations[i].serial == *serial {
                proof {
                    first_index_found(self.location_serials(), serial@, i as int);
                }
                return Ok(&self.locations[i]);
            }
            i += 1;
        }
        proof {
            first_index_missing(self.location_serials(), serial@);
        }
        Err(OpenssrfErr::LocationNotFound { serial: serial.clone() })
    }
}

/// In a document whose serials are unique, every assignment and every
/// location is the one that its own serial finds.
pub proof fn unique_serials_find_their_owner(ssrf: SSRF, a: int, l: int)
    requires
        ssrf.has_unique_serials(),
        0 <= a < ssrf.assignments.len(),
        0 <= l < ssrf.locations.len(),
    ensures
        first_index(ssrf.assignment_serials(), ssrf.assignments[a].serial@) == Some(a),
        first_index(ssrf.location_serials(), ssrf.locations[l].serial@) == Some(l),
{
    distinct_keys_found(ssrf.assignment_serials(), a);
    distinct_keys_found(ssrf.location_serials(), l);
}

} // verus!
