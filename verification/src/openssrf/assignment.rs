//! Assignments: stations, configurations and the links that join them.

use vstd::prelude::*;
use vstd::string::*;

use crate::find::{
    all_distinct,
    distinct_keys_found,
    first_index,
    first_index_found,
    first_index_missing,
};
use crate::openssrf::assignment::config::Configuration;
use crate::openssrf::assignment::link::Link;
use crate::openssrf::assignment::station::Station;
use crate::openssrf::serial::Serial;
use crate::openssrf::OpenssrfErr;

pub mod config;
pub mod link;
pub mod station;

verus! {

/// One network under one serial. Ids of stations, configurations and links
/// are local to the assignment.
#[derive(Debug)]
pub struct Assignment {
    pub title: Option<String>,
    pub serial: Serial,
    pub stations: Vec<Station>,
    pub configurations: Vec<Configuration>,
    pub links: Vec<Link>,
}

impl Assignment {
    /// The ids of the links, in their order.
    pub open spec fn link_ids(&self) -> Seq<Seq<char>> {
        self.links@.map_values(|l: Link| l.link_id@)
    }

    /// The ids of the stations, in their order.
    pub open spec fn station_ids(&self) -> Seq<Seq<char>> {
        self.stations@.map_values(|s: Station| s.station_id@)
    }

    /// The ids of the configurations, in their order.
    pub open spec fn config_ids(&self) -> Seq<Seq<char>> {
        self.configurations@.map_values(|c: Configuration| c.config_id@)
    }

    /// No two links share an id, nor two stations, nor two configurations.
    pub open spec fn has_unique_ids(&self) -> bool {
        &&& all_distinct(self.link_ids())
        &&& all_distinct(self.station_ids())
        &&& all_distinct(self.config_ids())
    }

    /// The first link of this assignment with the given id.
    pub fn get_link(&self, id: &str) -> (found: Result<&Link, OpenssrfErr>)
        ensures
            match first_index(self.link_ids(), id@) {
                Some(i) => found matches Ok(l) && *l == self.links[i],
                None => found matches Err(OpenssrfErr::LinkNotFound { link, assignment })
                    && link@ == id@ && assignment == self.serial,
            },
    {
        let wanted = id.to_owned();
        let mut i: usize = 0;
        while i < self.links.len()
            invariant
                i <= self.links.len(),
                wanted@ == id@,
                forall|j: int| 0 <= j < i ==> self.link_ids()[j] != id@,
            decreases self.links.len() - i,
        {
            if self.links[i].link_id == wanted {
                proof {
                    first_index_found(self.link_ids(), id@, i as int);
                }
                return Ok(&self.links[i]);
            }
            i += 1;
        }
        proof {
            first_index_missing(self.link_ids(), id@);
        }
        Err(OpenssrfErr::LinkNotFound { link: wanted, assignment: self.serial.clone() })
    }

    /// The first station of this assignment with the given id. A station of
    /// another assignment is never returned.
    pub fn get_station(&self, id: &str) -> (found: Result<&Station, OpenssrfErr>)
        ensures
            match first_index(self.station_ids(), id@) {
                Some(i) => found matches Ok(s) && *s == self.stations[i],
                None => found matches Err(OpenssrfErr::StationNotFound { station, assignment })
                    && station@ == id@ && assignment == self.serial,
            },
    {
        let wanted = id.to_owned();
        let mut i: usize = 0;
        while i < self.stations.len()
            invariant
                i <= self.stations.len(),
                wanted@ == id@,
                forall|j: int| 0 <= j < i ==> self.station_ids()[j] != id@,
            decreases self.stations.len() - i,
        {
            if self.stations[i].station_id == wanted {
                proof {
                    first_index_found(self.station_ids(), id@, i as int);
                }
                return Ok(&self.stations[i]);
            }
            i += 1;
        }
        proof {
            first_index_missing(self.station_ids(), id@);
        }
        Err(OpenssrfErr::StationNotFound { station: wanted, assignment: self.serial.clone() })
    }

    /// The first configuration of this assignment with the given id.
    pub fn get_config(&self, id: &str) -> (found: Result<&Configuration, OpenssrfErr>)
        ensures
            match first_index(self.config_ids(), id@) {
                Some(i) => found matches Ok(c) && *c == self.configurations[i],
                None => found matches Err(OpenssrfErr::ConfigNotFound { config, assignment })
                    && config@ == id@ && assignment == self.serial,
            },
    {
        let wanted = id.to_owned();
        let mut i: usize = 0;
        while i < self.configurations.len()
            invariant
                i <= self.configurations.len(),
                wanted@ == id@,
                forall|j: int| 0 <= j < i ==> self.config_ids()[j] != id@,
            decreases self.configurations.len() - i,
        {
            if self.configurations[i].config_id == wanted {
                proof {
                    first_index_found(self.config_ids(), id@, i as int);
                }
                return Ok(&self.configurations[i]);
            }
            i += 1;
        }
        proof {
            first_index_missing(self.config_ids(), id@);
        }
        Err(OpenssrfErr::ConfigNotFound { config: wanted, assignment: self.serial.clone() })
    }
}

/// In an assignment whose ids are unique, every station, configuration and
/// link is the one that its own id finds.
pub proof fn unique_ids_find_their_owner(assignment: Assignment, s: int, c: int, l: int)
    requires
        assignment.has_unique_ids(),
        0 <= s < assignment.stations.len(),
        0 <= c < assignment.configurations.len(),
        0 <= l < assignment.links.len(),
    ensures
        first_index(assignment.station_ids(), assignment.stations[s].station_id@) == Some(s),
        first_index(assignment.config_ids(), assignment.configurations[c].config_id@) == Some(c),
        first_index(assignment.link_ids(), assignment.links[l].link_id@) == Some(l),
{
    distinct_keys_found(assignment.station_ids(), s);
    distinct_keys_found(assignment.config_ids(), c);
    distinct_keys_found(assignment.link_ids(), l);
}

} // verus!
