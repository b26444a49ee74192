//! One coverage held against others that disturb it.

use vstd::prelude::*;
use vstd::string::*;

use crate::cloudrf::misc::{Bounds, ColourKeyValue};
use crate::quantity::Micro;
use crate::text::texts;

verus! {

/// A request to hold a wanted signal against jamming ones.
#[derive(Debug, Clone, PartialEq, Eq)]
pub struct InterferenceReq {
    pub signal: Signal,
    pub jamming: Jamming,
    pub name: String,
    pub colour_key: String,
}

/// The wanted signal: a network, a list of sites, or both.
#[derive(Debug, Clone, PartialEq, Eq)]
pub enum Signal {
    Network { s_network: String },
    Sites { s_sites: Vec<String> },
    Both { s_network: String, s_sites: Vec<String> },
}

/// The jamming signals: a network, a list of sites, or both.
#[derive(Debug, Clone, PartialEq, Eq)]
pub enum Jamming {
    Network { j_network: String },
    Sites { j_sites: Vec<String> },
    Both { j_network: String, j_sites: Vec<String> },
}

/// What a [`Signal`] or a [`Jamming`] names.
pub enum SourceView {
    Network { network: Seq<char> },
    Sites { sites: Seq<Seq<char>> },
    Both { network: Seq<char>, sites: Seq<Seq<char>> },
}

impl View for Signal {
    type V = SourceView;

    open spec fn view(&self) -> SourceView {
        match *self {
            Signal::Network { s_network } => SourceView::Network { network: s_network@ },
            Signal::Sites { s_sites } => SourceView::Sites { sites: texts(s_sites@) },
            Signal::Both { s_network, s_sites } => SourceView::Both {
                network: s_network@,
                sites: texts(s_sites@),
            },
        }
    }
}

impl View for Jamming {
    type V = SourceView;

    open spec fn view(&self) -> SourceView {
        match *self {
            Jamming::Network { j_network } => SourceView::Network { network: j_network@ },
            Jamming::Sites { j_sites } => SourceView::Sites { sites: texts(j_sites@) },
            Jamming::Both { j_network, j_sites } => SourceView::Both {
                network: j_network@,
                sites: texts(j_sites@),
            },
        }
    }
}

/// What an [`InterferenceReq`] holds.
pub struct InterferenceReqView {
    pub signal: SourceView,
    pub jamming: SourceView,
    pub name: Seq<char>,
    pub colour_key: Seq<char>,
}

impl View for InterferenceReq {
    type V = InterferenceReqView;

    open spec fn view(&self) -> InterferenceReqView {
        InterferenceReqView {
            signal: self.signal@,
            jamming: self.jamming@,
            name: self.name@,
            colour_key: self.colour_key@,
        }
    }
}

impl InterferenceReq {
    /// The request that says nothing of its own.
    pub open spec fn default_view() -> InterferenceReqView {
        InterferenceReqView {
            signal: SourceView::Network { network: "My_Signal_Network"@ },
            jamming: SourceView::Network { network: "My_Jamming_Network"@ },
            name: "QRM"@,
            colour_key: "JS.dB"@,
        }
    }
}

impl Default for Signal {
    fn default() -> (signal: Self)
        ensures
            signal@ == (SourceView::Network { network: "My_Signal_Network"@ }),
    {
        Signal::Network { s_network: "My_Signal_Network".to_owned() }
    }
}

impl Default for Jamming {
    fn default() -> (jamming: Self)
        ensures
            jamming@ == (SourceView::Network { network: "My_Jamming_Network"@ }),
    {
        Jamming::Network { j_network: "My_Jamming_Network".to_owned() }
    }
}

impl Default for InterferenceReq {
    fn default() -> (request: Self)
        ensures
            request@ == InterferenceReq::default_view(),
    {
        InterferenceReq {
            signal: Signal::default(),
            jamming: Jamming::default(),
            name: "QRM".to_owned(),
            colour_key: "JS.dB".to_owned(),
        }
    }
}

/// What the engine answers to an [`InterferenceReq`]: what went wrong, or
/// where the rendered comparison lies.
#[derive(Debug, Clone, PartialEq, Eq)]
pub enum InterferenceRes {
    Error { error: String },
    Success {
        kmz: String,
        png_wgs84: String,
        png_mercator: String,
        bounds: Bounds,
        key: Vec<ColourKeyValue>,
        /// Time the engine took, in seconds.
        elapsed: Micro,
        calculation_adjusted: Option<Vec<String>>,
    },
}

} // verus!
