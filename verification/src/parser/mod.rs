pub mod depots;
pub mod offenders;
pub mod scan;
pub mod steampipe_log;

use vstd::prelude::*;
use crate::types::{FileOffender, FileOffenderModel};

pub use depots::extract_depot_id;
pub use scan::parse_buildoutput_dir;
pub use steampipe_log::{parse_steampipe_log, ParsedSteamPipeLog, SteamPipeCounters};

verus! {

/// Whether a log without the required counter is an error.
#[derive(Debug, Clone, Copy, PartialEq, Eq, Structural)]
pub enum ParseMode {
    Strict,
    BestEffort,
}

impl ParseMode {
    /// The mode's name as reports print it.
    pub open spec fn label(self) -> Seq<char> {
        match self {
            ParseMode::Strict => "STRICT"@,
            ParseMode::BestEffort => "BEST_EFFORT"@,
        }
    }

    /// The mode's name as reports print it.
    pub fn name(&self) -> (s: &'static str)
        ensures
            s@ == self.label(),
    {
        match self {
            ParseMode::Strict => "STRICT",
            ParseMode::BestEffort => "BEST_EFFORT",
        }
    }
}

/// What the logs of one depot yielded.
#[derive(Debug, Clone, PartialEq, Eq)]
pub struct DepotOutput {
    pub depot_id: String,
    pub counters: SteamPipeCounters,
    pub offenders: Vec<FileOffender>,
}

/// What the logs of one depot yielded, as plain values.
pub struct DepotOutputModel {
    pub depot_id: Seq<char>,
    pub counters: SteamPipeCounters,
    pub offenders: Seq<FileOffenderModel>,
}

impl View for DepotOutput {
    type V = DepotOutputModel;

    open spec fn view(&self) -> DepotOutputModel {
        DepotOutputModel {
            depot_id: self.depot_id@,
            counters: self.counters,
            offenders: self.offenders.deep_view(),
        }
    }
}

impl DeepView for DepotOutput {
    type V = DepotOutputModel;

    open spec fn deep_view(&self) -> DepotOutputModel {
        self@
    }
}

/// What a whole tree of logs yielded.
#[derive(Debug, Clone, PartialEq, Eq)]
pub struct ParsedBuildOutput {
    pub mode: ParseMode,
    pub counters: SteamPipeCounters,
    pub offenders: Vec<FileOffender>,
    pub sources: Vec<String>,
    pub per_depot: Vec<DepotOutput>,
}

/// What a whole tree of logs yielded, as plain values.
pub struct ParsedBuildOutputModel {
    pub mode: ParseMode,
    pub counters: SteamPipeCounters,
    pub offenders: Seq<FileOffenderModel>,
    pub sources: Seq<Seq<char>>,
    pub per_depot: Seq<DepotOutputModel>,
}

impl View for ParsedBuildOutput {
    type V = ParsedBuildOutputModel;

    open spec fn view(&self) -> ParsedBuildOutputModel {
        ParsedBuildOutputModel {
            mode: self.mode,
            counters: self.counters,
            offenders: self.offenders.deep_view(),
            sources: self.sources.deep_view(),
            per_depot: self.per_depot.deep_view(),
        }
    }
}


} // verus!
