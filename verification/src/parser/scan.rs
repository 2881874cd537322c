use vstd::prelude::*;
use crate::parser::depots::{
    add_to_depots, copy_offenders, depot_id_of, depots_ascending, depots_with,
    lemma_depots_with_ascending, DepotShape, DEPOT_ID_PATTERN,
};
use crate::parser::offenders::{sort_offenders, sorted_offenders};
use crate::parser::steampipe_log::{
    extraction_outcome, line_patterns_accepted, LineShapes, SteamPipeCounters,
};
use crate::parser::{DepotOutput, DepotOutputModel, ParseMode, ParsedBuildOutput, ParsedBuildOutputModel};
use crate::pattern::pattern_accepted;
use crate::text::{ascii_upper_text, reads_as_upper};
use crate::types::{FileOffender, FileOffenderModel};

verus! {

/// The extensions of the files that are read: `log` and `txt`, in any
/// letter case.
pub open spec fn log_extension(extension: Seq<char>) -> bool {
    ascii_upper_text(extension) == "LOG"@ || ascii_upper_text(extension) == "TXT"@
}

/// Whether a file with this extension is read.
pub fn is_log_extension(extension: &str) -> (b: bool)
    ensures
        b == log_extension(extension@),
{
    reads_as_upper(extension, "LOG") || reads_as_upper(extension, "TXT")
}

/// Why a scan came to nothing.
#[derive(Debug, Clone, PartialEq, Eq)]
pub enum ScanError {
    /// The mode is strict and the predicted update bytes are missing.
    /// `log` is the log that never states them; it is `None` where the
    /// scan ended without having read them from any log.
    InsufficientInput { log: Option<String> },
    /// The expression engine refused one of the shapes.
    PatternRejected,
}

/// Why a scan came to nothing, as plain values.
pub enum ScanErrorModel {
    InsufficientInput { log: Option<Seq<char>> },
    PatternRejected,
}

impl View for ScanError {
    type V = ScanErrorModel;

    open spec fn view(&self) -> ScanErrorModel {
        match self {
            ScanError::InsufficientInput { log } => ScanErrorModel::InsufficientInput {
                log: log.deep_view(),
            },
            ScanError::PatternRejected => ScanErrorModel::PatternRejected,
        }
    }
}

impl ScanErrorModel {
    /// The error in words, with the advice that goes with it.
    pub open spec fn text(self) -> Seq<char> {
        match self {
            ScanErrorModel::InsufficientInput { log: Some(path) } => "parse log "@ + path
                + ": missing required counter PREDICTED_UPDATE_BYTES"@,
            ScanErrorModel::InsufficientInput { log: None } => "insufficient input: missing required counter predicted_update_bytes; run BestEffort mode or provide logs containing PREDICTED_UPDATE_BYTES=..."@,
            ScanErrorModel::PatternRejected => "line pattern rejected by the expression engine"@,
        }
    }
}

impl ScanError {
    /// The error in words, with the advice that goes with it.
    pub fn message(&self) -> (s: String)
        ensures
            s@ == self@.text(),
    {
        match self {
            ScanError::InsufficientInput { log: Some(path) } => {
                let mut s = String::new();
                s.append("parse log ");
                s.append(path.as_str());
                s.append(": missing required counter PREDICTED_UPDATE_BYTES");
                assert(s@ =~= self@.text());
                s
            },
            ScanError::InsufficientInput { log: None } => "insufficient input: missing required counter predicted_update_bytes; run BestEffort mode or provide logs containing PREDICTED_UPDATE_BYTES=...".to_owned(),
            ScanError::PatternRejected => "line pattern rejected by the expression engine".to_owned(),
        }
    }
}

/// A file of the scanned tree, as far as the scan reads it.
#[derive(Debug, Clone, PartialEq, Eq)]
pub struct LogFile {
    /// The path as it is reported among the sources.
    pub path: String,
    /// The file name without its extension.
    pub file_stem: String,
    /// The name of the directory that holds the file; empty where it has none.
    pub parent_name: String,
    /// The extension of the file name; empty where it has none.
    pub extension: String,
    /// The bytes of the file.
    pub contents: Vec<u8>,
}

/// A file of the scanned tree, as plain values.
pub struct LogFileModel {
    pub path: Seq<char>,
    pub file_stem: Seq<char>,
    pub parent_name: Seq<char>,
    pub extension: Seq<char>,
    pub contents: Seq<u8>,
}

impl View for LogFile {
    type V = LogFileModel;

    open spec fn view(&self) -> LogFileModel {
        LogFileModel {
            path: self.path@,
            file_stem: self.file_stem@,
            parent_name: self.parent_name@,
            extension: self.extension@,
            contents: self.contents@,
        }
    }
}

impl DeepView for LogFile {
    type V = LogFileModel;

    open spec fn deep_view(&self) -> LogFileModel {
        self@
    }
}

/// What a scan has gathered so far.
pub struct ScanModel {
    pub mode: ParseMode,
    /// The most bytes that the scan may read in all.
    pub limit: u64,
    /// The bytes read so far.
    pub scanned: u64,
    pub counters: SteamPipeCounters,
    /// The offenders of all logs, in the order they were read.
    pub offenders: Seq<FileOffenderModel>,
    /// The paths of the logs, in the order they were read.
    pub sources: Seq<Seq<char>>,
    /// What each depot yielded, in the order of the identifiers.
    pub depots: Seq<DepotOutputModel>,
}

/// The sum of two sizes, held at the largest 64-bit number.
pub open spec fn capped_sum(a: u64, b: u64) -> u64 {
    if a + b > u64::MAX {
        u64::MAX
    } else {
        (a + b) as u64
    }
}

impl ScanModel {
    /// The scan before any file.
    pub open spec fn start(mode: ParseMode, limit: u64) -> ScanModel {
        ScanModel {
            mode,
            limit,
            scanned: 0,
            counters: SteamPipeCounters::absent(),
            offenders: Seq::empty(),
            sources: Seq::empty(),
            depots: Seq::empty(),
        }
    }

    /// A file of this size still fits in the budget.
    pub open spec fn admits(self, size: u64) -> bool {
        self.scanned + size <= self.limit
    }

    /// The scan after one more file, or the error that the file brings: in
    /// strict mode a log that never states the predicted update bytes ends
    /// the scan. The counters of the file are merged into those of the
    /// scan, its offenders are added at the end, its path is noted, and
    /// where it belongs to a depot, that depot takes it in too.
    pub open spec fn absorbed(self, file: LogFileModel, size: u64) -> Result<
        ScanModel,
        ScanErrorModel,
    > {
        match extraction_outcome(file.contents, self.mode) {
            Err(_) => Err(ScanErrorModel::InsufficientInput { log: Some(file.path) }),
            Ok(log) => Ok(
                ScanModel {
                    scanned: capped_sum(self.scanned, size),
                    counters: self.counters.merged(log.counters),
                    offenders: self.offenders + log.offenders,
                    sources: self.sources.push(file.path),
                    depots: match depot_id_of(file.file_stem, file.parent_name) {
                        Some(id) => depots_with(self.depots, id, log),
                        None => self.depots,
                    },
                    ..self
                },
            ),
        }
    }

    /// What the scan comes to at its end. In strict mode a scan that never
    /// met the predicted update bytes fails. Otherwise it yields what was
    /// gathered, with the offenders put in their order.
    pub open spec fn outcome(self) -> Result<ParsedBuildOutputModel, ScanErrorModel> {
        if self.mode == ParseMode::Strict && self.counters.predicted_update_bytes is None {
            Err(ScanErrorModel::InsufficientInput { log: None })
        } else {
            Ok(
                ParsedBuildOutputModel {
                    mode: self.mode,
                    counters: self.counters,
                    offenders: sorted_offenders(self.offenders),
                    sources: self.sources,
                    per_depot: self.depots,
                },
            )
        }
    }

    /// The scan after a list of files, taken in order. A file whose
    /// extension is not one of those read is passed over. The first file
    /// that no longer fits in the budget ends the scan: neither it nor any
    /// file behind it is read.
    pub open spec fn scanned_through(self, files: Seq<LogFileModel>) -> Result<
        ScanModel,
        ScanErrorModel,
    >
        decreases files.len(),
    {
        if files.len() == 0 {
            Ok(self)
        } else if !log_extension(files[0].extension) {
            self.scanned_through(files.drop_first())
        } else if !self.admits(files[0].contents.len() as u64) {
            Ok(self)
        } else {
            match self.absorbed(files[0], files[0].contents.len() as u64) {
                Ok(next) => next.scanned_through(files.drop_first()),
                Err(e) => Err(e),
            }
        }
    }
}

/// The expression engine accepts the shapes that a scan works with.
pub open spec fn scan_patterns_accepted() -> bool {
    line_patterns_accepted() && pattern_accepted(DEPOT_ID_PATTERN@)
}

/// What the scan of a list of files comes to: the shapes are compiled
/// first, which fails where the expression engine refuses one of them, and
/// then the files are read.
pub open spec fn scan_outcome(files: Seq<LogFileModel>, mode: ParseMode, limit: u64) -> Result<
    ParsedBuildOutputModel,
    ScanErrorModel,
> {
    if !scan_patterns_accepted() {
        Err(ScanErrorModel::PatternRejected)
    } else {
        match ScanModel::start(mode, limit).scanned_through(files) {
            Ok(scan) => scan.outcome(),
            Err(e) => Err(e),
        }
    }
}

/// The view of what a scan returns.
pub open spec fn outcome_view(r: Result<ParsedBuildOutput, ScanError>) -> Result<
    ParsedBuildOutputModel,
    ScanErrorModel,
> {
    match r {
        Ok(out) => Ok(out@),
        Err(e) => Err(e@),
    }
}

/// A scan in progress: what was gathered from the files read so far.
pub struct Scan {
    lines: LineShapes,
    depot: DepotShape,
    mode: ParseMode,
    limit: u64,
    scanned: u64,
    counters: SteamPipeCounters,
    offenders: Vec<FileOffender>,
    sources: Vec<String>,
    depots: Vec<DepotOutput>,
}

impl View for Scan {
    type V = ScanModel;

    closed spec fn view(&self) -> ScanModel {
        ScanModel {
            mode: self.mode,
            limit: self.limit,
            scanned: self.scanned,
            counters: self.counters,
            offenders: self.offenders.deep_view(),
            sources: self.sources.deep_view(),
            depots: self.depots.deep_view(),
        }
    }
}

impl Scan {
    #[verifier::type_invariant]
    spec fn depots_in_order(self) -> bool {
        depots_ascending(self.depots.deep_view())
    }

    /// A scan that has read nothing yet. Fails only where the expression
    /// engine refuses one of the shapes.
    pub fn new(mode: ParseMode, max_total_bytes_scanned: u64) -> (r: Result<Scan, ScanError>)
        ensures
            match r {
                Ok(scan) => scan_patterns_accepted() && scan@ == ScanModel::start(
                    mode,
                    max_total_bytes_scanned,
                ),
                Err(e) => !scan_patterns_accepted() && e@ == ScanErrorModel::PatternRejected,
            },
    {
        let lines = match LineShapes::compile() {
            Ok(lines) => lines,
            Err(_) => {
                return Err(ScanError::PatternRejected);
            },
        };
        let depot = match DepotShape::compile() {
            Ok(depot) => depot,
            Err(_) => {
                return Err(ScanError::PatternRejected);
            },
        };
        let scan = Scan {
            lines,
            depot,
            mode,
            limit: max_total_bytes_scanned,
            scanned: 0,
            counters: SteamPipeCounters { predicted_update_bytes: None, changed_content_bytes: None },
            offenders: Vec::new(),
            sources: Vec::new(),
            depots: Vec::new(),
        };
        assert(scan@.offenders =~= Seq::empty());
        assert(scan@.sources =~= Seq::empty());
        assert(scan@.depots =~= Seq::empty());
        Ok(scan)
    }

    /// Whether a file of this size may still be read. Once a file is
    /// refused the scan is over.
    pub fn admits(&self, size: u64) -> (b: bool)
        ensures
            b == self@.admits(size),
    {
        match self.scanned.checked_add(size) {
            Some(total) => total <= self.limit,
            None => false,
        }
    }

    /// Reads one file and takes in what it holds. `size` is the size under
    /// which the file was admitted; it counts against the budget. Fails
    /// only in strict mode, on a log that never states the predicted
    /// update bytes.
    pub fn absorb(self, file: &LogFile, size: u64) -> (r: Result<Scan, ScanError>)
        ensures
            match r {
                Ok(next) => self@.absorbed(file@, size) == Ok::<ScanModel, ScanErrorModel>(next@),
                Err(e) => self@.absorbed(file@, size) == Err::<ScanModel, ScanErrorModel>(e@),
            },
    {
        proof {
            use_type_invariant(&self);
        }
        let log = match self.lines.extract(file.contents.as_slice(), self.mode) {
            Ok(log) => log,
            Err(_) => {
                return Err(ScanError::InsufficientInput { log: Some(file.path.clone()) });
            },
        };
        let found = self.depot.depot_id(file.file_stem.as_str(), file.parent_name.as_str());
        let Scan { lines, depot, mode, limit, scanned, counters, offenders, sources, depots } = self;
        let mut counters = counters;
        let mut offenders = offenders;
        let mut sources = sources;
        let mut depots = depots;
        match found {
            Some(id) => {
                proof {
                    lemma_depots_with_ascending(depots.deep_view(), id@, log@);
                }
                add_to_depots(&mut depots, id, &log);
            },
            None => {},
        }
        counters.merge(log.counters);
        copy_offenders(&mut offenders, &log.offenders);
        let ghost before = sources.deep_view();
        sources.push(file.path.clone());
        assert(sources.deep_view() =~= before.push(file.path@));
        Ok(
            Scan {
                lines,
                depot,
                mode,
                limit,
                scanned: scanned.saturating_add(size),
                counters,
                offenders,
                sources,
                depots,
            },
        )
    }

    /// Ends the scan: puts the offenders in their order and hands out what
    /// was gathered.
    pub fn finish(self) -> (r: Result<ParsedBuildOutput, ScanError>)
        ensures
            outcome_view(r) == self@.outcome(),
            r matches Ok(out) ==> depots_ascending(out@.per_depot),
    {
        proof {
            use_type_invariant(&self);
        }
        if self.mode == ParseMode::Strict && self.counters.predicted_update_bytes.is_none() {
            return Err(ScanError::InsufficientInput { log: None });
        }
        let offenders = sort_offenders(&self.offenders);
        Ok(
            ParsedBuildOutput {
                mode: self.mode,
                counters: self.counters,
                offenders,
                sources: self.sources,
                per_depot: self.depots,
            },
        )
    }
}

/// Reads the log files of a tree, given in the order in which the tree
/// was walked, and merges what they hold.
pub fn parse_buildoutput_dir(files: &Vec<LogFile>, mode: ParseMode, max_total_bytes_scanned: u64) -> (r:
    Result<ParsedBuildOutput, ScanError>)
    ensures
        outcome_view(r) == scan_outcome(files.deep_view(), mode, max_total_bytes_scanned),
        r matches Ok(out) ==> depots_ascending(out@.per_depot),
{
    let ghost all = files.deep_view();
    let ghost start = ScanModel::start(mode, max_total_bytes_scanned);
    let mut scan = match Scan::new(mode, max_total_bytes_scanned) {
        Ok(scan) => scan,
        Err(e) => {
            return Err(e);
        },
    };
    let mut i: usize = 0;
    let mut full: bool = false;
    assert(all.skip(0) =~= all);
    while i < files.len() && !full
        invariant
            i <= files.len(),
            all == files.deep_view(),
            scan_patterns_accepted(),
            start == ScanModel::start(mode, max_total_bytes_scanned),
            start.scanned_through(all) == scan@.scanned_through(all.skip(i as int)),
            full ==> scan@.scanned_through(all.skip(i as int)) == Ok::<ScanModel, ScanErrorModel>(
                scan@,
            ),
        decreases files.len() - i + if full { 0int } else { 1int },
    {
        let file = &files[i];
        let ghost rest = all.skip(i as int);
        proof {
            assert(rest[0] == file@);
            assert(rest.drop_first() =~= all.skip(i + 1));
        }
        if !is_log_extension(file.extension.as_str()) {
            assert(scan@.scanned_through(rest) == scan@.scanned_through(rest.drop_first()));
            i += 1;
        } else {
            let size: u64 = file.contents.len() as u64;
            if !scan.admits(size) {
                assert(scan@.scanned_through(rest) == Ok::<ScanModel, ScanErrorModel>(scan@));
                full = true;
            } else {
                let ghost before = scan@;
                match scan.absorb(file, size) {
                    Ok(next) => {
                        scan = next;
                        assert(before.scanned_through(rest) == scan@.scanned_through(
                            rest.drop_first(),
                        ));
                        i += 1;
                    },
                    Err(e) => {
                        assert(before.scanned_through(rest) == Err::<ScanModel, ScanErrorModel>(
                            e@,
                        ));
                        return Err(e);
                    },
                }
            }
        }
    }
    proof {
        if !full {
            assert(all.skip(i as int) =~= Seq::<LogFileModel>::empty());
        }
    }
    scan.finish()
}

} // verus!
