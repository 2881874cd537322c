use vstd::prelude::*;
use vstd::slice::slice_subrange;
use vstd::utf8::{decode_utf8, valid_utf8};
use crate::parser::ParseMode;
use crate::pattern::{captures, pattern_accepted, pattern_captures, pattern_source};
use crate::text::{
    ascii_upper_text, grouped_number, parse_grouped_number, reads_as_upper, text_of, trim, trimmed,
};
use crate::types::{FileOffender, FileOffenderModel};

verus! {

/// The two byte counters that a build log may state. Either may be absent.
#[derive(Debug, Clone, Copy, PartialEq, Eq)]
pub struct SteamPipeCounters {
    pub predicted_update_bytes: Option<u64>,
    pub changed_content_bytes: Option<u64>,
}

impl Default for SteamPipeCounters {
    fn default() -> (r: SteamPipeCounters)
        ensures
            r == SteamPipeCounters::absent(),
    {
        SteamPipeCounters { predicted_update_bytes: None, changed_content_bytes: None }
    }
}

impl SteamPipeCounters {
    /// The counters of a log that states neither.
    pub open spec fn absent() -> SteamPipeCounters {
        SteamPipeCounters { predicted_update_bytes: None, changed_content_bytes: None }
    }

    /// The counters after `other` came in: each field takes the incoming
    /// value where there is one and keeps its own otherwise.
    pub open spec fn merged(self, other: SteamPipeCounters) -> SteamPipeCounters {
        SteamPipeCounters {
            predicted_update_bytes: if other.predicted_update_bytes is Some {
                other.predicted_update_bytes
            } else {
                self.predicted_update_bytes
            },
            changed_content_bytes: if other.changed_content_bytes is Some {
                other.changed_content_bytes
            } else {
                self.changed_content_bytes
            },
        }
    }

    /// Takes in the counters of another log: a counter that the other log
    /// states replaces the one held, and one that it does not state leaves
    /// it as it is.
    pub fn merge(&mut self, other: SteamPipeCounters)
        ensures
            *final(self) == old(self).merged(other),
    {
        if other.predicted_update_bytes.is_some() {
            self.predicted_update_bytes = other.predicted_update_bytes;
        }
        if other.changed_content_bytes.is_some() {
            self.changed_content_bytes = other.changed_content_bytes;
        }
    }
}

/// What one log yielded.
#[derive(Debug, Clone, PartialEq, Eq)]
pub struct ParsedSteamPipeLog {
    pub counters: SteamPipeCounters,
    pub offenders: Vec<FileOffender>,
}

/// What one log yielded, as plain values.
pub struct ParsedSteamPipeLogModel {
    pub counters: SteamPipeCounters,
    pub offenders: Seq<FileOffenderModel>,
}

impl View for ParsedSteamPipeLog {
    type V = ParsedSteamPipeLogModel;

    open spec fn view(&self) -> ParsedSteamPipeLogModel {
        ParsedSteamPipeLogModel {
            counters: self.counters,
            offenders: self.offenders.deep_view(),
        }
    }
}

/// The line shape `KEY = NUMBER` for the two counters, in any letter case.
pub const COUNTER_PATTERN: &'static str =
    r"(?i)\b(PREDICTED_UPDATE_BYTES|CHANGED_CONTENT_BYTES)\s*=\s*([0-9][0-9_]*)\b";

/// The line shape of the prose that states the predicted update size.
pub const PRETTY_UPDATE_PATTERN: &'static str = r"(?i)predicted update size\s*:\s*([0-9][0-9,]*)\s*bytes";

/// The line shape `TOP_OFFENDER = path : number`.
pub const OFFENDER_PATTERN: &'static str = r"(?i)\bTOP_OFFENDER\s*=\s*(.+?)\s*:\s*([0-9][0-9_]*)\s*$";

/// Why a log could not be read.
#[derive(Debug, Clone, Copy, PartialEq, Eq, Structural)]
pub enum ParseError {
    /// The log never states the predicted update bytes, and the mode is strict.
    MissingRequiredCounter,
    /// The expression engine refused one of the line shapes.
    PatternRejected,
}

impl ParseError {
    /// The error in words.
    pub open spec fn text(self) -> Seq<char> {
        match self {
            ParseError::MissingRequiredCounter => "missing required counter PREDICTED_UPDATE_BYTES"@,
            ParseError::PatternRejected => "line pattern rejected by the expression engine"@,
        }
    }

    /// The error in words.
    pub fn message(&self) -> (s: String)
        ensures
            s@ == self.text(),
    {
        match self {
            ParseError::MissingRequiredCounter => {
                "missing required counter PREDICTED_UPDATE_BYTES".to_owned()
            },
            ParseError::PatternRejected => "line pattern rejected by the expression engine".to_owned(),
        }
    }
}

/// Which of the two counters a line states.
#[derive(Debug, Clone, Copy, PartialEq, Eq, Structural)]
pub enum CounterKey {
    PredictedUpdateBytes,
    ChangedContentBytes,
}

/// The groups of a match: the whole match first.
pub type Groups = Vec<Option<String>>;

/// The text of group `i`, where the match has such a group and it took part.
pub open spec fn group(groups: Seq<Option<Seq<char>>>, i: int) -> Option<Seq<char>> {
    if 0 <= i < groups.len() {
        groups[i]
    } else {
        None
    }
}

/// The counter that a key names, in any letter case.
pub open spec fn counter_key(name: Seq<char>) -> Option<CounterKey> {
    if ascii_upper_text(name) == "PREDICTED_UPDATE_BYTES"@ {
        Some(CounterKey::PredictedUpdateBytes)
    } else if ascii_upper_text(name) == "CHANGED_CONTENT_BYTES"@ {
        Some(CounterKey::ChangedContentBytes)
    } else {
        None
    }
}

/// The value of a counter or an offender: its digits without the grouping
/// underscores, and zero where they write no 64-bit number.
pub open spec fn lenient_number(digits: Seq<char>) -> u64 {
    match grouped_number(digits, '_') {
        Some(n) => n,
        None => 0,
    }
}

/// The counter that a match of the counter shape states.
pub open spec fn counter_in(found: Option<Seq<Option<Seq<char>>>>) -> Option<(CounterKey, u64)> {
    match found {
        Some(groups) => match (group(groups, 1), group(groups, 2)) {
            (Some(name), Some(digits)) => match counter_key(name) {
                Some(key) => Some((key, lenient_number(digits))),
                None => None,
            },
            _ => None,
        },
        None => None,
    }
}

/// The size that a match of the prose shape states: its digits without the
/// grouping commas, and nothing where they write no 64-bit number.
pub open spec fn pretty_update_in(found: Option<Seq<Option<Seq<char>>>>) -> Option<u64> {
    match found {
        Some(groups) => match group(groups, 1) {
            Some(digits) => grouped_number(digits, ','),
            None => None,
        },
        None => None,
    }
}

/// The offender that a match of the offender shape states.
pub open spec fn offender_in(found: Option<Seq<Option<Seq<char>>>>) -> Option<FileOffenderModel> {
    match found {
        Some(groups) => match (group(groups, 1), group(groups, 2)) {
            (Some(path), Some(digits)) => Some(
                FileOffenderModel { path: trimmed(path), bytes: lenient_number(digits) },
            ),
            _ => None,
        },
        None => None,
    }
}

/// The counters after a line stated a counter: that counter is overwritten.
pub open spec fn with_counter(c: SteamPipeCounters, stated: Option<(CounterKey, u64)>) -> SteamPipeCounters {
    match stated {
        Some((CounterKey::PredictedUpdateBytes, n)) => SteamPipeCounters {
            predicted_update_bytes: Some(n),
            ..c
        },
        Some((CounterKey::ChangedContentBytes, n)) => SteamPipeCounters {
            changed_content_bytes: Some(n),
            ..c
        },
        None => c,
    }
}

/// The counters after a line stated the update size in prose: it counts
/// only while the predicted update bytes are not set.
pub open spec fn with_pretty_update(c: SteamPipeCounters, stated: Option<u64>) -> SteamPipeCounters {
    if c.predicted_update_bytes is None && stated is Some {
        SteamPipeCounters { predicted_update_bytes: stated, ..c }
    } else {
        c
    }
}

/// What is known after one line, given what each of the three shapes found
/// in it: the counter first, then the prose, then the offender, which is
/// added at the end of the list.
pub open spec fn after_matches(
    log: ParsedSteamPipeLogModel,
    counter: Option<(CounterKey, u64)>,
    pretty: Option<u64>,
    offender: Option<FileOffenderModel>,
) -> ParsedSteamPipeLogModel {
    ParsedSteamPipeLogModel {
        counters: with_pretty_update(with_counter(log.counters, counter), pretty),
        offenders: match offender {
            Some(o) => log.offenders.push(o),
            None => log.offenders,
        },
    }
}

/// What is known after a line of text.
pub open spec fn after_text(log: ParsedSteamPipeLogModel, text: Seq<char>) -> ParsedSteamPipeLogModel {
    after_matches(
        log,
        counter_in(pattern_captures(COUNTER_PATTERN@, text)),
        pretty_update_in(pattern_captures(PRETTY_UPDATE_PATTERN@, text)),
        offender_in(pattern_captures(OFFENDER_PATTERN@, text)),
    )
}

/// What is known after a line of bytes: a line that is no UTF-8 text
/// changes nothing.
pub open spec fn after_line(log: ParsedSteamPipeLogModel, line: Seq<u8>) -> ParsedSteamPipeLogModel {
    if valid_utf8(line) {
        after_text(log, decode_utf8(line))
    } else {
        log
    }
}

/// The length of the first line, its line feed included.
pub open spec fn line_length(bytes: Seq<u8>) -> int
    decreases bytes.len(),
{
    if bytes.len() == 0 {
        0
    } else if bytes[0] == 10 {
        1
    } else {
        1 + line_length(bytes.drop_first())
    }
}

/// What is known after all the lines of a log, taken in order.
pub open spec fn after_lines(log: ParsedSteamPipeLogModel, bytes: Seq<u8>) -> ParsedSteamPipeLogModel
    decreases bytes.len(),
    via after_lines_decreases
{
    if bytes.len() == 0 {
        log
    } else {
        let n = line_length(bytes);
        after_lines(after_line(log, bytes.take(n)), bytes.skip(n))
    }
}

#[via_fn]
proof fn after_lines_decreases(log: ParsedSteamPipeLogModel, bytes: Seq<u8>) {
    if bytes.len() > 0 {
        lemma_line_length_bounds(bytes);
    }
}

/// A line of a log that is not empty has at least one byte and does not
/// reach past the end.
pub proof fn lemma_line_length_bounds(bytes: Seq<u8>)
    ensures
        0 <= line_length(bytes) <= bytes.len(),
        bytes.len() > 0 ==> line_length(bytes) >= 1,
    decreases bytes.len(),
{
    if bytes.len() > 0 && bytes[0] != 10 {
        lemma_line_length_bounds(bytes.drop_first());
    }
}

/// The log that nothing has been read into yet.
pub open spec fn empty_log() -> ParsedSteamPipeLogModel {
    ParsedSteamPipeLogModel { counters: SteamPipeCounters::absent(), offenders: Seq::empty() }
}

/// What a log states.
pub open spec fn extracted(bytes: Seq<u8>) -> ParsedSteamPipeLogModel {
    after_lines(empty_log(), bytes)
}

/// The expression engine accepts the three line shapes.
pub open spec fn line_patterns_accepted() -> bool {
    &&& pattern_accepted(COUNTER_PATTERN@)
    &&& pattern_accepted(PRETTY_UPDATE_PATTERN@)
    &&& pattern_accepted(OFFENDER_PATTERN@)
}

/// What reading a log with the compiled shapes comes to. The log is read
/// to its end, whatever bytes it holds; only in strict mode, and only where
/// it never states the predicted update bytes, is that an error.
pub open spec fn extraction_outcome(bytes: Seq<u8>, mode: ParseMode) -> Result<
    ParsedSteamPipeLogModel,
    ParseError,
> {
    if mode == ParseMode::Strict && extracted(bytes).counters.predicted_update_bytes is None {
        Err(ParseError::MissingRequiredCounter)
    } else {
        Ok(extracted(bytes))
    }
}

/// What reading a log comes to: the shapes are compiled first, which fails
/// where the expression engine refuses one of them, and then the log is read.
pub open spec fn parse_outcome(bytes: Seq<u8>, mode: ParseMode) -> Result<
    ParsedSteamPipeLogModel,
    ParseError,
> {
    if !line_patterns_accepted() {
        Err(ParseError::PatternRejected)
    } else {
        extraction_outcome(bytes, mode)
    }
}

fn group_text(groups: &Groups, i: usize) -> (r: Option<&String>)
    ensures
        r.deep_view() == group(groups.deep_view(), i as int),
{
    if i < groups.len() {
        groups[i].as_ref()
    } else {
        None
    }
}

fn read_lenient_number(digits: &str) -> (n: u64)
    ensures
        n == lenient_number(digits@),
{
    match parse_grouped_number(digits, '_') {
        Some(n) => n,
        None => 0,
    }
}

/// The counter that a match of the counter shape states.
pub fn counter_from_captures(found: &Option<Groups>) -> (r: Option<(CounterKey, u64)>)
    ensures
        r == counter_in(found.deep_view()),
{
    match found {
        Some(groups) => match (group_text(groups, 1), group_text(groups, 2)) {
            (Some(name), Some(digits)) => {
                if reads_as_upper(name.as_str(), "PREDICTED_UPDATE_BYTES") {
                    Some((CounterKey::PredictedUpdateBytes, read_lenient_number(digits.as_str())))
                } else if reads_as_upper(name.as_str(), "CHANGED_CONTENT_BYTES") {
                    Some((CounterKey::ChangedContentBytes, read_lenient_number(digits.as_str())))
                } else {
                    None
                }
            },
            _ => None,
        },
        None => None,
    }
}

/// The size that a match of the prose shape states.
pub fn pretty_update_from_captures(found: &Option<Groups>) -> (r: Option<u64>)
    ensures
        r == pretty_update_in(found.deep_view()),
{
    match found {
        Some(groups) => match group_text(groups, 1) {
            Some(digits) => parse_grouped_number(digits.as_str(), ','),
            None => None,
        },
        None => None,
    }
}

/// The offender that a match of the offender shape states.
pub fn offender_from_captures(found: &Option<Groups>) -> (r: Option<FileOffender>)
    ensures
        r.deep_view() == offender_in(found.deep_view()),
{
    match found {
        Some(groups) => match (group_text(groups, 1), group_text(groups, 2)) {
            (Some(path), Some(digits)) => Some(
                FileOffender {
                    path: trim(path.as_str()),
                    bytes: read_lenient_number(digits.as_str()),
                },
            ),
            _ => None,
        },
        None => None,
    }
}

/// Takes in what the three shapes found in one line.
pub fn apply_matches(
    log: &mut ParsedSteamPipeLog,
    counter: Option<(CounterKey, u64)>,
    pretty: Option<u64>,
    offender: Option<FileOffender>,
)
    ensures
        final(log)@ == after_matches(old(log)@, counter, pretty, offender.deep_view()),
{
    match counter {
        Some((CounterKey::PredictedUpdateBytes, n)) => {
            log.counters.predicted_update_bytes = Some(n);
        },
        Some((CounterKey::ChangedContentBytes, n)) => {
            log.counters.changed_content_bytes = Some(n);
        },
        None => {},
    }
    if log.counters.predicted_update_bytes.is_none() && pretty.is_some() {
        log.counters.predicted_update_bytes = pretty;
    }
    match offender {
        Some(o) => {
            log.offenders.push(o);
            assert(log.offenders.deep_view() =~= old(log).offenders.deep_view().push(o@));
        },
        None => {},
    }
}


/// The index just past the line that starts at `pos`.
fn line_end(bytes: &[u8], pos: usize) -> (end: usize)
    requires
        pos < bytes.len(),
    ensures
        pos < end <= bytes.len(),
        end - pos == line_length(bytes@.skip(pos as int)),
{
    let mut j: usize = pos;
    assert(bytes@.skip(pos as int).skip(0) =~= bytes@.skip(pos as int));
    while j < bytes.len() && bytes[j] != 10
        invariant
            pos <= j <= bytes.len(),
            line_length(bytes@.skip(pos as int)) == (j - pos) + line_length(bytes@.skip(j as int)),
        decreases bytes.len() - j,
    {
        assert(bytes@.skip(j as int).drop_first() =~= bytes@.skip(j + 1));
        j += 1;
    }
    if j < bytes.len() {
        j + 1
    } else {
        j
    }
}

/// Holds one line of text against the three shapes and takes in what they find.
fn read_text(
    log: &mut ParsedSteamPipeLog,
    text: &str,
    counter_shape: &regex::Regex,
    pretty_shape: &regex::Regex,
    offender_shape: &regex::Regex,
)
    requires
        pattern_source(*counter_shape) == COUNTER_PATTERN@,
        pattern_source(*pretty_shape) == PRETTY_UPDATE_PATTERN@,
        pattern_source(*offender_shape) == OFFENDER_PATTERN@,
    ensures
        final(log)@ == after_text(old(log)@, text@),
{
    let counter = counter_from_captures(&captures(counter_shape, text));
    let settled = match counter {
        Some((CounterKey::PredictedUpdateBytes, _)) => true,
        _ => log.counters.predicted_update_bytes.is_some(),
    };
    let pretty = if settled {
        None
    } else {
        pretty_update_from_captures(&captures(pretty_shape, text))
    };
    let offender = offender_from_captures(&captures(offender_shape, text));
    apply_matches(log, counter, pretty, offender);
}

/// The three line shapes, compiled and ready to be held against lines.
pub struct LineShapes {
    counter: regex::Regex,
    pretty: regex::Regex,
    offender: regex::Regex,
}

impl LineShapes {
    #[verifier::type_invariant]
    spec fn compiled_from_the_patterns(self) -> bool {
        &&& pattern_source(self.counter) == COUNTER_PATTERN@
        &&& pattern_source(self.pretty) == PRETTY_UPDATE_PATTERN@
        &&& pattern_source(self.offender) == OFFENDER_PATTERN@
    }

    /// Compiles the three line shapes. Fails only where the expression
    /// engine refuses one of them.
    pub fn compile() -> (r: Result<LineShapes, ParseError>)
        ensures
            r is Ok <==> line_patterns_accepted(),
            r matches Err(e) ==> e == ParseError::PatternRejected,
    {
        let counter = match regex::Regex::new(COUNTER_PATTERN) {
            Ok(re) => re,
            Err(_) => {
                return Err(ParseError::PatternRejected);
            },
        };
        let pretty = match regex::Regex::new(PRETTY_UPDATE_PATTERN) {
            Ok(re) => re,
            Err(_) => {
                return Err(ParseError::PatternRejected);
            },
        };
        let offender = match regex::Regex::new(OFFENDER_PATTERN) {
            Ok(re) => re,
            Err(_) => {
                return Err(ParseError::PatternRejected);
            },
        };
        Ok(LineShapes { counter, pretty, offender })
    }

    /// Reads the counters and the offenders out of the bytes of one log.
    ///
    /// The log is taken line by line, each line ending with its line feed.
    /// A line that is no UTF-8 text, or that none of the shapes matches, is
    /// passed over. In best-effort mode no input makes this fail.
    pub fn extract(&self, bytes: &[u8], mode: ParseMode) -> (r: Result<
        ParsedSteamPipeLog,
        ParseError,
    >)
        ensures
            match r {
                Ok(log) => extraction_outcome(bytes@, mode) == Ok::<
                    ParsedSteamPipeLogModel,
                    ParseError,
                >(log@),
                Err(e) => extraction_outcome(bytes@, mode) == Err::<
                    ParsedSteamPipeLogModel,
                    ParseError,
                >(e),
            },
            mode == ParseMode::BestEffort ==> r is Ok,
    {
        proof {
            use_type_invariant(self);
        }
        let mut log = ParsedSteamPipeLog {
            counters: SteamPipeCounters { predicted_update_bytes: None, changed_content_bytes: None },
            offenders: Vec::new(),
        };
        assert(log@.offenders =~= empty_log().offenders);
        let mut pos: usize = 0;
        assert(bytes@.skip(0) =~= bytes@);
        while pos < bytes.len()
            invariant
                pos <= bytes.len(),
                pattern_source(self.counter) == COUNTER_PATTERN@,
                pattern_source(self.pretty) == PRETTY_UPDATE_PATTERN@,
                pattern_source(self.offender) == OFFENDER_PATTERN@,
                extracted(bytes@) == after_lines(log@, bytes@.skip(pos as int)),
            decreases bytes.len() - pos,
        {
            let end = line_end(bytes, pos);
            let line = slice_subrange(bytes, pos, end);
            proof {
                let rest = bytes@.skip(pos as int);
                assert(rest.take(end - pos) =~= line@);
                assert(rest.skip(end - pos) =~= bytes@.skip(end as int));
            }
            match text_of(line) {
                Some(text) => {
                    read_text(&mut log, text, &self.counter, &self.pretty, &self.offender);
                },
                None => {},
            }
            pos = end;
        }
        if mode == ParseMode::Strict && log.counters.predicted_update_bytes.is_none() {
            return Err(ParseError::MissingRequiredCounter);
        }
        Ok(log)
    }
}

/// Reads the counters and the offenders out of the bytes of one log, with
/// shapes compiled for this one reading.
pub fn parse_steampipe_log(bytes: &[u8], mode: ParseMode) -> (r: Result<
    ParsedSteamPipeLog,
    ParseError,
>)
    ensures
        match r {
            Ok(log) => parse_outcome(bytes@, mode) == Ok::<ParsedSteamPipeLogModel, ParseError>(log@),
            Err(e) => parse_outcome(bytes@, mode) == Err::<ParsedSteamPipeLogModel, ParseError>(e),
        },
{
    match LineShapes::compile() {
        Ok(shapes) => shapes.extract(bytes, mode),
        Err(e) => Err(e),
    }
}

/// In best-effort mode no input makes the extraction fail: with the shapes
/// compiled it yields what the log states, on every byte string, text or not.
pub proof fn lemma_best_effort_reads_anything(bytes: Seq<u8>)
    ensures
        extraction_outcome(bytes, ParseMode::BestEffort) == Ok::<
            ParsedSteamPipeLogModel,
            ParseError,
        >(extracted(bytes)),
        parse_outcome(bytes, ParseMode::BestEffort) is Ok <==> line_patterns_accepted(),
{
}

/// Whether best-effort reading succeeds is the same for any two inputs:
/// it rests on the shapes alone.
pub proof fn lemma_best_effort_is_all_or_nothing(a: Seq<u8>, b: Seq<u8>)
    ensures
        parse_outcome(a, ParseMode::BestEffort) is Ok <==> parse_outcome(
            b,
            ParseMode::BestEffort,
        ) is Ok,
{
}

} // verus!
