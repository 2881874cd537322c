use vstd::prelude::*;
use crate::parser::steampipe_log::{
    group, Groups, ParseError, ParsedSteamPipeLog, ParsedSteamPipeLogModel,
};
use crate::parser::{DepotOutput, DepotOutputModel};
use crate::pattern::{captures, pattern_accepted, pattern_captures, pattern_source};
use crate::text::{lemma_text_order_chain, lemma_text_order_total, precedes, text_precedes};
use crate::types::FileOffender;

verus! {

/// The shape of a depot identifier: a run of five digits or more.
pub const DEPOT_ID_PATTERN: &'static str = r"(\d{5,})";

/// The text of the first group of a match.
pub open spec fn first_group(found: Option<Seq<Option<Seq<char>>>>) -> Option<Seq<char>> {
    match found {
        Some(groups) => group(groups, 1),
        None => None,
    }
}

/// The depot identifier, given what the shape found in the file stem and in
/// the name of the parent directory: the stem goes first.
pub open spec fn depot_id_in(
    in_stem: Option<Seq<Option<Seq<char>>>>,
    in_parent: Option<Seq<Option<Seq<char>>>>,
) -> Option<Seq<char>> {
    match first_group(in_stem) {
        Some(id) => Some(id),
        None => first_group(in_parent),
    }
}

/// The depot that a log file belongs to: the first run of five digits or
/// more in its stem, or else in the name of its parent directory.
pub open spec fn depot_id_of(file_stem: Seq<char>, parent_name: Seq<char>) -> Option<Seq<char>> {
    depot_id_in(
        pattern_captures(DEPOT_ID_PATTERN@, file_stem),
        pattern_captures(DEPOT_ID_PATTERN@, parent_name),
    )
}

fn first_group_text(found: &Option<Groups>) -> (r: Option<String>)
    ensures
        r.deep_view() == first_group(found.deep_view()),
{
    match found {
        Some(groups) => {
            if 1 < groups.len() {
                match &groups[1] {
                    Some(text) => Some(text.clone()),
                    None => None,
                }
            } else {
                None
            }
        },
        None => None,
    }
}

/// The depot identifier, given what the shape found in the file stem and in
/// the name of the parent directory.
pub fn depot_id_from_captures(in_stem: &Option<Groups>, in_parent: &Option<Groups>) -> (r: Option<
    String,
>)
    ensures
        r.deep_view() == depot_id_in(in_stem.deep_view(), in_parent.deep_view()),
{
    match first_group_text(in_stem) {
        Some(id) => Some(id),
        None => first_group_text(in_parent),
    }
}

/// The shape of a depot identifier, compiled.
pub struct DepotShape {
    shape: regex::Regex,
}

impl DepotShape {
    #[verifier::type_invariant]
    spec fn compiled_from_the_pattern(self) -> bool {
        pattern_source(self.shape) == DEPOT_ID_PATTERN@
    }

    /// Compiles the shape of a depot identifier. Fails only where the
    /// expression engine refuses it.
    pub fn compile() -> (r: Result<DepotShape, ParseError>)
        ensures
            r is Ok <==> pattern_accepted(DEPOT_ID_PATTERN@),
            r matches Err(e) ==> e == ParseError::PatternRejected,
    {
        match regex::Regex::new(DEPOT_ID_PATTERN) {
            Ok(shape) => Ok(DepotShape { shape }),
            Err(_) => Err(ParseError::PatternRejected),
        }
    }

    /// Finds the depot of a log file from its stem and the name of the
    /// directory it lies in.
    pub fn depot_id(&self, file_stem: &str, parent_name: &str) -> (r: Option<String>)
        ensures
            r.deep_view() == depot_id_of(file_stem@, parent_name@),
    {
        proof {
            use_type_invariant(self);
        }
        match first_group_text(&captures(&self.shape, file_stem)) {
            Some(id) => Some(id),
            None => first_group_text(&captures(&self.shape, parent_name)),
        }
    }
}

/// Finds the depot of a log file from its stem and the name of the
/// directory it lies in, with a shape compiled for this one search. Fails
/// only where the expression engine refuses the shape of an identifier.
pub fn extract_depot_id(file_stem: &str, parent_name: &str) -> (r: Result<
    Option<String>,
    ParseError,
>)
    ensures
        match r {
            Ok(id) => pattern_accepted(DEPOT_ID_PATTERN@) && id.deep_view() == depot_id_of(
                file_stem@,
                parent_name@,
            ),
            Err(e) => e == ParseError::PatternRejected && !pattern_accepted(DEPOT_ID_PATTERN@),
        },
{
    match DepotShape::compile() {
        Ok(shape) => Ok(shape.depot_id(file_stem, parent_name)),
        Err(e) => Err(e),
    }
}

/// Each depot's identifier stands before that of the next.
pub open spec fn depots_ascending(depots: Seq<DepotOutputModel>) -> bool {
    forall|i: int, j: int|
        0 <= i < j < depots.len() ==> text_precedes(
            #[trigger] depots[i].depot_id,
            #[trigger] depots[j].depot_id,
        )
}

/// How many depots at the head of the list have an identifier that stands
/// before `id`.
pub open spec fn depot_position(depots: Seq<DepotOutputModel>, id: Seq<char>) -> int
    decreases depots.len(),
{
    if depots.len() > 0 && text_precedes(depots[0].depot_id, id) {
        1 + depot_position(depots.drop_first(), id)
    } else {
        0
    }
}

/// The depots after a log of depot `id` came in. Where the depot is on the
/// list, the log is merged into it: the counters field by field, the
/// offenders at the end. Otherwise the depot is put on the list, in its
/// place, with what the log holds.
pub open spec fn depots_with(
    depots: Seq<DepotOutputModel>,
    id: Seq<char>,
    log: ParsedSteamPipeLogModel,
) -> Seq<DepotOutputModel> {
    let k = depot_position(depots, id);
    if k < depots.len() && depots[k].depot_id == id {
        depots.update(
            k,
            DepotOutputModel {
                depot_id: id,
                counters: depots[k].counters.merged(log.counters),
                offenders: depots[k].offenders + log.offenders,
            },
        )
    } else {
        depots.insert(
            k,
            DepotOutputModel { depot_id: id, counters: log.counters, offenders: log.offenders },
        )
    }
}

/// The position of an identifier is on the list or just past it; every
/// depot before it stands before the identifier, and the one at it does not.
pub proof fn lemma_depot_position(depots: Seq<DepotOutputModel>, id: Seq<char>)
    ensures
        0 <= depot_position(depots, id) <= depots.len(),
        forall|i: int|
            0 <= i < depot_position(depots, id) ==> text_precedes(
                #[trigger] depots[i].depot_id,
                id,
            ),
        depot_position(depots, id) < depots.len() ==> !text_precedes(
            depots[depot_position(depots, id)].depot_id,
            id,
        ),
    decreases depots.len(),
{
    if depots.len() > 0 && text_precedes(depots[0].depot_id, id) {
        let rest = depots.drop_first();
        lemma_depot_position(rest, id);
        assert forall|i: int| 0 <= i < depot_position(depots, id) implies text_precedes(
            #[trigger] depots[i].depot_id,
            id,
        ) by {
            if i > 0 {
                assert(depots[i] == rest[i - 1]);
            }
        }
        if depot_position(depots, id) < depots.len() {
            assert(depots[depot_position(depots, id)] == rest[depot_position(rest, id)]);
        }
    }
}

/// A list of depots in ascending order stays in ascending order when a log
/// comes in.
pub proof fn lemma_depots_with_ascending(
    depots: Seq<DepotOutputModel>,
    id: Seq<char>,
    log: ParsedSteamPipeLogModel,
)
    requires
        depots_ascending(depots),
    ensures
        depots_ascending(depots_with(depots, id, log)),
{
    let k = depot_position(depots, id);
    let after = depots_with(depots, id, log);
    lemma_depot_position(depots, id);
    if k < depots.len() && depots[k].depot_id == id {
        assert forall|i: int, j: int| 0 <= i < j < after.len() implies text_precedes(
            #[trigger] after[i].depot_id,
            #[trigger] after[j].depot_id,
        ) by {
            assert(after[i].depot_id == depots[i].depot_id);
            assert(after[j].depot_id == depots[j].depot_id);
        }
    } else {
        assert forall|i: int, j: int| 0 <= i < j < after.len() implies text_precedes(
            #[trigger] after[i].depot_id,
            #[trigger] after[j].depot_id,
        ) by {
            if j < k {
                assert(after[i] == depots[i] && after[j] == depots[j]);
            } else if j == k {
                assert(after[i] == depots[i]);
            } else if i == k {
                assert(after[j] == depots[j - 1]);
                lemma_text_order_total(depots[k].depot_id, id);
                if j - 1 > k {
                    lemma_text_order_chain(id, depots[k].depot_id, depots[j - 1].depot_id);
                }
            } else if i < k {
                assert(after[i] == depots[i] && after[j] == depots[j - 1]);
            } else {
                assert(after[i] == depots[i - 1] && after[j] == depots[j - 1]);
            }
        }
    }
}

pub(crate) fn copy_offenders(dst: &mut Vec<FileOffender>, src: &Vec<FileOffender>)
    ensures
        final(dst).deep_view() == old(dst).deep_view() + src.deep_view(),
{
    let mut i: usize = 0;
    assert(dst.deep_view() =~= old(dst).deep_view() + src.deep_view().take(0));
    while i < src.len()
        invariant
            i <= src.len(),
            dst.deep_view() == old(dst).deep_view() + src.deep_view().take(i as int),
        decreases src.len() - i,
    {
        let ghost before = dst.deep_view();
        dst.push(src[i].duplicate());
        assert(dst.deep_view() =~= before.push(src[i as int]@));
        assert(dst.deep_view() =~= old(dst).deep_view() + src.deep_view().take(i + 1));
        i += 1;
    }
    assert(src.deep_view().take(i as int) =~= src.deep_view());
}

/// Takes a log of depot `id` into the list of depots.
pub(crate) fn add_to_depots(depots: &mut Vec<DepotOutput>, id: String, log: &ParsedSteamPipeLog)
    ensures
        final(depots).deep_view() == depots_with(old(depots).deep_view(), id@, log@),
{
    let ghost before = depots.deep_view();
    let mut k: usize = 0;
    assert(before.skip(0) =~= before);
    while k < depots.len() && precedes(depots[k].depot_id.as_str(), id.as_str())
        invariant
            k <= depots.len(),
            before == depots.deep_view(),
            depot_position(before, id@) == k + depot_position(before.skip(k as int), id@),
        decreases depots.len() - k,
    {
        assert(before.skip(k as int).drop_first() =~= before.skip(k + 1));
        k += 1;
    }
    assert(depot_position(before, id@) == k);
    if k < depots.len() && depots[k].depot_id == id {
        let mut depot = depots.remove(k);
        depot.counters.merge(log.counters);
        copy_offenders(&mut depot.offenders, &log.offenders);
        depots.insert(k, depot);
        assert(depots.deep_view() =~= depots_with(before, id@, log@));
    } else {
        let mut offenders: Vec<FileOffender> = Vec::new();
        copy_offenders(&mut offenders, &log.offenders);
        assert(offenders.deep_view() =~= log@.offenders);
        depots.insert(k, DepotOutput { depot_id: id, counters: log.counters, offenders });
        assert(depots.deep_view() =~= depots_with(before, id@, log@));
    }
}

} // verus!
