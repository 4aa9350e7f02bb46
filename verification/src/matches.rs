//! Matches, and how MinRX's match buffer turns into them.
use vstd::prelude::*;

use crate::error::MatchError;

verus! {

/// A match on some haystack: the byte offsets where it starts and ends.
#[derive(Clone, Copy, Debug, PartialEq, Eq, Structural, PartialOrd, Ord, Hash)]
pub struct Match {
    pub start: usize,
    pub end: usize,
}

/// One entry of MinRX's match buffer: the start and end offsets of a
/// (sub)match, negative when the group took no part in the match.
#[derive(Clone, Copy, Debug, PartialEq, Eq, Structural, Hash)]
pub struct RegMatch {
    pub rm_so: isize,
    pub rm_eo: isize,
}

/// The match that a buffer entry describes: none when either offset is
/// negative (as for a group that did not participate).
pub open spec fn match_of(rm: RegMatch) -> Option<Match> {
    if rm.rm_so >= 0 && rm.rm_eo >= 0 {
        Some(Match { start: rm.rm_so as usize, end: rm.rm_eo as usize })
    } else {
        None
    }
}

impl Match {
    /// Returns the components as a range that can be used for slice indexing.
    pub fn range(&self) -> (r: std::ops::Range<usize>)
        ensures
            r.start == self.start,
            r.end == self.end,
    {
        self.start..self.end
    }

    /// The match that a buffer entry describes, if both offsets fit.
    pub fn from_raw(rm: RegMatch) -> (r: Option<Match>)
        ensures
            r == match_of(rm),
            r is Some <==> (rm.rm_so >= 0 && rm.rm_eo >= 0),
            r matches Some(m) ==> m.start == rm.rm_so && m.end == rm.rm_eo,
    {
        if rm.rm_so >= 0 && rm.rm_eo >= 0 {
            Some(Match { start: rm.rm_so as usize, end: rm.rm_eo as usize })
        } else {
            None
        }
    }
}

impl From<Match> for std::ops::Range<usize> {
    fn from(value: Match) -> (r: Self)
        ensures
            r.start == value.start,
            r.end == value.end,
    {
        value.range()
    }
}

impl vstd::std_specs::convert::FromSpecImpl<Match> for std::ops::Range<usize> {
    open spec fn obeys_from_spec() -> bool {
        true
    }

    open spec fn from_spec(v: Match) -> Self {
        v.start..v.end
    }
}

/// A buffer entry describes a match exactly when both of its offsets are
/// nonnegative, and that match has those very offsets, whatever their size
/// (an empty match included).
pub proof fn lemma_match_of_keeps_offsets(rm: RegMatch)
    ensures
        match_of(rm) is Some <==> (rm.rm_so >= 0 && rm.rm_eo >= 0),
        match_of(rm) matches Some(m) ==> m.start == rm.rm_so && m.end == rm.rm_eo,
{
}

/// A slot that no search has filled describes no match.
pub proof fn lemma_unset_entry_is_no_match()
    ensures
        match_of(unset_entry()) is None,
        unset_entry().rm_so < 0,
        unset_entry().rm_eo < 0,
{
}

/// Converting a match into a range keeps both of its bounds, as
/// `Match::range` does.
pub proof fn lemma_range_from_match_keeps_bounds(v: Match)
    ensures
        <std::ops::Range<usize> as vstd::std_specs::convert::FromSpec<Match>>::from_spec(v).start
            == v.start,
        <std::ops::Range<usize> as vstd::std_specs::convert::FromSpec<Match>>::from_spec(v).end
            == v.end,
        <std::ops::Range<usize> as vstd::std_specs::convert::FromSpec<Match>>::obeys_from_spec(),
{
}

/// Every capture of a filled buffer keeps the offsets of its entry: slot `i`
/// holds a match exactly when both offsets of entry `i` are nonnegative, and
/// then the match starts and ends at them.
pub proof fn lemma_captures_keep_offsets(buf: Seq<RegMatch>, i: int)
    requires
        0 <= i < buf.len(),
    ensures
        captures_of(buf).len() == buf.len(),
        captures_of(buf)[i] is Some <==> (buf[i].rm_so >= 0 && buf[i].rm_eo >= 0),
        captures_of(buf)[i] matches Some(m) ==> m.start == buf[i].rm_so && m.end == buf[i].rm_eo,
{
    lemma_match_of_keeps_offsets(buf[i]);
}

/// The captures that a filled match buffer describes: the match of every
/// entry, in order.
pub open spec fn captures_of(buf: Seq<RegMatch>) -> Seq<Option<Match>> {
    buf.map_values(|rm: RegMatch| match_of(rm))
}

/// The entry of a buffer slot that no search has filled.
pub open spec fn unset_entry() -> RegMatch {
    RegMatch { rm_so: -1isize, rm_eo: -1isize }
}

/// The match buffer for a search with a pattern of `group_count` groups:
/// one slot for the whole match and one for each group, all unset.
pub fn capture_buffer(group_count: usize) -> (r: Vec<RegMatch>)
    requires
        group_count < usize::MAX,
    ensures
        r@.len() == group_count + 1,
        forall|i: int| 0 <= i < r@.len() ==> r@[i] == unset_entry(),
{
    let mut v: Vec<RegMatch> = Vec::with_capacity(group_count + 1);
    let mut i: usize = 0;
    while i <= group_count
        invariant
            i <= group_count + 1,
            group_count < usize::MAX,
            v@.len() == i,
            forall|j: int| 0 <= j < v@.len() ==> v@[j] == unset_entry(),
        decreases group_count + 1 - i,
    {
        v.push(RegMatch { rm_so: -1, rm_eo: -1 });
        i = i + 1;
    }
    v
}

/// The shape of the captures of a successful search with a buffer sized for
/// `group_count` groups: exactly `group_count + 1` entries, the whole match
/// first and group `i` at index `i`.
pub proof fn lemma_capture_shape(group_count: nat, buf: Seq<RegMatch>)
    requires
        buf.len() == group_count + 1,
    ensures
        captures_of(buf).len() == group_count + 1,
        captures_of(buf)[0] == match_of(buf[0]),
        forall|i: int| 1 <= i <= group_count ==> #[trigger] captures_of(buf)[i] == match_of(buf[i]),
{
}

/// Turns the outcome of a search with a pattern of `group_count` groups, and
/// the match buffer the search filled, into the captures: `Ok(None)` when
/// nothing matched, and otherwise `group_count + 1` entries, the match of
/// every buffer entry in order (the whole match, then each group).
pub fn collect_captures(
    group_count: usize,
    outcome: Result<bool, MatchError>,
    buf: &[RegMatch],
) -> (r: Result<Option<Vec<Option<Match>>>, MatchError>)
    requires
        buf@.len() == group_count + 1,
    ensures
        r is Err <==> outcome is Err,
        (r matches Ok(Some(_))) <==> outcome == Ok::<bool, MatchError>(true),
        outcome matches Err(e) ==> r == Err::<Option<Vec<Option<Match>>>, MatchError>(e),
        outcome == Ok::<bool, MatchError>(false) ==> r == Ok::<Option<Vec<Option<Match>>>, MatchError>(None),
        outcome == Ok::<bool, MatchError>(true) ==> (r matches Ok(Some(v)) && v@.len() == group_count + 1
            && v@ == captures_of(buf@)),
{
    match outcome {
        Err(e) => Err(e),
        Ok(false) => Ok(None),
        Ok(true) => {
            let mut v: Vec<Option<Match>> = Vec::with_capacity(buf.len());
            let mut i: usize = 0;
            while i < buf.len()
                invariant
                    i <= buf@.len(),
                    v@ == buf@.take(i as int).map_values(|rm: RegMatch| match_of(rm)),
                decreases buf@.len() - i,
            {
                v.push(Match::from_raw(buf[i]));
                assert(buf@.take(i + 1) == buf@.take(i as int).push(buf@[i as int]));
                i = i + 1;
            }
            assert(buf@.take(buf@.len() as int) == buf@);
            Ok(Some(v))
        },
    }
}

} // verus!
