//! The decisions of an iteration over all matches in a haystack.
//!
//! Every step of the iteration is one MinRX search. The cursor says which
//! search to run next (with which options, and from which match buffer),
//! and, given the outcome of that search and the buffer it filled, what the
//! step reports and where the next search starts.
use vstd::prelude::*;

use crate::codes::REG_RESUME;
use crate::error::MatchError;
use crate::flags::{masked, has_flag};
use crate::matches::{Match, RegMatch};
use crate::options::{MatchOptions, is_exec_flag, lemma_exec_flags_independent};

verus! {

/// The state of an iteration over all matches, as plain values.
pub struct CursorState {
    /// The execution flags of the last search.
    pub options: u32,
    /// Whether a match was found already, so that searches resume after it.
    pub resuming: bool,
    /// Whether the iteration has ended.
    pub done: bool,
    /// The match buffer handed to the next search.
    pub rm: RegMatch,
    /// The length of the haystack.
    pub haystack_len: usize,
}

/// The state before the first search.
pub open spec fn initial_state(options: u32, haystack_len: usize) -> CursorState {
    CursorState {
        options,
        resuming: false,
        done: false,
        rm: RegMatch { rm_so: 0, rm_eo: 0 },
        haystack_len,
    }
}

/// Preparing a step: nothing when the iteration has ended; otherwise the
/// stored options with the resume flag switched to whether a match was found
/// before, and the stored match buffer.
pub open spec fn prepare_step(s: CursorState) -> (CursorState, Option<(u32, RegMatch)>) {
    if s.done {
        (s, None)
    } else {
        let options = masked(s.options, REG_RESUME, s.resuming);
        (CursorState { options, ..s }, Some((options, s.rm)))
    }
}

/// Finishing a step with the outcome of its search and the buffer the
/// search left behind.
///
/// A match is reported with the offsets of the buffer's first entry, and
/// later searches resume after it. An empty match at or past the end of the
/// haystack ends the iteration; an empty match before the end moves the
/// resume position one byte further, so that it is not found again. No
/// match ends the iteration silently; an error ends it and is reported.
pub open spec fn finish_step(s: CursorState, outcome: Result<bool, MatchError>, rm: RegMatch) -> (
    CursorState,
    Option<Result<Match, MatchError>>,
) {
    match outcome {
        Ok(true) => {
            let so = rm.rm_so as usize;
            let eo = rm.rm_eo as usize;
            let (done, next_rm) = if so == eo && eo >= s.haystack_len {
                (true, rm)
            } else if so == eo {
                (s.done, RegMatch { rm_so: rm.rm_so, rm_eo: (rm.rm_eo + 1) as isize })
            } else {
                (s.done, rm)
            };
            (
                CursorState { resuming: true, done, rm: next_rm, ..s },
                Some(Ok(Match { start: so, end: eo })),
            )
        },
        Ok(false) => (CursorState { done: true, rm, ..s }, None),
        Err(e) => (CursorState { done: true, rm, ..s }, Some(Err(e))),
    }
}

/// Once the iteration has ended it stays ended: preparing reports no search
/// and changes nothing, and finishing leaves it ended.
pub proof fn lemma_ended_stays_ended(s: CursorState, outcome: Result<bool, MatchError>, rm: RegMatch)
    requires
        s.done,
    ensures
        prepare_step(s) == (s, None::<(u32, RegMatch)>),
        finish_step(s, outcome, rm).0.done,
{
}

/// A search that finds nothing ends the iteration without reporting
/// anything, and no search follows.
pub proof fn lemma_no_match_ends(s: CursorState, rm: RegMatch)
    ensures
        finish_step(s, Ok(false), rm).0.done,
        finish_step(s, Ok(false), rm).1 is None,
        prepare_step(finish_step(s, Ok(false), rm).0).1 is None,
{
}

/// A failed search reports its error and ends the iteration; no search
/// follows.
pub proof fn lemma_error_ends(s: CursorState, e: MatchError, rm: RegMatch)
    ensures
        finish_step(s, Err(e), rm).0.done,
        finish_step(s, Err(e), rm).1 == Some(Err::<Match, MatchError>(e)),
        prepare_step(finish_step(s, Err(e), rm).0).1 is None,
{
}

/// A successful search reports the match that the first buffer entry
/// describes, read as unsigned offsets.
pub proof fn lemma_match_reported(s: CursorState, rm: RegMatch)
    ensures
        finish_step(s, Ok(true), rm).1 == Some(
            Ok::<Match, MatchError>(Match { start: rm.rm_so as usize, end: rm.rm_eo as usize }),
        ),
{
}

/// The first search starts afresh: it runs with the caller's flags, except
/// that it does not resume, and with a zeroed match buffer.
pub proof fn lemma_first_search_fresh(options: u32, haystack_len: usize, bit: u32)
    requires
        is_exec_flag(bit),
        bit != REG_RESUME,
    ensures
        prepare_step(initial_state(options, haystack_len)).1 matches Some((o, m)) && !has_flag(
            o,
            REG_RESUME,
        ) && has_flag(o, bit) == has_flag(options, bit) && m == (RegMatch { rm_so: 0, rm_eo: 0 }),
{
    lemma_exec_flags_independent(options, REG_RESUME, false, bit);
}

/// After a match, every further search resumes after it, still with the
/// caller's other flags.
pub proof fn lemma_resumes_after_match(s: CursorState, rm: RegMatch, bit: u32)
    requires
        !finish_step(s, Ok(true), rm).0.done,
        is_exec_flag(bit),
        bit != REG_RESUME,
    ensures
        prepare_step(finish_step(s, Ok(true), rm).0).1 matches Some((o, _)) && has_flag(
            o,
            REG_RESUME,
        ) && has_flag(o, bit) == has_flag(s.options, bit),
{
    lemma_exec_flags_independent(s.options, REG_RESUME, true, bit);
}

/// An empty match before the end of the haystack moves the resume position
/// one byte past it, so that the next search cannot find it again.
pub proof fn lemma_empty_match_moves_on(s: CursorState, rm: RegMatch)
    requires
        !s.done,
        s.haystack_len <= isize::MAX as usize,
        rm.rm_so == rm.rm_eo,
        0 <= rm.rm_eo,
        (rm.rm_eo as usize) < s.haystack_len,
    ensures
        prepare_step(finish_step(s, Ok(true), rm).0).1 matches Some((_, m)) && m.rm_so == rm.rm_so
            && m.rm_eo == rm.rm_eo + 1,
{
}

/// An empty match at or past the end of the haystack is reported, and it
/// is the last thing the iteration reports.
pub proof fn lemma_empty_match_at_end_ends(s: CursorState, rm: RegMatch)
    requires
        rm.rm_so == rm.rm_eo,
        (rm.rm_eo as usize) >= s.haystack_len,
    ensures
        finish_step(s, Ok(true), rm).1 is Some,
        finish_step(s, Ok(true), rm).0.done,
        prepare_step(finish_step(s, Ok(true), rm).0).1 is None,
{
}

/// A nonempty match keeps the buffer as the search left it, so that the
/// next search resumes at the match's end.
pub proof fn lemma_nonempty_match_resumes_at_end(s: CursorState, rm: RegMatch)
    requires
        !s.done,
        rm.rm_so != rm.rm_eo,
        0 <= rm.rm_so,
        0 <= rm.rm_eo,
    ensures
        prepare_step(finish_step(s, Ok(true), rm).0).1 matches Some((_, m)) && m == rm,
{
}

/// A state that an iteration can be in: the haystack is a slice, and while
/// the iteration goes on its resume position lies within the haystack.
pub open spec fn valid_state(s: CursorState) -> bool {
    &&& s.haystack_len <= isize::MAX as usize
    &&& !s.done ==> 0 <= s.rm.rm_eo <= s.haystack_len
}

/// A successful search honours the resume position of `s` when the match
/// it reports starts at or after that position and lies within the
/// haystack.
pub open spec fn honours_resume(s: CursorState, rm: RegMatch) -> bool {
    s.rm.rm_eo <= rm.rm_so <= rm.rm_eo <= s.haystack_len
}

/// Runs the iteration from `s` over the outcomes of its searches, in turn,
/// and counts what it reports. A step whose preparation asks for no search
/// (the iteration has ended) consumes its outcome without using it.
pub open spec fn run(s: CursorState, searches: Seq<(Result<bool, MatchError>, RegMatch)>) -> (
    CursorState,
    nat,
)
    decreases searches.len(),
{
    if searches.len() == 0 {
        (s, 0)
    } else {
        let (s1, search) = prepare_step(s);
        if search is None {
            run(s1, searches.drop_first())
        } else {
            let (s2, reported) = finish_step(s1, searches[0].0, searches[0].1);
            let (s3, n) = run(s2, searches.drop_first());
            (s3, n + if reported is Some { 1nat } else { 0nat })
        }
    }
}

/// Whether every successful search of a run from `s` honours the resume
/// position it was handed.
pub open spec fn run_honours_resume(
    s: CursorState,
    searches: Seq<(Result<bool, MatchError>, RegMatch)>,
) -> bool
    decreases searches.len(),
{
    if searches.len() == 0 {
        true
    } else {
        let (s1, search) = prepare_step(s);
        if search is None {
            run_honours_resume(s1, searches.drop_first())
        } else {
            &&& searches[0].0 == Ok::<bool, MatchError>(true) ==> honours_resume(
                s1,
                searches[0].1,
            )
            &&& run_honours_resume(
                finish_step(s1, searches[0].0, searches[0].1).0,
                searches.drop_first(),
            )
        }
    }
}

/// How many more items an iteration in state `s` can report.
pub open spec fn report_bound(s: CursorState) -> nat {
    if s.done {
        0
    } else {
        (s.haystack_len - s.rm.rm_eo + 2) as nat
    }
}

/// One step of progress: when the search honours the resume position, the
/// iteration either ends or its resume position moves strictly forward and
/// stays within the haystack.
pub proof fn lemma_resume_position_grows(s: CursorState, rm: RegMatch)
    requires
        valid_state(s),
        !s.done,
        honours_resume(s, rm),
    ensures
        valid_state(finish_step(prepare_step(s).0, Ok(true), rm).0),
        !finish_step(prepare_step(s).0, Ok(true), rm).0.done ==> finish_step(
            prepare_step(s).0,
            Ok(true),
            rm,
        ).0.rm.rm_eo > s.rm.rm_eo,
{
}

/// Progress of the whole iteration: as long as MinRX honours the resume
/// position, a run from a valid state reports at most `report_bound` items.
pub proof fn lemma_run_reports_boundedly(
    s: CursorState,
    searches: Seq<(Result<bool, MatchError>, RegMatch)>,
)
    requires
        valid_state(s),
        run_honours_resume(s, searches),
    ensures
        run(s, searches).1 <= report_bound(s),
    decreases searches.len(),
{
    if searches.len() > 0 {
        let (s1, search) = prepare_step(s);
        if search is None {
            lemma_run_reports_boundedly(s1, searches.drop_first());
        } else {
            let (s2, reported) = finish_step(s1, searches[0].0, searches[0].1);
            if searches[0].0 == Ok::<bool, MatchError>(true) {
                lemma_resume_position_grows(s, searches[0].1);
            }
            assert(valid_state(s2));
            lemma_run_reports_boundedly(s2, searches.drop_first());
        }
    }
}

/// An iteration over a haystack of `haystack_len` bytes reports at most
/// `haystack_len + 2` items (matches, and at most one error), provided every
/// successful search starts at or after the resume position it was handed
/// and stays within the haystack.
pub proof fn lemma_iteration_reports_at_most(
    options: u32,
    haystack_len: usize,
    searches: Seq<(Result<bool, MatchError>, RegMatch)>,
)
    requires
        haystack_len <= isize::MAX as usize,
        run_honours_resume(initial_state(options, haystack_len), searches),
    ensures
        run(initial_state(options, haystack_len), searches).1 <= haystack_len + 2,
{
    lemma_run_reports_boundedly(initial_state(options, haystack_len), searches);
}

/// Matches come in order: when MinRX honours the resume position of two
/// successive searches, each reported match lies within the haystack and
/// starts no earlier than its end, and after an empty match the next one
/// starts strictly later, so matches never overlap nor repeat.
pub proof fn lemma_matches_increase(s: CursorState, rm1: RegMatch, rm2: RegMatch)
    requires
        valid_state(s),
        !s.done,
        honours_resume(s, rm1),
        !finish_step(prepare_step(s).0, Ok(true), rm1).0.done,
        honours_resume(finish_step(prepare_step(s).0, Ok(true), rm1).0, rm2),
    ensures
        0 <= rm1.rm_so <= rm1.rm_eo <= s.haystack_len,
        0 <= rm2.rm_so <= rm2.rm_eo <= s.haystack_len,
        finish_step(prepare_step(s).0, Ok(true), rm1).1 == Some(
            Ok::<Match, MatchError>(Match { start: rm1.rm_so as usize, end: rm1.rm_eo as usize }),
        ),
        rm1.rm_eo <= rm2.rm_so,
        rm1.rm_so == rm1.rm_eo ==> rm1.rm_eo < rm2.rm_so,
{
    lemma_resume_position_grows(s, rm1);
}

/// Preparing a search changes nothing but the resume flag: every other bit
/// of the stored flags stays as the caller set it, the resume flag says
/// whether a match was found before, and the search runs with exactly the
/// stored flags and buffer. The haystack length, buffer and progress are
/// kept.
pub proof fn lemma_prepare_keeps_caller_flags(s: CursorState)
    ensures
        prepare_step(s).0.options & !REG_RESUME == s.options & !REG_RESUME,
        !s.done ==> has_flag(prepare_step(s).0.options, REG_RESUME) == s.resuming,
        prepare_step(s).1 matches Some((o, m)) ==> o == prepare_step(s).0.options && m == s.rm,
        prepare_step(s).0.haystack_len == s.haystack_len,
        prepare_step(s).0.rm == s.rm,
        prepare_step(s).0.done == s.done,
        prepare_step(s).0.resuming == s.resuming,
{
    let x = s.options;
    assert((x | 16u32) & !16u32 == x & !16u32) by (bit_vector);
    assert((x & !16u32) & !16u32 == x & !16u32) by (bit_vector);
    assert((x | 16u32) & 16u32 == 16u32) by (bit_vector);
    assert((x & !16u32) & 16u32 != 16u32) by (bit_vector);
}

/// Finishing a step never touches the flags or the length of the haystack.
pub proof fn lemma_finish_keeps_flags_and_length(
    s: CursorState,
    outcome: Result<bool, MatchError>,
    rm: RegMatch,
)
    ensures
        finish_step(s, outcome, rm).0.options == s.options,
        finish_step(s, outcome, rm).0.haystack_len == s.haystack_len,
{
}

/// An empty match strictly before the end of the haystack never ends the
/// iteration, and the haystack keeps its length.
pub proof fn lemma_empty_match_inside_continues(s: CursorState, rm: RegMatch)
    requires
        !s.done,
        rm.rm_so == rm.rm_eo,
        0 <= rm.rm_eo,
        (rm.rm_eo as usize) < s.haystack_len,
    ensures
        !finish_step(s, Ok(true), rm).0.done,
        finish_step(s, Ok(true), rm).0.haystack_len == s.haystack_len,
{
}

/// A whole run keeps the haystack length, and keeps every flag but the
/// resume flag as it was at the start.
pub proof fn lemma_run_keeps_flags_and_length(
    s: CursorState,
    searches: Seq<(Result<bool, MatchError>, RegMatch)>,
)
    ensures
        run(s, searches).0.haystack_len == s.haystack_len,
        run(s, searches).0.options & !REG_RESUME == s.options & !REG_RESUME,
    decreases searches.len(),
{
    if searches.len() > 0 {
        lemma_prepare_keeps_caller_flags(s);
        let (s1, search) = prepare_step(s);
        if search is None {
            lemma_run_keeps_flags_and_length(s1, searches.drop_first());
        } else {
            lemma_finish_keeps_flags_and_length(s1, searches[0].0, searches[0].1);
            let (s2, reported) = finish_step(s1, searches[0].0, searches[0].1);
            lemma_run_keeps_flags_and_length(s2, searches.drop_first());
        }
    }
}

/// Every search of an iteration carries the caller's flags: after any number
/// of steps from the start, the next search runs with the caller's options,
/// except that the resume flag says whether a match was found before, and
/// the haystack length is still the caller's.
pub proof fn lemma_every_search_has_caller_flags(
    options: u32,
    haystack_len: usize,
    searches: Seq<(Result<bool, MatchError>, RegMatch)>,
)
    ensures
        run(initial_state(options, haystack_len), searches).0.haystack_len == haystack_len,
        prepare_step(run(initial_state(options, haystack_len), searches).0).1 matches Some((o, _))
            ==> o & !REG_RESUME == options & !REG_RESUME && has_flag(o, REG_RESUME) == run(
            initial_state(options, haystack_len),
            searches,
        ).0.resuming,
{
    let t = run(initial_state(options, haystack_len), searches).0;
    lemma_run_keeps_flags_and_length(initial_state(options, haystack_len), searches);
    lemma_prepare_keeps_caller_flags(t);
}

/// The state of an iteration over all matches of a pattern in a haystack.
pub struct MatchCursor {
    options: MatchOptions,
    resuming: bool,
    is_done: bool,
    rm: RegMatch,
    haystack_len: usize,
}

impl View for MatchCursor {
    type V = CursorState;

    closed spec fn view(&self) -> CursorState {
        CursorState {
            options: self.options@,
            resuming: self.resuming,
            done: self.is_done,
            rm: self.rm,
            haystack_len: self.haystack_len,
        }
    }
}

impl MatchCursor {
    /// A haystack is a slice, so its length never exceeds `isize::MAX`.
    #[verifier::type_invariant]
    spec fn fits(self) -> bool {
        self.haystack_len <= isize::MAX as usize
    }

    /// A cursor before the first search in a haystack of `haystack_len`
    /// bytes, with the caller's options.
    pub fn new(options: MatchOptions, haystack_len: usize) -> (r: Self)
        requires
            haystack_len <= isize::MAX as usize,
        ensures
            r@ == initial_state(options@, haystack_len),
            valid_state(r@),
    {
        MatchCursor {
            options,
            resuming: false,
            is_done: false,
            rm: RegMatch { rm_so: 0, rm_eo: 0 },
            haystack_len,
        }
    }

    /// Prepares the next search: `None` when the iteration has ended,
    /// otherwise the options for the search and the match buffer to hand it.
    pub fn prepare(&mut self) -> (r: Option<(MatchOptions, RegMatch)>)
        ensures
            final(self)@ == prepare_step(old(self)@).0,
            final(self)@.haystack_len <= isize::MAX as usize,
            final(self)@.haystack_len == old(self)@.haystack_len,
            final(self)@.options & !REG_RESUME == old(self)@.options & !REG_RESUME,
            r matches Some((o, m)) ==> o@ & !REG_RESUME == old(self)@.options & !REG_RESUME
                && has_flag(o@, REG_RESUME) == old(self)@.resuming && m == old(self)@.rm,
            valid_state(old(self)@) ==> valid_state(final(self)@),
            r is None <==> prepare_step(old(self)@).1 is None,
            r matches Some((o, m)) ==> prepare_step(old(self)@).1 == Some((o@, m)),
    {
        proof {
            use_type_invariant(&*self);
            lemma_prepare_keeps_caller_flags(self@);
        }
        if self.is_done {
            return None;
        }
        let mut options = self.options;
        options.resume(self.resuming);
        self.options = options;
        Some((options, self.rm))
    }

    /// Finishes a step with the outcome of the search and the match buffer
    /// it left behind, and says what the step reports: a match, an error, or
    /// nothing when the iteration ends without error.
    pub fn finish(&mut self, outcome: Result<bool, MatchError>, rm: RegMatch) -> (r: Option<
        Result<Match, MatchError>,
    >)
        ensures
            (final(self)@, r) == finish_step(old(self)@, outcome, rm),
            final(self)@.haystack_len <= isize::MAX as usize,
            final(self)@.haystack_len == old(self)@.haystack_len,
            final(self)@.options == old(self)@.options,
    {
        proof {
            use_type_invariant(&*self);
        }
        match outcome {
            Ok(true) => {
                let so = rm.rm_so as usize;
                let eo = rm.rm_eo as usize;
                self.rm = rm;
                if so == eo {
                    if eo >= self.haystack_len {
                        self.is_done = true;
                    } else {
                        proof {
                            lemma_small_offset_fits(rm.rm_eo, self.haystack_len);
                        }
                        self.rm = RegMatch { rm_so: rm.rm_so, rm_eo: rm.rm_eo + 1 };
                    }
                }
                self.resuming = true;
                Some(Ok(Match { start: so, end: eo }))
            },
            Ok(false) => {
                self.rm = rm;
                self.is_done = true;
                None
            },
            Err(e) => {
                self.rm = rm;
                self.is_done = true;
                Some(Err(e))
            },
        }
    }
}

/// An offset whose unsigned reading lies below a slice length is
/// nonnegative, and one more than it still fits.
proof fn lemma_small_offset_fits(x: isize, len: usize)
    requires
        (x as usize) < len,
        len <= isize::MAX as usize,
    ensures
        0 <= x < isize::MAX,
{
    assert(len as isize >= 0);
    assert((len as isize) >= 0 && (x as usize) < len ==> x >= 0) by (bit_vector);
    assert(x as usize == x);
}

} // verus!
