//! Execution options for a search.
use vstd::prelude::*;

use crate::codes::{
    REG_FIRSTSUB, REG_NOFIRSTBYTES, REG_NOSUBRESET, REG_NOTBOL, REG_NOTEOL, REG_RESUME,
};
use crate::flags::{mask, masked, has_flag};

verus! {

/// Configures a search; reusable, since it is `Copy`.
///
/// Each setter switches one execution flag, stores the new flags in `self`
/// and also returns them, so that setters can be chained.
#[derive(Clone, Copy, Debug, PartialEq, Eq, Structural, Hash)]
pub struct MatchOptions(u32);

impl View for MatchOptions {
    type V = u32;

    /// The execution flag word.
    closed spec fn view(&self) -> u32 {
        self.0
    }
}

/// The execution flags that options can switch.
pub open spec fn is_exec_flag(bit: u32) -> bool {
    ||| bit == REG_NOTBOL
    ||| bit == REG_NOTEOL
    ||| bit == REG_FIRSTSUB
    ||| bit == REG_NOSUBRESET
    ||| bit == REG_RESUME
    ||| bit == REG_NOFIRSTBYTES
}

/// Switching one execution flag leaves every other execution flag as it
/// was, and the switched flag ends up on exactly when it was enabled.
pub proof fn lemma_exec_flags_independent(set: u32, bit: u32, enable: bool, other: u32)
    requires
        is_exec_flag(bit),
        is_exec_flag(other),
        bit != other,
    ensures
        has_flag(masked(set, bit, enable), other) == has_flag(set, other),
        has_flag(masked(set, bit, enable), bit) == enable,
{
    assert(bit & other == 0) by (bit_vector)
        requires
            bit == 1u32 || bit == 2u32 || bit == 4u32 || bit == 8u32 || bit == 16u32 || bit
                == 32u32,
            other == 1u32 || other == 2u32 || other == 4u32 || other == 8u32 || other == 16u32
                || other == 32u32,
            bit != other,
    ;
    crate::flags::lemma_mask_keeps_others(set, bit, enable, other);
    crate::flags::lemma_mask_sets_bit(set, bit, enable);
}

impl MatchOptions {
    /// Options with no flag on.
    pub fn new() -> (r: Self)
        ensures
            r@ == 0,
    {
        MatchOptions(0)
    }

    /// Switches `bit` in the flags, stores and returns them.
    fn switch(&mut self, bit: u32, enable: bool) -> (r: Self)
        ensures
            final(self)@ == masked(old(self)@, bit, enable),
            r == *final(self),
    {
        self.0 = mask(self.0, bit, enable);
        *self
    }

    /// The flags as the C `int` that MinRX's search functions take.
    pub fn as_c_int(self) -> (r: i32)
        ensures
            r == self@ as i32,
    {
        self.0 as i32
    }

    /// Disables matching `^` at the beginning of the haystack.
    pub fn not_bol(&mut self, enable: bool) -> (r: Self)
        ensures
            final(self)@ == masked(old(self)@, REG_NOTBOL, enable),
            r == *final(self),
    {
        self.switch(REG_NOTBOL, enable)
    }

    /// Disables matching `$` at the end of the haystack.
    pub fn not_eol(&mut self, enable: bool) -> (r: Self)
        ensures
            final(self)@ == masked(old(self)@, REG_NOTEOL, enable),
            r == *final(self),
    {
        self.switch(REG_NOTEOL, enable)
    }

    /// Repeated subexpressions capture their first occurrence (rather than
    /// the last).
    pub fn first_subexpr(&mut self, enable: bool) -> (r: Self)
        ensures
            final(self)@ == masked(old(self)@, REG_FIRSTSUB, enable),
            r == *final(self),
    {
        self.switch(REG_FIRSTSUB, enable)
    }

    /// Repeated subexpressions don't clear their contained subexpressions.
    pub fn no_subexpr_reset(&mut self, enable: bool) -> (r: Self)
        ensures
            final(self)@ == masked(old(self)@, REG_NOSUBRESET, enable),
            r == *final(self),
    {
        self.switch(REG_NOSUBRESET, enable)
    }

    /// Resumes matching at the end of the previous match. Kept inside the
    /// crate: only the match cursor knows when that end is meaningful.
    pub(crate) fn resume(&mut self, enable: bool) -> (r: Self)
        ensures
            final(self)@ == masked(old(self)@, REG_RESUME, enable),
            r == *final(self),
    {
        self.switch(REG_RESUME, enable)
    }

    /// Disables rapid skip-ahead over impossible first bytes.
    pub fn no_first_bytes(&mut self, enable: bool) -> (r: Self)
        ensures
            final(self)@ == masked(old(self)@, REG_NOFIRSTBYTES, enable),
            r == *final(self),
    {
        self.switch(REG_NOFIRSTBYTES, enable)
    }
}

impl Default for MatchOptions {
    fn default() -> (r: Self)
        ensures
            r@ == 0,
    {
        Self::new()
    }
}

} // verus!
