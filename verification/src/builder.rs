//! Compile options for a regular expression.
use vstd::prelude::*;

use crate::codes::{
    REG_BRACE_COMPAT, REG_BRACK_ESCAPE, REG_EXTENDED, REG_EXTENSIONS_BSD, REG_EXTENSIONS_GNU,
    REG_ICASE, REG_MINDISABLE, REG_MINIMAL, REG_NATIVE1B, REG_NEWLINE, REG_NOSUB,
};
use crate::flags::{mask, masked, has_flag};

verus! {

/// Configures how a pattern is compiled; reusable, since it is `Copy`.
///
/// Each setter switches one compile flag, stores the new flags in `self`
/// and also returns them, so that setters can be chained.
#[derive(Clone, Copy, Debug, PartialEq, Eq, Structural, Hash)]
pub struct RegexBuilder(u32);

impl View for RegexBuilder {
    type V = u32;

    /// The compile flag word.
    closed spec fn view(&self) -> u32 {
        self.0
    }
}

/// The compile flags that a builder can switch.
pub open spec fn is_compile_flag(bit: u32) -> bool {
    ||| bit == REG_EXTENDED
    ||| bit == REG_ICASE
    ||| bit == REG_MINIMAL
    ||| bit == REG_NEWLINE
    ||| bit == REG_NOSUB
    ||| bit == REG_BRACE_COMPAT
    ||| bit == REG_BRACK_ESCAPE
    ||| bit == REG_EXTENSIONS_BSD
    ||| bit == REG_EXTENSIONS_GNU
    ||| bit == REG_NATIVE1B
    ||| bit == REG_MINDISABLE
}

/// Switching one compile flag leaves every other compile flag as it was,
/// and the switched flag ends up on exactly when it was enabled.
pub proof fn lemma_compile_flags_independent(set: u32, bit: u32, enable: bool, other: u32)
    requires
        is_compile_flag(bit),
        is_compile_flag(other),
        bit != other,
    ensures
        has_flag(masked(set, bit, enable), other) == has_flag(set, other),
        has_flag(masked(set, bit, enable), bit) == enable,
{
    assert(bit & other == 0) by (bit_vector)
        requires
            bit == 1u32 || bit == 2u32 || bit == 4u32 || bit == 8u32 || bit == 16u32 || bit
                == 32u32 || bit == 64u32 || bit == 128u32 || bit == 256u32 || bit == 512u32
                || bit == 1024u32,
            other == 1u32 || other == 2u32 || other == 4u32 || other == 8u32 || other == 16u32
                || other == 32u32 || other == 64u32 || other == 128u32 || other == 256u32
                || other == 512u32 || other == 1024u32,
            bit != other,
    ;
    crate::flags::lemma_mask_keeps_others(set, bit, enable, other);
    crate::flags::lemma_mask_sets_bit(set, bit, enable);
}

impl RegexBuilder {
    /// A builder with the default options: extended syntax and nothing else.
    pub fn new() -> (r: Self)
        ensures
            r@ == REG_EXTENDED,
    {
        RegexBuilder(REG_EXTENDED)
    }

    /// Switches `bit` in the flags, stores and returns them.
    fn switch(&mut self, bit: u32, enable: bool) -> (r: Self)
        ensures
            final(self)@ == masked(old(self)@, bit, enable),
            r == *final(self),
    {
        self.0 = mask(self.0, bit, enable);
        *self
    }

    /// Uses extended POSIX syntax. Extended syntax is always on in MinRX, so
    /// this changes nothing.
    pub fn extended(&mut self, enable: bool) -> (r: Self)
        ensures
            *final(self) == *old(self),
            r == *old(self),
    {
        *self
    }

    /// Ignore case in both pattern and search.
    pub fn case_insensitive(&mut self, enable: bool) -> (r: Self)
        ensures
            final(self)@ == masked(old(self)@, REG_ICASE, enable),
            r == *final(self),
    {
        self.switch(REG_ICASE, enable)
    }

    /// Swap the meaning of `?` and `??`, `*` and `*?`, `+` and `+?`.
    pub fn swap_greed(&mut self, enable: bool) -> (r: Self)
        ensures
            final(self)@ == masked(old(self)@, REG_MINIMAL, enable),
            r == *final(self),
    {
        self.switch(REG_MINIMAL, enable)
    }

    /// Exclude `\n` from `.` and `[^...]`; treat it as a boundary for `^`
    /// and `$`.
    pub fn multi_line(&mut self, enable: bool) -> (r: Self)
        ensures
            final(self)@ == masked(old(self)@, REG_NEWLINE, enable),
            r == *final(self),
    {
        self.switch(REG_NEWLINE, enable)
    }

    /// Report true/false results only, no substring positions.
    pub fn no_substrings(&mut self, enable: bool) -> (r: Self)
        ensures
            final(self)@ == masked(old(self)@, REG_NOSUB, enable),
            r == *final(self),
    {
        self.switch(REG_NOSUB, enable)
    }

    /// `{` begins an interval expression only when followed by a digit.
    pub fn brace_compat(&mut self, enable: bool) -> (r: Self)
        ensures
            final(self)@ == masked(old(self)@, REG_BRACE_COMPAT, enable),
            r == *final(self),
    {
        self.switch(REG_BRACE_COMPAT, enable)
    }

    /// Bracket expressions `[...]` allow backslash escapes.
    pub fn escapes_in_brackets(&mut self, enable: bool) -> (r: Self)
        ensures
            final(self)@ == masked(old(self)@, REG_BRACK_ESCAPE, enable),
            r == *final(self),
    {
        self.switch(REG_BRACK_ESCAPE, enable)
    }

    /// Enable BSD extensions: `\<` and `\>`.
    pub fn bsd_extensions(&mut self, enable: bool) -> (r: Self)
        ensures
            final(self)@ == masked(old(self)@, REG_EXTENSIONS_BSD, enable),
            r == *final(self),
    {
        self.switch(REG_EXTENSIONS_BSD, enable)
    }

    /// Enable GNU extensions: `\b`, `\B`, `\s`, `\S`, `\w`, `\W`.
    pub fn gnu_extensions(&mut self, enable: bool) -> (r: Self)
        ensures
            final(self)@ == masked(old(self)@, REG_EXTENSIONS_GNU, enable),
            r == *final(self),
    {
        self.switch(REG_EXTENSIONS_GNU, enable)
    }

    /// Use native encoding for 8-bit character sets.
    pub fn native_encoding(&mut self, enable: bool) -> (r: Self)
        ensures
            final(self)@ == masked(old(self)@, REG_NATIVE1B, enable),
            r == *final(self),
    {
        self.switch(REG_NATIVE1B, enable)
    }

    /// Disable POSIX 2024 minimal repetitions.
    pub fn disable_min_reps(&mut self, enable: bool) -> (r: Self)
        ensures
            final(self)@ == masked(old(self)@, REG_MINDISABLE, enable),
            r == *final(self),
    {
        self.switch(REG_MINDISABLE, enable)
    }

    /// The flags as the C `int` that MinRX's compile functions take.
    pub fn as_c_int(self) -> (r: i32)
        ensures
            r == self@ as i32,
    {
        self.0 as i32
    }
}

impl Default for RegexBuilder {
    fn default() -> (r: Self)
        ensures
            r@ == REG_EXTENDED,
    {
        Self::new()
    }
}

} // verus!
