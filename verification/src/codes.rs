//! The numeric interface of MinRX: compile flags, execution flags and result
//! codes, with the values that its header `minrx.h` gives them.
use vstd::prelude::*;

verus! {

/// Compile flag: use "extended" syntax (required by MinRX).
pub const REG_EXTENDED: u32 = 1;
/// Compile flag: ignore case in pattern and search.
pub const REG_ICASE: u32 = 2;
/// Compile flag: swap the meaning of `?` and `??`, `*` and `*?`, `+` and `+?`.
pub const REG_MINIMAL: u32 = 4;
/// Compile flag: exclude `\n` from `.` and `[^...]`; boundary for `^` and `$`.
pub const REG_NEWLINE: u32 = 8;
/// Compile flag: yes/no result only, no substring results.
pub const REG_NOSUB: u32 = 16;
/// Compile flag: `{` begins an interval only when followed by a digit.
pub const REG_BRACE_COMPAT: u32 = 32;
/// Compile flag: bracket expressions allow backslash escapes.
pub const REG_BRACK_ESCAPE: u32 = 64;
/// Compile flag: BSD extensions `\<` and `\>`.
pub const REG_EXTENSIONS_BSD: u32 = 128;
/// Compile flag: GNU extensions `\b \B \s \S \w \W`.
pub const REG_EXTENSIONS_GNU: u32 = 256;
/// Compile flag: native encoding for 8-bit character sets.
pub const REG_NATIVE1B: u32 = 512;
/// Compile flag: disable POSIX 2024 minimal repetitions.
pub const REG_MINDISABLE: u32 = 1024;

/// Execution flag: `^` does not match at the beginning of the haystack.
pub const REG_NOTBOL: u32 = 1;
/// Execution flag: `$` does not match at the end of the haystack.
pub const REG_NOTEOL: u32 = 2;
/// Execution flag: repeated subexpressions capture their first occurrence.
pub const REG_FIRSTSUB: u32 = 4;
/// Execution flag: repeated subexpressions don't clear contained ones.
pub const REG_NOSUBRESET: u32 = 8;
/// Execution flag: resume the search from the end of the previous match.
pub const REG_RESUME: u32 = 16;
/// Execution flag: no skip-ahead over impossible first bytes.
pub const REG_NOFIRSTBYTES: u32 = 32;

/// Result: compiled successfully, or a match was found.
pub const REG_SUCCESS: u32 = 0;
/// Result: bad pattern (generic).
pub const REG_BADPAT: u32 = 1;
/// Result: invalid contents of `{}`.
pub const REG_BADBR: u32 = 2;
/// Result: repetition operator not preceded by a valid subpattern.
pub const REG_BADRPT: u32 = 3;
/// Result: unbalanced `{`.
pub const REG_EBRACE: u32 = 4;
/// Result: unbalanced `[`.
pub const REG_EBRACK: u32 = 5;
/// Result: invalid collating element.
pub const REG_ECOLLATE: u32 = 6;
/// Result: invalid character class name.
pub const REG_ECTYPE: u32 = 7;
/// Result: invalid backslash.
pub const REG_EESCAPE: u32 = 8;
/// Result: unbalanced `(`.
pub const REG_EPAREN: u32 = 9;
/// Result: invalid range endpoint.
pub const REG_ERANGE: u32 = 10;
/// Result: memory allocation failed.
pub const REG_ESPACE: u32 = 11;
/// Result: invalid `\digit`.
pub const REG_ESUBREG: u32 = 12;
/// Result: no match was found.
pub const REG_NOMATCH: u32 = 13;
/// Result: unknown error.
pub const REG_UNKNOWN: u32 = 14;

} // verus!
