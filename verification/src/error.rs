//! Errors reported by MinRX, and how its result codes map onto them.
use vstd::prelude::*;
use vstd::string::StringExecFns;

use crate::codes::{
    REG_BADBR, REG_BADPAT, REG_BADRPT, REG_EBRACE, REG_EBRACK, REG_ECOLLATE, REG_ECTYPE,
    REG_EESCAPE, REG_EPAREN, REG_ERANGE, REG_ESPACE, REG_ESUBREG, REG_NOMATCH, REG_SUCCESS,
    REG_UNKNOWN,
};

verus! {

/// Why a pattern could not be compiled; each variant carries MinRX's own
/// description of the problem.
#[derive(Debug, Clone, PartialEq, Eq, PartialOrd, Ord, Hash)]
pub enum BuildError {
    BadPattern(String),
    BadBracket(String),
    BadRepetition(String),
    UnbalancedBrace(String),
    UnbalancedBracket(String),
    InvalidCollate(String),
    InvalidClass(String),
    InvalidEscape(String),
    UnbalancedParen(String),
    InvalidEndpoint(String),
    AllocError(String),
    InvalidDigitEscape(String),
    Unknown(String),
}

/// Why a search failed; each variant carries MinRX's own description.
#[derive(Debug, Clone, PartialEq, Eq, PartialOrd, Ord, Hash)]
pub enum MatchError {
    AllocError(String),
    Unknown(String),
}

/// The error code that a compile result code reports: itself when it is
/// one of the compile errors that MinRX names, the unknown-error code for
/// anything else.
pub open spec fn build_error_code(code: u32) -> u32 {
    if REG_BADPAT <= code && code <= REG_ESUBREG {
        code
    } else {
        REG_UNKNOWN
    }
}

/// Each kind of compile error stands for its own MinRX code, and carries the
/// description it was made with.
pub proof fn lemma_build_error_codes(s: String)
    ensures
        BuildError::BadPattern(s).code() == REG_BADPAT,
        BuildError::BadBracket(s).code() == REG_BADBR,
        BuildError::BadRepetition(s).code() == REG_BADRPT,
        BuildError::UnbalancedBrace(s).code() == REG_EBRACE,
        BuildError::UnbalancedBracket(s).code() == REG_EBRACK,
        BuildError::InvalidCollate(s).code() == REG_ECOLLATE,
        BuildError::InvalidClass(s).code() == REG_ECTYPE,
        BuildError::InvalidEscape(s).code() == REG_EESCAPE,
        BuildError::UnbalancedParen(s).code() == REG_EPAREN,
        BuildError::InvalidEndpoint(s).code() == REG_ERANGE,
        BuildError::AllocError(s).code() == REG_ESPACE,
        BuildError::InvalidDigitEscape(s).code() == REG_ESUBREG,
        BuildError::Unknown(s).code() == REG_UNKNOWN,
        BuildError::BadPattern(s).text() == s,
        BuildError::BadBracket(s).text() == s,
        BuildError::BadRepetition(s).text() == s,
        BuildError::UnbalancedBrace(s).text() == s,
        BuildError::UnbalancedBracket(s).text() == s,
        BuildError::InvalidCollate(s).text() == s,
        BuildError::InvalidClass(s).text() == s,
        BuildError::InvalidEscape(s).text() == s,
        BuildError::UnbalancedParen(s).text() == s,
        BuildError::InvalidEndpoint(s).text() == s,
        BuildError::AllocError(s).text() == s,
        BuildError::InvalidDigitEscape(s).text() == s,
        BuildError::Unknown(s).text() == s,
        MatchError::AllocError(s).text() == s,
        MatchError::Unknown(s).text() == s,
{
}

/// Compile result codes of known errors are reported as themselves; any
/// other nonzero code is reported as an unknown error.
pub proof fn lemma_build_error_code_range(code: u32)
    ensures
        REG_BADPAT <= code <= REG_ESUBREG ==> build_error_code(code) == code,
        (code == REG_SUCCESS || code > REG_ESUBREG) ==> build_error_code(code) == REG_UNKNOWN,
{
}

/// A compile error is determined by its code and its description: no two
/// kinds of error share a code, so the contract of `BuildError::from_raw`
/// pins down the error it returns.
pub proof fn lemma_build_error_determined(a: BuildError, b: BuildError)
    requires
        a.code() == b.code(),
        a.text() == b.text(),
    ensures
        a == b,
{
}

/// The length of a description that MinRX wrote into a buffer, given the
/// size it asked for: the size without the terminating NUL byte.
pub fn message_len(needed: usize) -> (r: usize)
    ensures
        r == if needed == 0 { 0 } else { needed - 1 },
{
    if needed == 0 {
        0
    } else {
        needed - 1
    }
}

impl BuildError {
    /// The MinRX result code that this kind of error stands for.
    pub open spec fn code(self) -> u32 {
        match self {
            BuildError::BadPattern(_) => REG_BADPAT,
            BuildError::BadBracket(_) => REG_BADBR,
            BuildError::BadRepetition(_) => REG_BADRPT,
            BuildError::UnbalancedBrace(_) => REG_EBRACE,
            BuildError::UnbalancedBracket(_) => REG_EBRACK,
            BuildError::InvalidCollate(_) => REG_ECOLLATE,
            BuildError::InvalidClass(_) => REG_ECTYPE,
            BuildError::InvalidEscape(_) => REG_EESCAPE,
            BuildError::UnbalancedParen(_) => REG_EPAREN,
            BuildError::InvalidEndpoint(_) => REG_ERANGE,
            BuildError::AllocError(_) => REG_ESPACE,
            BuildError::InvalidDigitEscape(_) => REG_ESUBREG,
            BuildError::Unknown(_) => REG_UNKNOWN,
        }
    }

    /// The description that the error carries.
    pub open spec fn text(self) -> String {
        match self {
            BuildError::BadPattern(s) => s,
            BuildError::BadBracket(s) => s,
            BuildError::BadRepetition(s) => s,
            BuildError::UnbalancedBrace(s) => s,
            BuildError::UnbalancedBracket(s) => s,
            BuildError::InvalidCollate(s) => s,
            BuildError::InvalidClass(s) => s,
            BuildError::InvalidEscape(s) => s,
            BuildError::UnbalancedParen(s) => s,
            BuildError::InvalidEndpoint(s) => s,
            BuildError::AllocError(s) => s,
            BuildError::InvalidDigitEscape(s) => s,
            BuildError::Unknown(s) => s,
        }
    }

    /// Whether a raw compile result `res` is an error, so that a description
    /// of it is needed.
    pub fn is_error_code(res: i32) -> (r: bool)
        ensures
            r == (res as u32 != REG_SUCCESS),
    {
        res as u32 != REG_SUCCESS
    }

    /// Interprets the result of a MinRX compile call: success, or the error
    /// of its code with the description `message`.
    pub fn from_raw(res: i32, message: String) -> (r: Result<(), BuildError>)
        ensures
            r is Ok <==> res as u32 == REG_SUCCESS,
            r matches Err(e) ==> e.code() == build_error_code(res as u32) && e.text() == message,
    {
        let code = res as u32;
        if code == REG_SUCCESS {
            Ok(())
        } else if code == REG_BADPAT {
            Err(BuildError::BadPattern(message))
        } else if code == REG_BADBR {
            Err(BuildError::BadBracket(message))
        } else if code == REG_BADRPT {
            Err(BuildError::BadRepetition(message))
        } else if code == REG_EBRACE {
            Err(BuildError::UnbalancedBrace(message))
        } else if code == REG_EBRACK {
            Err(BuildError::UnbalancedBracket(message))
        } else if code == REG_ECOLLATE {
            Err(BuildError::InvalidCollate(message))
        } else if code == REG_ECTYPE {
            Err(BuildError::InvalidClass(message))
        } else if code == REG_EESCAPE {
            Err(BuildError::InvalidEscape(message))
        } else if code == REG_EPAREN {
            Err(BuildError::UnbalancedParen(message))
        } else if code == REG_ERANGE {
            Err(BuildError::InvalidEndpoint(message))
        } else if code == REG_ESPACE {
            Err(BuildError::AllocError(message))
        } else if code == REG_ESUBREG {
            Err(BuildError::InvalidDigitEscape(message))
        } else {
            Err(BuildError::Unknown(message))
        }
    }

    /// Whether the partly built expression is to be freed after this error:
    /// every error but an allocation failure frees it.
    pub fn frees_expression(&self) -> (r: bool)
        ensures
            r == !(self is AllocError),
    {
        match self {
            BuildError::AllocError(_) => false,
            _ => true,
        }
    }

    /// The description that the error carries.
    pub fn message(&self) -> (r: &String)
        ensures
            *r == self.text(),
    {
        match self {
            BuildError::BadPattern(s) => s,
            BuildError::BadBracket(s) => s,
            BuildError::BadRepetition(s) => s,
            BuildError::UnbalancedBrace(s) => s,
            BuildError::UnbalancedBracket(s) => s,
            BuildError::InvalidCollate(s) => s,
            BuildError::InvalidClass(s) => s,
            BuildError::InvalidEscape(s) => s,
            BuildError::UnbalancedParen(s) => s,
            BuildError::InvalidEndpoint(s) => s,
            BuildError::AllocError(s) => s,
            BuildError::InvalidDigitEscape(s) => s,
            BuildError::Unknown(s) => s,
        }
    }

    /// The error as text, as it is displayed.
    pub fn to_string(&self) -> (r: String)
        ensures
            r@ == "Regex parse error: "@ + self.text()@,
    {
        let mut r = <String as StringExecFns>::from_str("Regex parse error: ");
        r.append(self.message().as_str());
        r
    }
}

impl MatchError {
    /// The description that the error carries.
    pub open spec fn text(self) -> String {
        match self {
            MatchError::AllocError(s) => s,
            MatchError::Unknown(s) => s,
        }
    }

    /// Whether a raw search result `res` is an error, so that a description
    /// of it is needed.
    pub fn is_error_code(res: i32) -> (r: bool)
        ensures
            r == (res as u32 != REG_SUCCESS && res as u32 != REG_NOMATCH),
    {
        let code = res as u32;
        code != REG_SUCCESS && code != REG_NOMATCH
    }

    /// Interprets the result of a MinRX search call: whether a match was
    /// found, or the error of its code with the description `message`.
    pub fn from_raw(res: i32, message: String) -> (r: Result<bool, MatchError>)
        ensures
            res as u32 == REG_SUCCESS ==> r == Ok::<bool, MatchError>(true),
            res as u32 == REG_NOMATCH ==> r == Ok::<bool, MatchError>(false),
            res as u32 == REG_ESPACE ==> r == Err::<bool, MatchError>(MatchError::AllocError(message)),
            res as u32 != REG_SUCCESS && res as u32 != REG_NOMATCH && res as u32 != REG_ESPACE
                ==> r == Err::<bool, MatchError>(MatchError::Unknown(message)),
    {
        let code = res as u32;
        if code == REG_SUCCESS {
            Ok(true)
        } else if code == REG_NOMATCH {
            Ok(false)
        } else if code == REG_ESPACE {
            Err(MatchError::AllocError(message))
        } else {
            Err(MatchError::Unknown(message))
        }
    }

    /// The description that the error carries.
    pub fn message(&self) -> (r: &String)
        ensures
            *r == self.text(),
    {
        match self {
            MatchError::AllocError(s) => s,
            MatchError::Unknown(s) => s,
        }
    }

    /// The error as text, as it is displayed.
    pub fn to_string(&self) -> (r: String)
        ensures
            r@ == "Regex execution error: "@ + self.text()@,
    {
        let mut r = <String as StringExecFns>::from_str("Regex execution error: ");
        r.append(self.message().as_str());
        r
    }
}

} // verus!
