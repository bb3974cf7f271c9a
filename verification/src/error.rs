//! Source positions and the diagnostics that parsing and validation report.
use vstd::prelude::*;
use crate::text::{push_decimal, decimal};

verus! {

/// A position in the SQL source text.
#[derive(Clone, Copy, Debug, PartialEq, Eq, Structural)]
pub struct SourceLocation {
    pub line: usize,
    pub column: usize,
    pub offset: usize,
}

impl Default for SourceLocation {
    fn default() -> (r: Self)
        ensures
            r == (SourceLocation { line: 0, column: 0, offset: 0 }),
    {
        SourceLocation { line: 0, column: 0, offset: 0 }
    }
}

/// A diagnostic: either a hard parse error or a warning.
#[derive(Debug)]
pub enum ParserError {
    /// A token other than the expected one was found.
    UnexpectedToken { location: SourceLocation, expected: String, got: String },
    /// A non-fatal remark about otherwise accepted input.
    Warning { message: String, location: SourceLocation },
}

/// `errs` holds exactly one warning per message of `msgs`, in order, all at `location`.
pub open spec fn warnings_are(errs: Seq<ParserError>, msgs: Seq<Seq<char>>, location: SourceLocation) -> bool {
    &&& errs.len() == msgs.len()
    &&& forall|i: int| 0 <= i < errs.len() ==> {
        &&& (#[trigger] errs[i]) is Warning
        &&& errs[i]->Warning_message@ == msgs[i]
        &&& errs[i]->Warning_location == location
    }
}

/// How a diagnostic reads when shown to a user.
pub open spec fn error_text(e: ParserError) -> Seq<char> {
    match e {
        ParserError::Warning { message, location } => "warning at line "@ + decimal(location.line as nat)
            + ", column "@ + decimal(location.column as nat) + ": "@ + message@,
        ParserError::UnexpectedToken { location, expected, got } => "unexpected token at line "@
            + decimal(location.line as nat) + ", column "@ + decimal(location.column as nat)
            + ": expected "@ + expected@ + ", got "@ + got@,
    }
}

/// Warnings for two message lists, one after the other, are the warnings for both lists.
pub proof fn lemma_warnings_concat(
    a: Seq<ParserError>,
    ma: Seq<Seq<char>>,
    b: Seq<ParserError>,
    mb: Seq<Seq<char>>,
    location: SourceLocation,
)
    requires
        warnings_are(a, ma, location),
        warnings_are(b, mb, location),
    ensures
        warnings_are(a + b, ma + mb, location),
{
    assert forall|i: int| 0 <= i < (a + b).len() implies {
        &&& (#[trigger] (a + b)[i]) is Warning
        &&& (a + b)[i]->Warning_message@ == (ma + mb)[i]
        &&& (a + b)[i]->Warning_location == location
    } by {
        if i < a.len() {
            assert((a + b)[i] == a[i]);
        } else {
            assert((a + b)[i] == b[i - a.len()]);
        }
    }
}

impl ParserError {
    /// Builds a warning with the given message text.
    pub fn warning(message: String, location: SourceLocation) -> (e: ParserError)
        ensures
            e is Warning,
            e->Warning_message@ == message@,
            e->Warning_location == location,
    {
        ParserError::Warning { message, location }
    }

    /// The message shown to a user, including the position.
    pub fn to_string(&self) -> (s: String)
        ensures
            s@ == error_text(*self),
    {
        match self {
            ParserError::Warning { message, location } => {
                let mut s = String::from_str("warning at line ");
                push_decimal(&mut s, location.line as u64);
                s.append(", column ");
                push_decimal(&mut s, location.column as u64);
                s.append(": ");
                s.append(message.as_str());
                s
            },
            ParserError::UnexpectedToken { location, expected, got } => {
                let mut s = String::from_str("unexpected token at line ");
                push_decimal(&mut s, location.line as u64);
                s.append(", column ");
                push_decimal(&mut s, location.column as u64);
                s.append(": expected ");
                s.append(expected.as_str());
                s.append(", got ");
                s.append(got.as_str());
                s
            },
        }
    }
}

} // verus!
