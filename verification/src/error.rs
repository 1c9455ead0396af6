//! What can go wrong while columns are extracted.

use vstd::prelude::*;

verus! {

/// The failure of an extraction.
#[derive(Debug)]
pub enum ParseError {
    /// The delimiter is empty, so that nothing could separate two fields.
    EmptyDelimiter,
    /// The delimiter does not make a pattern that the regular expression
    /// engine compiles; the engine's own error is carried along.
    InvalidDelimiter(regex::Error),
    /// The line has fewer fields than the requested column.
    ColumnOverflow,
}

impl ParseError {
    /// The text that describes the error to a reader: for an overflow the
    /// words `Column overflow`, for an empty delimiter the words
    /// `Empty delimiter`, for a delimiter that does not compile the engine's
    /// own description.
    pub fn message(&self) -> (text: String)
        ensures
            self is ColumnOverflow ==> text@ == "Column overflow"@,
            self is EmptyDelimiter ==> text@ == "Empty delimiter"@,
            self matches ParseError::InvalidDelimiter(e)
                ==> vstd::string::to_string_from_display_ensures::<regex::Error>(e, text),
    {
        match self {
            ParseError::EmptyDelimiter => "Empty delimiter".to_owned(),
            ParseError::InvalidDelimiter(e) => e.to_string(),
            ParseError::ColumnOverflow => "Column overflow".to_owned(),
        }
    }
}

} // verus!
