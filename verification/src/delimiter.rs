//! The delimiter that separates the fields of a line.

use crate::engine::{
    compile, escape, escaped, regex_compiles, regex_default, regex_pattern, regex_split, split,
    views_of,
};
use crate::error::ParseError;
use regex::Regex;
use vstd::prelude::*;
use vstd::string::StringExecFns;

verus! {

/// The pattern that a delimiter is matched by: one or more occurrences in a
/// row of the delimiter, taken letter for letter, so that a run of delimiters
/// separates two fields only once.
pub open spec fn delimiter_pattern(delimiter: Seq<char>) -> Seq<char> {
    seq!['(', '?', ':'] + escaped(delimiter) + seq![')', '+']
}

/// The fields that `delimiter` splits `line` into, in order.
pub open spec fn fields_of(delimiter: Seq<char>, line: Seq<char>) -> Seq<Seq<char>> {
    regex_split(delimiter_pattern(delimiter), line)
}

/// Whether `delimiter` can be used: it is not empty, and the engine compiles
/// its pattern.
pub open spec fn accepted(delimiter: Seq<char>) -> bool {
    delimiter.len() > 0 && regex_compiles(delimiter_pattern(delimiter))
}

/// Writes the pattern that matches runs of `delimiter`.
pub fn pattern_for(delimiter: &str) -> (pattern: String)
    ensures
        pattern@ == delimiter_pattern(delimiter@),
{
    let literal = escape(delimiter);
    let pattern = String::from_str("(?:").concat(literal.as_str()).concat(")+");
    proof {
        reveal_strlit("(?:");
        reveal_strlit(")+");
        assert("(?:"@ =~= seq!['(', '?', ':']);
        assert(")+"@ =~= seq![')', '+']);
        assert(pattern@ =~= delimiter_pattern(delimiter@));
    }
    pattern
}

/// A delimiter, compiled once and used for every line.
///
/// Its view is the delimiter's text. The compiled regular expression is no
/// part of the view: the type's invariant fixes it as what the engine
/// compiles from the pattern of that text.
pub struct Delimiter {
    text: String,
    re: Regex,
}

impl View for Delimiter {
    type V = Seq<char>;

    closed spec fn view(&self) -> Seq<char> {
        self.text@
    }
}

impl Delimiter {
    /// The regular expression is the one that the engine compiles, with its
    /// default options, from the pattern of the text.
    #[verifier::type_invariant]
    spec fn well_formed(self) -> bool {
        &&& regex_default(self.re)
        &&& regex_pattern(self.re) == delimiter_pattern(self.text@)
    }

    /// Compiles the pattern that matches runs of `delimiter`.
    ///
    /// Fails with `EmptyDelimiter` exactly when the delimiter is empty, and
    /// with `InvalidDelimiter` exactly when it is not and the engine does not
    /// compile its pattern.
    pub fn new(delimiter: &str) -> (r: Result<Delimiter, ParseError>)
        ensures
            r is Ok <==> accepted(delimiter@),
            r matches Ok(d) ==> d@ == delimiter@,
            r matches Err(e) ==> (e is EmptyDelimiter <==> delimiter@.len() == 0),
            r matches Err(e) ==> (e is InvalidDelimiter <==> delimiter@.len() > 0),
    {
        if delimiter.is_empty() {
            return Err(ParseError::EmptyDelimiter);
        }
        let pattern = pattern_for(delimiter);
        match compile(pattern.as_str()) {
            Ok(re) => Ok(Delimiter { text: delimiter.to_owned(), re }),
            Err(e) => Err(ParseError::InvalidDelimiter(e)),
        }
    }

    /// The delimiter's text.
    pub fn as_str(&self) -> (text: &str)
        ensures
            text@ == self@,
    {
        self.text.as_str()
    }

    /// Splits `line` into its fields. There is always a first field; a line
    /// that begins or ends with the delimiter has an empty field there.
    pub fn fields<'a>(&self, line: &'a str) -> (fields: Vec<&'a str>)
        ensures
            fields@.len() >= 1,
            views_of(fields@) == fields_of(self@, line@),
    {
        proof {
            use_type_invariant(self);
        }
        split(&self.re, line)
    }
}

} // verus!
