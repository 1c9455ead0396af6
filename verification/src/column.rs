//! Selecting one column of one line.

use crate::delimiter::{fields_of, Delimiter};
use crate::engine::views_of;
use crate::error::ParseError;
use vstd::prelude::*;

verus! {

/// The field at the one-based position `column` of `fields`, if there is one.
pub open spec fn field_at(fields: Seq<Seq<char>>, column: nat) -> Option<Seq<char>> {
    if 1 <= column <= fields.len() {
        Some(fields[column - 1])
    } else {
        None
    }
}

/// The column `column` of `line` under a delimiter: the whole line for
/// column zero, else the field at that one-based position among the fields
/// that the delimiter splits the line into.
pub open spec fn column_of(delimiter: Seq<char>, line: Seq<char>, column: nat) -> Option<
    Seq<char>,
> {
    if column == 0 {
        Some(line)
    } else {
        field_at(fields_of(delimiter, line), column)
    }
}

/// Picks the field at the one-based position `column` out of `fields`.
///
/// Fails with `ColumnOverflow` exactly when `column` is zero or lies beyond
/// the last field.
pub fn select_field<'a>(fields: &Vec<&'a str>, column: usize) -> (r: Result<&'a str, ParseError>)
    ensures
        r is Ok <==> 1 <= column <= fields@.len(),
        r matches Ok(s) ==> s == fields@[column - 1],
        r matches Ok(s) ==> field_at(views_of(fields@), column as nat) == Some(s@),
        r is Err ==> field_at(views_of(fields@), column as nat) is None,
        r matches Err(e) ==> e is ColumnOverflow,
{
    if column >= 1 && column <= fields.len() {
        Ok(fields[column - 1])
    } else {
        Err(ParseError::ColumnOverflow)
    }
}

/// Extracts column `column` of `line`, split on runs of `delimiter`.
///
/// Column zero is the whole line, unsplit. A positive column is a one-based
/// position among the fields; the extraction fails with `ColumnOverflow`
/// exactly when the line has fewer fields than that. Every line has a first
/// field, so columns zero and one never fail.
pub fn parse_column<'a>(
    line: &'a str,
    column: usize,
    delimiter: &Delimiter,
) -> (r: Result<&'a str, ParseError>)
    ensures
        column == 0 ==> r == Ok::<&str, ParseError>(line),
        column <= 1 ==> r is Ok,
        r matches Ok(s) ==> column_of(delimiter@, line@, column as nat) == Some(s@),
        r is Err <==> column_of(delimiter@, line@, column as nat) is None,
        r matches Err(e) ==> e is ColumnOverflow,
{
    if column == 0 {
        Ok(line)
    } else {
        let fields = delimiter.fields(line);
        select_field(&fields, column)
    }
}

/// Column zero of a line is the line itself, whatever the delimiter.
pub proof fn lemma_column_zero_is_line(delimiter: Seq<char>, line: Seq<char>)
    ensures
        column_of(delimiter, line, 0) == Some(line),
{
}

/// Extracting column zero is idempotent: extracting it again from what was
/// extracted, under the same delimiter or another, yields the same string.
pub proof fn lemma_column_zero_idempotent(delimiter: Seq<char>, other: Seq<char>, line: Seq<char>)
    ensures
        column_of(other, line, 0) == column_of(delimiter, line, 0),
        column_of(other, column_of(delimiter, line, 0).unwrap(), 0) == column_of(
            delimiter,
            line,
            0,
        ),
{
}

/// Two extractions of column zero from one line return the same string, and
/// it is the line: whatever the two calls of `parse_column` return, under the
/// same or different delimiters, the results are equal.
pub proof fn lemma_column_zero_repeatable<'a>(
    line: &'a str,
    first_delimiter: &Delimiter,
    second_delimiter: &Delimiter,
    first: Result<&'a str, ParseError>,
    second: Result<&'a str, ParseError>,
)
    requires
        call_ensures(parse_column, (line, 0usize, first_delimiter), first),
        call_ensures(parse_column, (line, 0usize, second_delimiter), second),
    ensures
        first == second,
        first == Ok::<&str, ParseError>(line),
{
}

/// An extraction depends on nothing but the line, the column and the text of
/// the delimiter: two calls of `parse_column` on the same of each succeed or
/// fail together, and return equal strings.
pub proof fn lemma_parse_column_repeatable<'a>(
    line: &'a str,
    column: usize,
    first_delimiter: &Delimiter,
    second_delimiter: &Delimiter,
    first: Result<&'a str, ParseError>,
    second: Result<&'a str, ParseError>,
)
    requires
        first_delimiter@ == second_delimiter@,
        call_ensures(parse_column, (line, column, first_delimiter), first),
        call_ensures(parse_column, (line, column, second_delimiter), second),
    ensures
        first is Ok <==> second is Ok,
        first is Ok ==> first.unwrap()@ == second.unwrap()@,
        first matches Err(e) ==> e is ColumnOverflow,
        second matches Err(e) ==> e is ColumnOverflow,
{
}

} // verus!
